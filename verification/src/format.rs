//! The format model and renderer.
//!
//! A [`ValueFormat`] owns an ordered sequence of [`FormatPart`] instructions.
//! One render entry point per value category walks the parts in order and
//! concatenates each part's contribution; a part whose kind means nothing for
//! the requested category contributes the empty string. The contracts state
//! each resulting string exactly over the views of the format and the value.

use vstd::prelude::*;

use crate::attrmap2::kv_seq_ref;
use crate::attrmap2::spec_add_all;
use crate::attrmap2::spec_attr_def;
use crate::attrmap2::AttrMap2;
use crate::calendar::ampm_marker;
use crate::calendar::ampm_str;
use crate::calendar::dur_hours;
use crate::calendar::dur_minutes;
use crate::calendar::dur_seconds;
use crate::calendar::hour12;
use crate::calendar::month_abbr;
use crate::calendar::month_abbr_str;
use crate::calendar::month_name;
use crate::calendar::month_name_str;
use crate::calendar::week_of_year;
use crate::calendar::weekday_abbr;
use crate::calendar::weekday_abbr_str;
use crate::calendar::weekday_name;
use crate::calendar::weekday_name_str;
use crate::calendar::weekday_sun0;
use crate::calendar::DateTimeValue;
use crate::calendar::DateTimeView;
use crate::calendar::DurationValue;
use crate::style::CellRef;
use crate::style::Rgb;
use crate::style::StyleMap;
use crate::style::StyleMapView;
use crate::style::StyleOrigin;
use crate::style::StyleUse;
use crate::style::TextAttr;
use crate::style::ValueType;
use crate::textfmt::dec_str;
use crate::textfmt::pad2_str;
use crate::textfmt::pad2_string;
use crate::textfmt::pad4_str;
use crate::textfmt::pad4_string;
use crate::textfmt::parse_u64;
use crate::textfmt::signed_dec_str;
use crate::textfmt::signed_string;
use crate::textfmt::spec_parse_u64;
use crate::textfmt::str_eq;
use crate::textfmt::u64_string;

verus! {

use vstd::string::StringExecFns;

/// Rendering failures: a structural formatting error with a message, or a
/// required numeric attribute that could not be parsed.
#[derive(Debug)]
pub enum ValueFormatError {
    Format(String),
    NaN,
}

/// The message of a rendering failure.
pub open spec fn error_message(e: ValueFormatError) -> Seq<char> {
    match e {
        ValueFormatError::Format(s) => s@,
        ValueFormatError::NaN => "Digit expected"@,
    }
}

impl ValueFormatError {
    /// A human-readable description of the failure.
    pub fn message(&self) -> (r: String)
        ensures
            r@ == error_message(*self),
    {
        match self {
            ValueFormatError::Format(s) => s.clone(),
            ValueFormatError::NaN => "Digit expected".to_owned(),
        }
    }
}

/// Identifies the structural parts of a value format.
#[derive(Clone, Copy, PartialEq, Eq, Structural, Debug)]
pub enum FormatPartType {
    Boolean,
    Number,
    Fraction,
    Scientific,
    CurrencySymbol,
    Day,
    Month,
    Year,
    Era,
    DayOfWeek,
    WeekOfYear,
    Quarter,
    Hours,
    Minutes,
    Seconds,
    AmPm,
    EmbeddedText,
    Text,
    TextContent,
}

/// The mathematical content of a [`FormatPart`]: its kind, its attributes as a
/// map of character sequences, and its literal content.
pub struct FormatPartView {
    pub part_type: FormatPartType,
    pub attr: Map<Seq<char>, Seq<char>>,
    pub content: Option<Seq<char>>,
}

/// One structural part of a value format.
#[derive(Debug)]
pub struct FormatPart {
    /// What kind of format part is this?
    part_type: FormatPartType,
    /// Properties of this part.
    attr: AttrMap2,
    /// Some content.
    content: Option<String>,
}

impl View for FormatPart {
    type V = FormatPartView;

    closed spec fn view(&self) -> FormatPartView {
        FormatPartView {
            part_type: self.part_type,
            attr: self.attr@,
            content: match self.content {
                Some(s) => Some(s@),
                None => None,
            },
        }
    }
}

impl Clone for FormatPart {
    fn clone(&self) -> (r: Self)
        ensures
            r@ == self@,
    {
        FormatPart {
            part_type: self.part_type,
            attr: self.attr.clone(),
            content: match &self.content {
                Some(s) => Some(s.clone()),
                None => None,
            },
        }
    }
}

impl FormatPart {
    /// New, empty.
    pub fn new(ftype: FormatPartType) -> (r: Self)
        ensures
            r@ == (FormatPartView {
                part_type: ftype,
                attr: Map::<Seq<char>, Seq<char>>::empty(),
                content: None,
            }),
    {
        FormatPart { part_type: ftype, attr: AttrMap2::new(), content: None }
    }

    /// New, with string content.
    pub fn new_content(ftype: FormatPartType, content: &str) -> (r: Self)
        ensures
            r@ == (FormatPartView {
                part_type: ftype,
                attr: Map::<Seq<char>, Seq<char>>::empty(),
                content: Some(content@),
            }),
    {
        FormatPart { part_type: ftype, attr: AttrMap2::new(), content: Some(content.to_owned()) }
    }

    /// New, with properties.
    pub fn new_vec(ftype: FormatPartType, prp_vec: Vec<(&str, String)>) -> (r: Self)
        ensures
            r@ == (FormatPartView {
                part_type: ftype,
                attr: spec_add_all(Map::<Seq<char>, Seq<char>>::empty(), kv_seq_ref(prp_vec@)),
                content: None,
            }),
    {
        let mut part = FormatPart { part_type: ftype, attr: AttrMap2::new(), content: None };
        part.attr.add_all(prp_vec.as_slice());
        part
    }

    /// Sets the kind of the part.
    pub fn set_part_type(&mut self, p_type: FormatPartType)
        ensures
            final(self)@ == (FormatPartView { part_type: p_type, ..old(self)@ }),
    {
        self.part_type = p_type;
    }

    /// What kind of part?
    pub fn part_type(&self) -> (r: FormatPartType)
        ensures
            r == self@.part_type,
    {
        self.part_type
    }

    /// Sets a property.
    pub fn set_attr(&mut self, name: &str, value: String)
        ensures
            final(self)@ == (FormatPartView {
                attr: old(self)@.attr.insert(name@, value@),
                ..old(self)@
            }),
    {
        self.attr.set_attr(name, value);
    }

    /// Returns a property, if set.
    pub fn attr(&self, name: &str) -> (r: Option<&String>)
        ensures
            match r {
                Some(v) => self@.attr.contains_key(name@) && v@ == self@.attr[name@],
                None => !self@.attr.contains_key(name@),
            },
    {
        self.attr.attr(name)
    }

    /// Returns a property or a default.
    pub fn attr_def<'a>(&'a self, name: &str, default: &'a str) -> (r: &'a str)
        ensures
            r@ == spec_attr_def(self@.attr, name@, default@),
    {
        self.attr.attr_def(name, default)
    }

    /// Sets a textual content for this part. This is only used
    /// for text and currency-symbol.
    pub fn set_content(&mut self, content: &str)
        ensures
            final(self)@ == (FormatPartView { content: Some(content@), ..old(self)@ }),
    {
        self.content = Some(content.to_owned());
    }

    /// Returns the text content.
    pub fn content(&self) -> (r: Option<&String>)
        ensures
            match r {
                Some(v) => self@.content == Some(v@),
                None => self@.content is None,
            },
    {
        self.content.as_ref()
    }
}

/// The views of a sequence of parts, in order.
pub open spec fn parts_view(s: Seq<FormatPart>) -> Seq<FormatPartView> {
    s.map_values(|p: FormatPart| p@)
}

/// The views of a sequence of style maps, in order.
pub open spec fn stylemaps_view(s: Seq<StyleMap>) -> Seq<StyleMapView> {
    s.map_values(|m: StyleMap| m@)
}

/// The mathematical content of a [`ValueFormat`].
pub struct ValueFormatView {
    pub name: Seq<char>,
    pub v_type: ValueType,
    pub origin: StyleOrigin,
    pub styleuse: StyleUse,
    pub attr: Map<Seq<char>, Seq<char>>,
    pub text_attr: Map<Seq<char>, Seq<char>>,
    pub parts: Seq<FormatPartView>,
    pub stylemaps: Seq<StyleMapView>,
}

/// Actual textual formatting of values.
#[derive(Debug)]
pub struct ValueFormat {
    /// Name.
    name: String,
    /// Value type.
    v_type: ValueType,
    /// Origin information.
    origin: StyleOrigin,
    /// Usage of this style.
    styleuse: StyleUse,
    /// Properties of the format.
    attr: AttrMap2,
    /// Cell text styles.
    text_attr: TextAttr,
    /// Parts of the format.
    parts: Vec<FormatPart>,
    /// Style map data.
    stylemaps: Vec<StyleMap>,
}

impl View for ValueFormat {
    type V = ValueFormatView;

    closed spec fn view(&self) -> ValueFormatView {
        ValueFormatView {
            name: self.name@,
            v_type: self.v_type,
            origin: self.origin,
            styleuse: self.styleuse,
            attr: self.attr@,
            text_attr: self.text_attr@,
            parts: parts_view(self.parts@),
            stylemaps: stylemaps_view(self.stylemaps@),
        }
    }
}

impl Clone for ValueFormat {
    fn clone(&self) -> (r: Self)
        ensures
            r@ == self@,
    {
        let mut parts: Vec<FormatPart> = Vec::new();
        let mut i: usize = 0;
        while i < self.parts.len()
            invariant
                i <= self.parts@.len(),
                parts@.len() == i,
                forall|j: int| 0 <= j < i ==> #[trigger] parts@[j]@ == self.parts@[j]@,
            decreases self.parts@.len() - i,
        {
            parts.push(self.parts[i].clone());
            i = i + 1;
        }
        let mut stylemaps: Vec<StyleMap> = Vec::new();
        let mut k: usize = 0;
        while k < self.stylemaps.len()
            invariant
                k <= self.stylemaps@.len(),
                stylemaps@.len() == k,
                forall|j: int| 0 <= j < k ==> #[trigger] stylemaps@[j]@ == self.stylemaps@[j]@,
            decreases self.stylemaps@.len() - k,
        {
            stylemaps.push(self.stylemaps[k].clone());
            k = k + 1;
        }
        let r = ValueFormat {
            name: self.name.clone(),
            v_type: self.v_type,
            origin: self.origin,
            styleuse: self.styleuse,
            attr: self.attr.clone(),
            text_attr: self.text_attr.clone(),
            parts,
            stylemaps,
        };
        proof {
            assert(parts_view(r.parts@) =~= parts_view(self.parts@));
            assert(stylemaps_view(r.stylemaps@) =~= stylemaps_view(self.stylemaps@));
        }
        r
    }
}

impl Default for ValueFormat {
    fn default() -> (r: Self)
        ensures
            r@ == (ValueFormatView {
                name: Seq::<char>::empty(),
                v_type: ValueType::Text,
                origin: StyleOrigin::Content,
                styleuse: StyleUse::Automatic,
                attr: Map::<Seq<char>, Seq<char>>::empty(),
                text_attr: Map::<Seq<char>, Seq<char>>::empty(),
                parts: Seq::<FormatPartView>::empty(),
                stylemaps: Seq::<StyleMapView>::empty(),
            }),
    {
        ValueFormat::new()
    }
}

impl ValueFormat {
    /// New, empty.
    pub fn new() -> (r: Self)
        ensures
            r@ == (ValueFormatView {
                name: Seq::<char>::empty(),
                v_type: ValueType::Text,
                origin: StyleOrigin::Content,
                styleuse: StyleUse::Automatic,
                attr: Map::<Seq<char>, Seq<char>>::empty(),
                text_attr: Map::<Seq<char>, Seq<char>>::empty(),
                parts: Seq::<FormatPartView>::empty(),
                stylemaps: Seq::<StyleMapView>::empty(),
            }),
    {
        ValueFormat::new_origin(StyleOrigin::default(), StyleUse::default())
    }

    /// New, with origin.
    pub fn new_origin(origin: StyleOrigin, styleuse: StyleUse) -> (r: Self)
        ensures
            r@ == (ValueFormatView {
                name: Seq::<char>::empty(),
                v_type: ValueType::Text,
                origin,
                styleuse,
                attr: Map::<Seq<char>, Seq<char>>::empty(),
                text_attr: Map::<Seq<char>, Seq<char>>::empty(),
                parts: Seq::<FormatPartView>::empty(),
                stylemaps: Seq::<StyleMapView>::empty(),
            }),
    {
        let r = ValueFormat {
            name: String::new(),
            v_type: ValueType::Text,
            origin,
            styleuse,
            attr: AttrMap2::new(),
            text_attr: TextAttr::new(),
            parts: Vec::new(),
            stylemaps: Vec::new(),
        };
        proof {
            assert(parts_view(r.parts@) =~= Seq::<FormatPartView>::empty());
            assert(stylemaps_view(r.stylemaps@) =~= Seq::<StyleMapView>::empty());
        }
        r
    }

    /// New, with name.
    pub fn with_name(name: &str, value_type: ValueType) -> (r: Self)
        ensures
            r@ == (ValueFormatView {
                name: name@,
                v_type: value_type,
                origin: StyleOrigin::Content,
                styleuse: StyleUse::Automatic,
                attr: Map::<Seq<char>, Seq<char>>::empty(),
                text_attr: Map::<Seq<char>, Seq<char>>::empty(),
                parts: Seq::<FormatPartView>::empty(),
                stylemaps: Seq::<StyleMapView>::empty(),
            }),
    {
        let mut r = ValueFormat::new();
        r.set_name(name);
        r.set_value_type(value_type);
        r
    }

    /// Sets the name.
    pub fn set_name(&mut self, name: &str)
        ensures
            final(self)@ == (ValueFormatView { name: name@, ..old(self)@ }),
    {
        self.name = name.to_owned();
    }

    /// Returns the name.
    pub fn name(&self) -> (r: &String)
        ensures
            r@ == self@.name,
    {
        &self.name
    }

    /// Sets the value type.
    pub fn set_value_type(&mut self, value_type: ValueType)
        ensures
            final(self)@ == (ValueFormatView { v_type: value_type, ..old(self)@ }),
    {
        self.v_type = value_type;
    }

    /// Returns the value type.
    pub fn value_type(&self) -> (r: ValueType)
        ensures
            r == self@.v_type,
    {
        self.v_type
    }

    /// Sets the origin.
    pub fn set_origin(&mut self, origin: StyleOrigin)
        ensures
            final(self)@ == (ValueFormatView { origin, ..old(self)@ }),
    {
        self.origin = origin;
    }

    /// Returns the origin.
    pub fn origin(&self) -> (r: StyleOrigin)
        ensures
            r == self@.origin,
    {
        self.origin
    }

    /// Style usage.
    pub fn set_styleuse(&mut self, styleuse: StyleUse)
        ensures
            final(self)@ == (ValueFormatView { styleuse, ..old(self)@ }),
    {
        self.styleuse = styleuse;
    }

    /// Returns the usage.
    pub fn styleuse(&self) -> (r: StyleUse)
        ensures
            r == self@.styleuse,
    {
        self.styleuse
    }

    /// Sets a property of the format itself.
    pub fn set_attr(&mut self, name: &str, value: String)
        ensures
            final(self)@ == (ValueFormatView {
                attr: old(self)@.attr.insert(name@, value@),
                ..old(self)@
            }),
    {
        self.attr.set_attr(name, value);
    }

    /// Returns a property of the format itself, if set.
    pub fn attr(&self, name: &str) -> (r: Option<&String>)
        ensures
            match r {
                Some(v) => self@.attr.contains_key(name@) && v@ == self@.attr[name@],
                None => !self@.attr.contains_key(name@),
            },
    {
        self.attr.attr(name)
    }

    /// Text style attributes.
    pub fn text(&self) -> (r: &TextAttr)
        ensures
            r@ == self@.text_attr,
    {
        &self.text_attr
    }

    /// Text style attributes.
    pub fn text_mut(&mut self) -> (r: &mut TextAttr)
        ensures
            (*r)@ == old(self)@.text_attr,
            final(self)@ == (ValueFormatView { text_attr: (*final(r))@, ..old(self)@ }),
    {
        &mut self.text_attr
    }

    /// Adds a format part.
    pub fn push_part(&mut self, part: FormatPart)
        ensures
            final(self)@ == (ValueFormatView {
                parts: old(self)@.parts.push(part@),
                ..old(self)@
            }),
    {
        self.parts.push(part);
        proof {
            assert(parts_view(self.parts@) =~= parts_view(old(self).parts@).push(
                self.parts@.last()@,
            ));
        }
    }

    /// Adds all format parts.
    pub fn push_parts(&mut self, partvec: Vec<FormatPart>)
        ensures
            final(self)@ == (ValueFormatView {
                parts: old(self)@.parts + parts_view(partvec@),
                ..old(self)@
            }),
    {
        let ghost given = partvec@;
        let mut partvec = partvec;
        self.parts.append(&mut partvec);
        proof {
            assert(parts_view(self.parts@) =~= parts_view(old(self).parts@) + parts_view(given));
        }
    }

    /// Returns the parts, or nothing while there are none.
    pub fn parts(&self) -> (r: Option<&Vec<FormatPart>>)
        ensures
            match r {
                Some(v) => self@.parts.len() > 0 && parts_view(v@) == self@.parts,
                None => self@.parts.len() == 0,
            },
    {
        if self.parts.is_empty() {
            None
        } else {
            Some(&self.parts)
        }
    }

    /// Returns the mutable parts.
    pub fn parts_mut(&mut self) -> (r: &mut Vec<FormatPart>)
        ensures
            parts_view((*r)@) == old(self)@.parts,
            final(self)@ == (ValueFormatView { parts: parts_view((*final(r))@), ..old(self)@ }),
    {
        &mut self.parts
    }

    /// Adds a stylemap.
    pub fn push_stylemap(&mut self, stylemap: StyleMap)
        ensures
            final(self)@ == (ValueFormatView {
                stylemaps: old(self)@.stylemaps.push(stylemap@),
                ..old(self)@
            }),
    {
        self.stylemaps.push(stylemap);
        proof {
            assert(stylemaps_view(self.stylemaps@) =~= stylemaps_view(old(self).stylemaps@).push(
                self.stylemaps@.last()@,
            ));
        }
    }

    /// Returns the stylemaps, or nothing while there are none.
    pub fn stylemaps(&self) -> (r: Option<&Vec<StyleMap>>)
        ensures
            match r {
                Some(v) => self@.stylemaps.len() > 0 && stylemaps_view(v@) == self@.stylemaps,
                None => self@.stylemaps.len() == 0,
            },
    {
        if self.stylemaps.is_empty() {
            None
        } else {
            Some(&self.stylemaps)
        }
    }

    /// Returns the mutable stylemaps.
    pub fn stylemaps_mut(&mut self) -> (r: &mut Vec<StyleMap>)
        ensures
            stylemaps_view((*r)@) == old(self)@.stylemaps,
            final(self)@ == (ValueFormatView {
                stylemaps: stylemaps_view((*final(r))@),
                ..old(self)@
            }),
    {
        &mut self.stylemaps
    }
}

/// The literal content of a part, or the empty sequence when unset.
pub open spec fn opt_content(c: Option<Seq<char>>) -> Seq<char> {
    match c {
        Some(s) => s,
        None => Seq::<char>::empty(),
    }
}

/// The fixed tokens a boolean renders to.
pub open spec fn bool_str(b: bool) -> Seq<char> {
    if b {
        "true"@
    } else {
        "false"@
    }
}

/// True when the part's `number:style` attribute is `long`.
pub open spec fn is_long(p: FormatPartView) -> bool {
    spec_attr_def(p.attr, "number:style"@, ""@) == "long"@
}

/// True when the part's `number:textual` attribute is `true`.
pub open spec fn is_textual(p: FormatPartView) -> bool {
    spec_attr_def(p.attr, "number:textual"@, ""@) == "true"@
}

/// A number zero-padded to two digits when the part's style is long,
/// unpadded otherwise.
pub open spec fn style_pad2(p: FormatPartView, n: nat) -> Seq<char> {
    if is_long(p) {
        pad2_str(n)
    } else {
        dec_str(n)
    }
}

/// What one part contributes to a boolean render.
pub open spec fn part_boolean_rendered(p: FormatPartView, b: bool) -> Seq<char> {
    match p.part_type {
        FormatPartType::Boolean => bool_str(b),
        FormatPartType::Text => opt_content(p.content),
        _ => Seq::<char>::empty(),
    }
}

/// A boolean render: the concatenation of every part's contribution, in order.
pub open spec fn boolean_rendered(parts: Seq<FormatPartView>, b: bool) -> Seq<char>
    decreases parts.len(),
{
    if parts.len() == 0 {
        Seq::<char>::empty()
    } else {
        boolean_rendered(parts.drop_last(), b) + part_boolean_rendered(parts.last(), b)
    }
}

/// What one part contributes to a string render of `s`.
pub open spec fn part_str_rendered(p: FormatPartView, s: Seq<char>) -> Seq<char> {
    match p.part_type {
        FormatPartType::TextContent => s,
        FormatPartType::Text => opt_content(p.content),
        _ => Seq::<char>::empty(),
    }
}

/// A string render: the concatenation of every part's contribution, in order.
pub open spec fn str_rendered(parts: Seq<FormatPartView>, s: Seq<char>) -> Seq<char>
    decreases parts.len(),
{
    if parts.len() == 0 {
        Seq::<char>::empty()
    } else {
        str_rendered(parts.drop_last(), s) + part_str_rendered(parts.last(), s)
    }
}

/// True when some part of the sequence is an AM/PM marker. Its presence
/// anywhere switches every hours part of the same render to the 12-hour clock.
pub open spec fn has_ampm(parts: Seq<FormatPartView>) -> bool {
    exists|i: int| 0 <= i < parts.len() && (#[trigger] parts[i]).part_type == FormatPartType::AmPm
}

/// What one part contributes to a date/time render, given whether the whole
/// format uses the 12-hour clock.
pub open spec fn part_datetime_rendered(p: FormatPartView, d: DateTimeView, h12: bool) -> Seq<
    char,
> {
    match p.part_type {
        FormatPartType::Day => style_pad2(p, d.day as nat),
        FormatPartType::Month => {
            if is_textual(p) {
                if is_long(p) {
                    month_abbr(d.month)
                } else {
                    month_name(d.month)
                }
            } else {
                style_pad2(p, d.month as nat)
            }
        },
        FormatPartType::Year => {
            if is_long(p) {
                pad4_str(d.year as nat)
            } else {
                pad2_str((d.year % 100) as nat)
            }
        },
        FormatPartType::DayOfWeek => {
            if is_long(p) {
                weekday_name(weekday_sun0(d.year, d.month, d.day))
            } else {
                weekday_abbr(weekday_sun0(d.year, d.month, d.day))
            }
        },
        FormatPartType::WeekOfYear => {
            if is_long(p) {
                pad2_str(week_of_year(d.year, d.month, d.day) as nat)
            } else {
                dec_str(week_of_year(d.year, d.month, d.day) as nat)
            }
        },
        FormatPartType::Hours => {
            let h = if h12 {
                hour12(d.hour)
            } else {
                d.hour
            };
            style_pad2(p, h as nat)
        },
        FormatPartType::Minutes => style_pad2(p, d.minute as nat),
        FormatPartType::Seconds => style_pad2(p, d.second as nat),
        FormatPartType::AmPm => ampm_str(d.hour),
        FormatPartType::Text => opt_content(p.content),
        _ => Seq::<char>::empty(),
    }
}

/// The concatenation of the parts' date/time contributions under a fixed
/// clock flag.
pub open spec fn datetime_rendered_h12(
    parts: Seq<FormatPartView>,
    d: DateTimeView,
    h12: bool,
) -> Seq<char>
    decreases parts.len(),
{
    if parts.len() == 0 {
        Seq::<char>::empty()
    } else {
        datetime_rendered_h12(parts.drop_last(), d, h12) + part_datetime_rendered(
            parts.last(),
            d,
            h12,
        )
    }
}

/// A date/time render: one pre-pass over all parts decides the clock, then
/// every part contributes in order.
pub open spec fn datetime_rendered(parts: Seq<FormatPartView>, d: DateTimeView) -> Seq<char> {
    datetime_rendered_h12(parts, d, has_ampm(parts))
}

/// What one part contributes to a duration render of `secs` elapsed seconds.
pub open spec fn part_duration_rendered(p: FormatPartView, secs: int) -> Seq<char> {
    match p.part_type {
        FormatPartType::Hours => signed_dec_str(dur_hours(secs)),
        FormatPartType::Minutes => signed_dec_str(dur_minutes(secs)),
        FormatPartType::Seconds => signed_dec_str(dur_seconds(secs)),
        FormatPartType::Text => opt_content(p.content),
        _ => Seq::<char>::empty(),
    }
}

/// A duration render: the concatenation of every part's contribution, in order.
pub open spec fn duration_rendered(parts: Seq<FormatPartView>, secs: int) -> Seq<char>
    decreases parts.len(),
{
    if parts.len() == 0 {
        Seq::<char>::empty()
    } else {
        duration_rendered(parts.drop_last(), secs) + part_duration_rendered(parts.last(), secs)
    }
}

/// One step of a number render. The conversion from a binary float to decimal
/// text stays outside the verified core, so a float render is computed as a
/// verified plan of steps that a caller applies to its value.
#[derive(Debug, Clone, PartialEq, Eq)]
pub enum FloatStep {
    /// Render the value fixed-point with this many decimal places.
    Fixed(u64),
    /// Render the value in exponential notation.
    Scientific,
    /// Emit this text verbatim.
    Literal(String),
}

/// The mathematical content of a [`FloatStep`].
pub enum FloatStepView {
    Fixed(u64),
    Scientific,
    Literal(Seq<char>),
}

impl View for FloatStep {
    type V = FloatStepView;

    closed spec fn view(&self) -> FloatStepView {
        match self {
            FloatStep::Fixed(n) => FloatStepView::Fixed(*n),
            FloatStep::Scientific => FloatStepView::Scientific,
            FloatStep::Literal(s) => FloatStepView::Literal(s@),
        }
    }
}

/// The views of a sequence of float steps, in order.
pub open spec fn float_steps_view(s: Seq<FloatStep>) -> Seq<FloatStepView> {
    s.map_values(|st: FloatStep| st@)
}

/// The `number:decimal-places` attribute of a part, defaulting to `"0"`.
pub open spec fn decimal_places_attr(p: FormatPartView) -> Seq<char> {
    spec_attr_def(p.attr, "number:decimal-places"@, "0"@)
}

/// What one part contributes to a number render: a step, no step, or the
/// not-a-number error when its decimal-places attribute does not parse as a
/// non-negative integer.
pub open spec fn part_float_step(p: FormatPartView) -> Result<
    Option<FloatStepView>,
    ValueFormatError,
> {
    match p.part_type {
        FormatPartType::Number => {
            match spec_parse_u64(decimal_places_attr(p)) {
                Some(n) => Ok(Some(FloatStepView::Fixed(n))),
                None => Err(ValueFormatError::NaN),
            }
        },
        FormatPartType::Scientific => Ok(Some(FloatStepView::Scientific)),
        FormatPartType::CurrencySymbol => Ok(Some(FloatStepView::Literal(opt_content(p.content)))),
        FormatPartType::Text => Ok(Some(FloatStepView::Literal(opt_content(p.content)))),
        _ => Ok(None),
    }
}

/// A number render plan: every part's step in order, or the first error.
pub open spec fn float_plan(parts: Seq<FormatPartView>) -> Result<
    Seq<FloatStepView>,
    ValueFormatError,
>
    decreases parts.len(),
{
    if parts.len() == 0 {
        Ok(Seq::<FloatStepView>::empty())
    } else {
        match float_plan(parts.drop_last()) {
            Ok(steps) => match part_float_step(parts.last()) {
                Ok(Some(st)) => Ok(steps.push(st)),
                Ok(None) => Ok(steps),
                Err(e) => Err(e),
            },
            Err(e) => Err(e),
        }
    }
}

/// Once a prefix of the parts fails, the whole plan fails the same way.
proof fn lemma_float_plan_err(parts: Seq<FormatPartView>, i: int)
    requires
        0 <= i <= parts.len(),
        float_plan(parts.take(i)) is Err,
    ensures
        float_plan(parts) == float_plan(parts.take(i)),
    decreases parts.len() - i,
{
    if i == parts.len() {
        assert(parts.take(i) =~= parts);
    } else {
        assert(parts.take(i + 1).drop_last() =~= parts.take(i));
        lemma_float_plan_err(parts, i + 1);
    }
}

impl FormatPart {
    /// Tries to format the given boolean, and appends the result to buf.
    /// If this part doesn't match, appends nothing.
    fn format_boolean(&self, buf: &mut String, b: bool)
        ensures
            final(buf)@ == old(buf)@ + part_boolean_rendered(self@, b),
    {
        match self.part_type {
            FormatPartType::Boolean => {
                if b {
                    buf.append("true");
                } else {
                    buf.append("false");
                }
            },
            FormatPartType::Text => {
                match &self.content {
                    Some(content) => {
                        buf.append(content.as_str());
                    },
                    None => {
                        proof {
                            assert(old(buf)@ + part_boolean_rendered(self@, b) =~= old(buf)@);
                        }
                    },
                }
            },
            _ => {
                proof {
                    assert(old(buf)@ + part_boolean_rendered(self@, b) =~= old(buf)@);
                }
            },
        }
    }

    /// Tries to format the given string, and appends the result to buf.
    /// If this part doesn't match, appends nothing.
    fn format_str(&self, buf: &mut String, s: &str)
        ensures
            final(buf)@ == old(buf)@ + part_str_rendered(self@, s@),
    {
        match self.part_type {
            FormatPartType::TextContent => {
                buf.append(s);
            },
            FormatPartType::Text => {
                match &self.content {
                    Some(content) => {
                        buf.append(content.as_str());
                    },
                    None => {
                        proof {
                            assert(old(buf)@ + part_str_rendered(self@, s@) =~= old(buf)@);
                        }
                    },
                }
            },
            _ => {
                proof {
                    assert(old(buf)@ + part_str_rendered(self@, s@) =~= old(buf)@);
                }
            },
        }
    }

    /// The step this part contributes to a number render, if any.
    fn float_step(&self) -> (r: Result<Option<FloatStep>, ValueFormatError>)
        ensures
            match r {
                Ok(Some(st)) => part_float_step(self@) == Ok::<
                    Option<FloatStepView>,
                    ValueFormatError,
                >(Some(st@)),
                Ok(None) => part_float_step(self@) == Ok::<
                    Option<FloatStepView>,
                    ValueFormatError,
                >(None),
                Err(e) => part_float_step(self@) == Err::<Option<FloatStepView>, ValueFormatError>(
                    e,
                ),
            },
    {
        match self.part_type {
            FormatPartType::Number => {
                let dec = self.attr.attr_def("number:decimal-places", "0");
                match parse_u64(dec) {
                    Some(n) => Ok(Some(FloatStep::Fixed(n))),
                    None => Err(ValueFormatError::NaN),
                }
            },
            FormatPartType::Scientific => Ok(Some(FloatStep::Scientific)),
            FormatPartType::CurrencySymbol => Ok(Some(FloatStep::Literal(self.content_or_empty()))),
            FormatPartType::Text => Ok(Some(FloatStep::Literal(self.content_or_empty()))),
            _ => Ok(None),
        }
    }

    /// The literal content, or the empty string when unset.
    fn content_or_empty(&self) -> (r: String)
        ensures
            r@ == opt_content(self@.content),
    {
        match &self.content {
            Some(content) => content.clone(),
            None => String::new(),
        }
    }

    /// Tries to format the given date/time, and appends the result to buf.
    /// `h12` tells whether the whole format uses the 12-hour clock.
    /// If this part doesn't match, appends nothing.
    fn format_datetime(&self, buf: &mut String, d: &DateTimeValue, h12: bool)
        ensures
            final(buf)@ == old(buf)@ + part_datetime_rendered(self@, d@, h12),
    {
        proof {
            use_type_invariant(d);
        }
        match self.part_type {
            FormatPartType::Day => {
                let t = self.style_pad(d.day());
                buf.append(t.as_str());
            },
            FormatPartType::Month => {
                let textual = str_eq(self.attr.attr_def("number:textual", ""), "true");
                if textual {
                    let long = str_eq(self.attr.attr_def("number:style", ""), "long");
                    if long {
                        buf.append(month_abbr_str(d.month()));
                    } else {
                        buf.append(month_name_str(d.month()));
                    }
                } else {
                    let t = self.style_pad(d.month());
                    buf.append(t.as_str());
                }
            },
            FormatPartType::Year => {
                let long = str_eq(self.attr.attr_def("number:style", ""), "long");
                let t = if long {
                    pad4_string(d.year() as u64)
                } else {
                    pad2_string((d.year() % 100) as u64)
                };
                buf.append(t.as_str());
            },
            FormatPartType::DayOfWeek => {
                let long = str_eq(self.attr.attr_def("number:style", ""), "long");
                let wd = d.weekday();
                if long {
                    buf.append(weekday_name_str(wd));
                } else {
                    buf.append(weekday_abbr_str(wd));
                }
            },
            FormatPartType::WeekOfYear => {
                let long = str_eq(self.attr.attr_def("number:style", ""), "long");
                let w = d.week();
                let t = if long {
                    pad2_string(w as u64)
                } else {
                    u64_string(w as u64)
                };
                buf.append(t.as_str());
            },
            FormatPartType::Hours => {
                let h: u32 = if h12 {
                    let hm = d.hour() % 12;
                    if hm == 0 {
                        12
                    } else {
                        hm
                    }
                } else {
                    d.hour()
                };
                let t = self.style_pad(h);
                buf.append(t.as_str());
            },
            FormatPartType::Minutes => {
                let t = self.style_pad(d.minute());
                buf.append(t.as_str());
            },
            FormatPartType::Seconds => {
                let t = self.style_pad(d.second());
                buf.append(t.as_str());
            },
            FormatPartType::AmPm => {
                buf.append(ampm_marker(d.hour()));
            },
            FormatPartType::Text => {
                match &self.content {
                    Some(content) => {
                        buf.append(content.as_str());
                    },
                    None => {
                        proof {
                            assert(old(buf)@ + part_datetime_rendered(self@, d@, h12) =~= old(
                                buf,
                            )@);
                        }
                    },
                }
            },
            _ => {
                proof {
                    assert(old(buf)@ + part_datetime_rendered(self@, d@, h12) =~= old(buf)@);
                }
            },
        }
    }

    /// Renders `n` padded or unpadded, as the part's style asks.
    fn style_pad(&self, n: u32) -> (r: String)
        ensures
            r@ == style_pad2(self@, n as nat),
    {
        let long = str_eq(self.attr.attr_def("number:style", ""), "long");
        if long {
            pad2_string(n as u64)
        } else {
            u64_string(n as u64)
        }
    }

    /// Tries to format the given duration, and appends the result to buf.
    /// If this part doesn't match, appends nothing.
    fn format_time_duration(&self, buf: &mut String, d: &DurationValue)
        ensures
            final(buf)@ == old(buf)@ + part_duration_rendered(self@, d@),
    {
        match self.part_type {
            FormatPartType::Hours => {
                let (neg, mag) = d.sign_magnitude();
                let t = signed_string(neg, mag / 3600);
                buf.append(t.as_str());
            },
            FormatPartType::Minutes => {
                let (neg, mag) = d.sign_magnitude();
                let t = signed_string(neg, (mag / 60) % 60);
                buf.append(t.as_str());
            },
            FormatPartType::Seconds => {
                let (neg, mag) = d.sign_magnitude();
                let t = signed_string(neg, mag % 60);
                buf.append(t.as_str());
            },
            FormatPartType::Text => {
                match &self.content {
                    Some(content) => {
                        buf.append(content.as_str());
                    },
                    None => {
                        proof {
                            assert(old(buf)@ + part_duration_rendered(self@, d@) =~= old(buf)@);
                        }
                    },
                }
            },
            _ => {
                proof {
                    assert(old(buf)@ + part_duration_rendered(self@, d@) =~= old(buf)@);
                }
            },
        }
    }
}

impl ValueFormat {
    /// Renders a boolean: every part contributes in order, as
    /// [`boolean_rendered`] describes; a format with no parts gives the
    /// empty string.
    pub fn format_boolean(&self, b: bool) -> (r: String)
        ensures
            r@ == boolean_rendered(self@.parts, b),
    {
        let ghost ps = self@.parts;
        let mut buf = String::new();
        let mut i: usize = 0;
        while i < self.parts.len()
            invariant
                i <= self.parts@.len(),
                ps == parts_view(self.parts@),
                ps.len() == self.parts@.len(),
                buf@ == boolean_rendered(ps.take(i as int), b),
            decreases self.parts@.len() - i,
        {
            let p = &self.parts[i];
            p.format_boolean(&mut buf, b);
            proof {
                assert(ps.take(i + 1).drop_last() =~= ps.take(i as int));
                assert(ps.take(i + 1).last() == ps[i as int]);
            }
            i = i + 1;
        }
        proof {
            assert(ps.take(self.parts@.len() as int) =~= ps);
        }
        buf
    }

    /// Renders a string: every part contributes in order, as
    /// [`str_rendered`] describes; each text-content part re-emits the whole
    /// input.
    pub fn format_str(&self, s: &str) -> (r: String)
        ensures
            r@ == str_rendered(self@.parts, s@),
    {
        let ghost ps = self@.parts;
        let mut buf = String::new();
        let mut i: usize = 0;
        while i < self.parts.len()
            invariant
                i <= self.parts@.len(),
                ps == parts_view(self.parts@),
                ps.len() == self.parts@.len(),
                buf@ == str_rendered(ps.take(i as int), s@),
            decreases self.parts@.len() - i,
        {
            let p = &self.parts[i];
            p.format_str(&mut buf, s);
            proof {
                assert(ps.take(i + 1).drop_last() =~= ps.take(i as int));
                assert(ps.take(i + 1).last() == ps[i as int]);
            }
            i = i + 1;
        }
        proof {
            assert(ps.take(self.parts@.len() as int) =~= ps);
        }
        buf
    }

    /// Renders a date/time: one pre-pass over all parts decides between the
    /// 12-hour and the 24-hour clock, then every part contributes in order,
    /// as [`datetime_rendered`] describes.
    pub fn format_datetime(&self, d: &DateTimeValue) -> (r: String)
        ensures
            r@ == datetime_rendered(self@.parts, d@),
    {
        let ghost ps = self@.parts;
        let mut h12 = false;
        let mut i: usize = 0;
        while i < self.parts.len()
            invariant
                i <= self.parts@.len(),
                ps == parts_view(self.parts@),
                ps.len() == self.parts@.len(),
                h12 == has_ampm(ps.take(i as int)),
            decreases self.parts@.len() - i,
        {
            let p = &self.parts[i];
            if p.part_type() == FormatPartType::AmPm {
                h12 = true;
            }
            proof {
                let s0 = ps.take(i as int);
                let s1 = ps.take(i + 1);
                assert(forall|j: int| 0 <= j < s0.len() ==> s1[j] == s0[j]);
                if ps[i as int].part_type == FormatPartType::AmPm {
                    assert(s1[i as int].part_type == FormatPartType::AmPm);
                    assert(has_ampm(s1));
                } else {
                    if has_ampm(s1) {
                        let j = choose|j: int|
                            0 <= j < s1.len() && (#[trigger] s1[j]).part_type
                                == FormatPartType::AmPm;
                        assert(j < i);
                        assert(s0[j] == s1[j]);
                        assert(has_ampm(s0));
                    }
                    if has_ampm(s0) {
                        let j = choose|j: int|
                            0 <= j < s0.len() && (#[trigger] s0[j]).part_type
                                == FormatPartType::AmPm;
                        assert(s1[j] == s0[j]);
                        assert(has_ampm(s1));
                    }
                }
            }
            i = i + 1;
        }
        proof {
            assert(ps.take(self.parts@.len() as int) =~= ps);
        }
        let mut buf = String::new();
        let mut k: usize = 0;
        while k < self.parts.len()
            invariant
                k <= self.parts@.len(),
                ps == parts_view(self.parts@),
                ps.len() == self.parts@.len(),
                h12 == has_ampm(ps),
                buf@ == datetime_rendered_h12(ps.take(k as int), d@, h12),
            decreases self.parts@.len() - k,
        {
            let p = &self.parts[k];
            p.format_datetime(&mut buf, d, h12);
            proof {
                assert(ps.take(k + 1).drop_last() =~= ps.take(k as int));
                assert(ps.take(k + 1).last() == ps[k as int]);
            }
            k = k + 1;
        }
        proof {
            assert(ps.take(self.parts@.len() as int) =~= ps);
        }
        buf
    }

    /// Renders a duration: every part contributes in order, as
    /// [`duration_rendered`] describes.
    pub fn format_time_duration(&self, d: &DurationValue) -> (r: String)
        ensures
            r@ == duration_rendered(self@.parts, d@),
    {
        let ghost ps = self@.parts;
        let mut buf = String::new();
        let mut i: usize = 0;
        while i < self.parts.len()
            invariant
                i <= self.parts@.len(),
                ps == parts_view(self.parts@),
                ps.len() == self.parts@.len(),
                buf@ == duration_rendered(ps.take(i as int), d@),
            decreases self.parts@.len() - i,
        {
            let p = &self.parts[i];
            p.format_time_duration(&mut buf, d);
            proof {
                assert(ps.take(i + 1).drop_last() =~= ps.take(i as int));
                assert(ps.take(i + 1).last() == ps[i as int]);
            }
            i = i + 1;
        }
        proof {
            assert(ps.take(self.parts@.len() as int) =~= ps);
        }
        buf
    }

    /// Computes the plan of a number render, as [`float_plan`] describes: one
    /// step per contributing part, in order, or the not-a-number error when a
    /// number part's decimal-places attribute does not parse. The caller
    /// applies the steps to its value.
    pub fn format_float_plan(&self) -> (r: Result<Vec<FloatStep>, ValueFormatError>)
        ensures
            match r {
                Ok(steps) => float_plan(self@.parts) == Ok::<
                    Seq<FloatStepView>,
                    ValueFormatError,
                >(float_steps_view(steps@)),
                Err(e) => float_plan(self@.parts) == Err::<Seq<FloatStepView>, ValueFormatError>(
                    e,
                ),
            },
    {
        let ghost ps = self@.parts;
        let mut steps: Vec<FloatStep> = Vec::new();
        let mut i: usize = 0;
        proof {
            assert(float_steps_view(steps@) =~= Seq::<FloatStepView>::empty());
        }
        while i < self.parts.len()
            invariant
                i <= self.parts@.len(),
                ps == parts_view(self.parts@),
                ps.len() == self.parts@.len(),
                float_plan(ps.take(i as int)) == Ok::<Seq<FloatStepView>, ValueFormatError>(
                    float_steps_view(steps@),
                ),
            decreases self.parts@.len() - i,
        {
            let p = &self.parts[i];
            let ghost prev = float_steps_view(steps@);
            proof {
                assert(ps.take(i + 1).drop_last() =~= ps.take(i as int));
                assert(ps.take(i + 1).last() == ps[i as int]);
            }
            match p.float_step() {
                Ok(Some(st)) => {
                    steps.push(st);
                    proof {
                        assert(float_steps_view(steps@) =~= prev.push(steps@.last()@));
                    }
                },
                Ok(None) => {},
                Err(e) => {
                    proof {
                        assert(float_plan(ps.take(i + 1)) is Err);
                        lemma_float_plan_err(ps, i + 1);
                    }
                    return Err(e);
                },
            }
            i = i + 1;
        }
        proof {
            assert(ps.take(self.parts@.len() as int) =~= ps);
        }
        Ok(steps)
    }
}

/// Creates a new boolean format.
pub fn create_boolean_format(name: &str) -> (r: ValueFormat)
    ensures
        r@.name == name@,
        r@.v_type == ValueType::Boolean,
        r@.parts.len() == 1,
        r@.parts[0] == (FormatPartView {
            part_type: FormatPartType::Boolean,
            attr: Map::<Seq<char>, Seq<char>>::empty(),
            content: None,
        }),
        r@.stylemaps.len() == 0,
{
    let mut v = ValueFormat::with_name(name, ValueType::Boolean);
    v.push_part(FormatPart::new(FormatPartType::Boolean));
    v
}

/// The attributes of a number part: one minimum integer digit, the given
/// number of decimal places and minimum decimal places, and optional grouping.
pub open spec fn number_part_attrs(decimal: nat, min_decimal: nat, grouping: bool) -> Map<
    Seq<char>,
    Seq<char>,
> {
    let base = Map::<Seq<char>, Seq<char>>::empty().insert(
        "number:min-integer-digits"@,
        dec_str(1),
    ).insert("number:decimal-places"@, dec_str(decimal)).insert(
        "loext:min-decimal-places"@,
        dec_str(min_decimal),
    );
    if grouping {
        base.insert("number:grouping"@, "true"@)
    } else {
        base
    }
}

/// A number part carrying [`number_part_attrs`].
fn number_part(decimal: u8, min_decimal: u8, grouping: bool) -> (r: FormatPart)
    ensures
        r@ == (FormatPartView {
            part_type: FormatPartType::Number,
            attr: number_part_attrs(decimal as nat, min_decimal as nat, grouping),
            content: None,
        }),
{
    let mut p = FormatPart::new(FormatPartType::Number);
    p.set_attr("number:min-integer-digits", u64_string(1));
    p.set_attr("number:decimal-places", u64_string(decimal as u64));
    p.set_attr("loext:min-decimal-places", u64_string(min_decimal as u64));
    if grouping {
        p.set_attr("number:grouping", "true".to_owned());
    }
    p
}

/// Creates a new number format.
pub fn create_number_format(name: &str, decimal: u8, grouping: bool) -> (r: ValueFormat)
    ensures
        r@.name == name@,
        r@.v_type == ValueType::Number,
        r@.parts.len() == 1,
        r@.parts[0] == (FormatPartView {
            part_type: FormatPartType::Number,
            attr: number_part_attrs(decimal as nat, 0, grouping),
            content: None,
        }),
        r@.stylemaps.len() == 0,
{
    let mut v = ValueFormat::with_name(name, ValueType::Number);
    v.push_part(number_part(decimal, 0, grouping));
    v
}

/// Creates a new number format with a fixed number of decimal places.
pub fn create_number_format_fixed(name: &str, decimal: u8, grouping: bool) -> (r: ValueFormat)
    ensures
        r@.name == name@,
        r@.v_type == ValueType::Number,
        r@.parts.len() == 1,
        r@.parts[0] == (FormatPartView {
            part_type: FormatPartType::Number,
            attr: number_part_attrs(decimal as nat, decimal as nat, grouping),
            content: None,
        }),
        r@.stylemaps.len() == 0,
{
    let mut v = ValueFormat::with_name(name, ValueType::Number);
    v.push_part(number_part(decimal, decimal, grouping));
    v
}

/// Creates a new percentage format.
pub fn create_percentage_format(name: &str, decimal: u8) -> (r: ValueFormat)
    ensures
        r@.name == name@,
        r@.v_type == ValueType::Percentage,
        r@.parts.len() == 2,
        r@.parts[0] == (FormatPartView {
            part_type: FormatPartType::Number,
            attr: number_part_attrs(decimal as nat, decimal as nat, false),
            content: None,
        }),
        r@.parts[1] == (FormatPartView {
            part_type: FormatPartType::Text,
            attr: Map::<Seq<char>, Seq<char>>::empty(),
            content: Some("&#160;%"@),
        }),
        r@.stylemaps.len() == 0,
{
    let mut v = ValueFormat::with_name(name, ValueType::Percentage);
    v.push_part(number_part(decimal, decimal, false));
    v.push_part(FormatPart::new_content(FormatPartType::Text, "&#160;%"));
    v
}

/// Creates a new currency format with the symbol in front.
pub fn create_currency_prefix(name: &str, symbol: &str) -> (r: ValueFormat)
    ensures
        r@.name == name@,
        r@.v_type == ValueType::Currency,
        r@.parts.len() == 3,
        r@.parts[0] == (FormatPartView {
            part_type: FormatPartType::CurrencySymbol,
            attr: Map::<Seq<char>, Seq<char>>::empty(),
            content: Some(symbol@),
        }),
        r@.parts[1] == (FormatPartView {
            part_type: FormatPartType::Text,
            attr: Map::<Seq<char>, Seq<char>>::empty(),
            content: Some(" "@),
        }),
        r@.parts[2] == (FormatPartView {
            part_type: FormatPartType::Number,
            attr: number_part_attrs(2, 2, true),
            content: None,
        }),
        r@.stylemaps.len() == 0,
{
    let mut v = ValueFormat::with_name(name, ValueType::Currency);
    v.push_part(FormatPart::new_content(FormatPartType::CurrencySymbol, symbol));
    v.push_part(FormatPart::new_content(FormatPartType::Text, " "));
    v.push_part(number_part(2, 2, true));
    v
}

/// Creates a new currency format with the symbol behind.
pub fn create_currency_suffix(name: &str, symbol: &str) -> (r: ValueFormat)
    ensures
        r@.name == name@,
        r@.v_type == ValueType::Currency,
        r@.parts.len() == 3,
        r@.parts[0] == (FormatPartView {
            part_type: FormatPartType::Number,
            attr: number_part_attrs(2, 2, true),
            content: None,
        }),
        r@.parts[1] == (FormatPartView {
            part_type: FormatPartType::Text,
            attr: Map::<Seq<char>, Seq<char>>::empty(),
            content: Some(" "@),
        }),
        r@.parts[2] == (FormatPartView {
            part_type: FormatPartType::CurrencySymbol,
            attr: Map::<Seq<char>, Seq<char>>::empty(),
            content: Some(symbol@),
        }),
        r@.stylemaps.len() == 0,
{
    let mut v = ValueFormat::with_name(name, ValueType::Currency);
    v.push_part(number_part(2, 2, true));
    v.push_part(FormatPart::new_content(FormatPartType::Text, " "));
    v.push_part(FormatPart::new_content(FormatPartType::CurrencySymbol, symbol));
    v
}

/// Creates a new currency format for euro amounts.
pub fn create_euro_format(name: &str) -> (r: ValueFormat)
    ensures
        r@.name == name@,
        r@.v_type == ValueType::Currency,
        r@.parts.len() == 3,
        r@.parts[0] == (FormatPartView {
            part_type: FormatPartType::CurrencySymbol,
            attr: Map::<Seq<char>, Seq<char>>::empty(),
            content: Some("€"@),
        }),
        r@.parts[1] == (FormatPartView {
            part_type: FormatPartType::Text,
            attr: Map::<Seq<char>, Seq<char>>::empty(),
            content: Some(" "@),
        }),
        r@.parts[2] == (FormatPartView {
            part_type: FormatPartType::Number,
            attr: number_part_attrs(2, 2, true),
            content: None,
        }),
        r@.stylemaps.len() == 0,
{
    create_currency_prefix(name, "€")
}

/// Creates a new currency format for euro amounts with negative values shown
/// in red. Needs the name of the positive format.
pub fn create_euro_red_format(name: &str, positive_style: &str) -> (r: ValueFormat)
    ensures
        r@.name == name@,
        r@.v_type == ValueType::Currency,
        r@.text_attr == Map::<Seq<char>, Seq<char>>::empty().insert(
            "fo:color"@,
            crate::style::rgb_str(Rgb { r: 255, g: 0, b: 0 }),
        ),
        r@.parts.len() == 4,
        r@.parts[0] == (FormatPartView {
            part_type: FormatPartType::Text,
            attr: Map::<Seq<char>, Seq<char>>::empty(),
            content: Some("-"@),
        }),
        r@.parts[1] == (FormatPartView {
            part_type: FormatPartType::CurrencySymbol,
            attr: Map::<Seq<char>, Seq<char>>::empty(),
            content: Some("€"@),
        }),
        r@.parts[2] == (FormatPartView {
            part_type: FormatPartType::Text,
            attr: Map::<Seq<char>, Seq<char>>::empty(),
            content: Some(" "@),
        }),
        r@.parts[3] == (FormatPartView {
            part_type: FormatPartType::Number,
            attr: number_part_attrs(2, 2, true),
            content: None,
        }),
        r@.stylemaps.len() == 1,
        r@.stylemaps[0] == (StyleMapView {
            condition: "value()>=0"@,
            applied_style: positive_style@,
            base_cell: CellRef { row: 0, col: 0 },
        }),
{
    let mut v = ValueFormat::with_name(name, ValueType::Currency);
    v.text_mut().set_color(Rgb::new(255, 0, 0));
    v.push_part(FormatPart::new_content(FormatPartType::Text, "-"));
    v.push_part(FormatPart::new_content(FormatPartType::CurrencySymbol, "€"));
    v.push_part(FormatPart::new_content(FormatPartType::Text, " "));
    v.push_part(number_part(2, 2, true));
    v.push_stylemap(StyleMap::new("value()>=0", positive_style, CellRef::simple(0, 0)));
    v
}

/// A date part with `number:style` set to `long`.
fn long_part(ftype: FormatPartType) -> (r: FormatPart)
    ensures
        r@ == (FormatPartView {
            part_type: ftype,
            attr: Map::<Seq<char>, Seq<char>>::empty().insert("number:style"@, "long"@),
            content: None,
        }),
{
    let mut p = FormatPart::new(ftype);
    p.set_attr("number:style", "long".to_owned());
    p
}

/// Creates a new date format with zero-padded day, month and year, separated
/// by dots.
pub fn create_date_dmy_format(name: &str) -> (r: ValueFormat)
    ensures
        r@.name == name@,
        r@.v_type == ValueType::DateTime,
        r@.parts.len() == 5,
        r@.parts[0] == (FormatPartView {
            part_type: FormatPartType::Day,
            attr: Map::<Seq<char>, Seq<char>>::empty().insert("number:style"@, "long"@),
            content: None,
        }),
        r@.parts[1] == (FormatPartView {
            part_type: FormatPartType::Text,
            attr: Map::<Seq<char>, Seq<char>>::empty(),
            content: Some("."@),
        }),
        r@.parts[2] == (FormatPartView {
            part_type: FormatPartType::Month,
            attr: Map::<Seq<char>, Seq<char>>::empty().insert("number:style"@, "long"@),
            content: None,
        }),
        r@.parts[3] == (FormatPartView {
            part_type: FormatPartType::Text,
            attr: Map::<Seq<char>, Seq<char>>::empty(),
            content: Some("."@),
        }),
        r@.parts[4] == (FormatPartView {
            part_type: FormatPartType::Year,
            attr: Map::<Seq<char>, Seq<char>>::empty().insert("number:style"@, "long"@),
            content: None,
        }),
        r@.stylemaps.len() == 0,
{
    let mut v = ValueFormat::with_name(name, ValueType::DateTime);
    v.push_part(long_part(FormatPartType::Day));
    v.push_part(FormatPart::new_content(FormatPartType::Text, "."));
    v.push_part(long_part(FormatPartType::Month));
    v.push_part(FormatPart::new_content(FormatPartType::Text, "."));
    v.push_part(long_part(FormatPartType::Year));
    v
}

/// Creates a date/time format: zero-padded date separated by dashes, then the
/// unpadded time separated by colons.
pub fn create_datetime_format(name: &str) -> (r: ValueFormat)
    ensures
        r@.name == name@,
        r@.v_type == ValueType::DateTime,
        r@.parts.len() == 11,
        r@.parts[0] == (FormatPartView {
            part_type: FormatPartType::Year,
            attr: Map::<Seq<char>, Seq<char>>::empty().insert("number:style"@, "long"@),
            content: None,
        }),
        r@.parts[1] == (FormatPartView {
            part_type: FormatPartType::Text,
            attr: Map::<Seq<char>, Seq<char>>::empty(),
            content: Some("-"@),
        }),
        r@.parts[2] == (FormatPartView {
            part_type: FormatPartType::Month,
            attr: Map::<Seq<char>, Seq<char>>::empty().insert("number:style"@, "long"@),
            content: None,
        }),
        r@.parts[3] == (FormatPartView {
            part_type: FormatPartType::Text,
            attr: Map::<Seq<char>, Seq<char>>::empty(),
            content: Some("-"@),
        }),
        r@.parts[4] == (FormatPartView {
            part_type: FormatPartType::Day,
            attr: Map::<Seq<char>, Seq<char>>::empty().insert("number:style"@, "long"@),
            content: None,
        }),
        r@.parts[5] == (FormatPartView {
            part_type: FormatPartType::Text,
            attr: Map::<Seq<char>, Seq<char>>::empty(),
            content: Some(" "@),
        }),
        r@.parts[6] == (FormatPartView {
            part_type: FormatPartType::Hours,
            attr: Map::<Seq<char>, Seq<char>>::empty(),
            content: None,
        }),
        r@.parts[7] == (FormatPartView {
            part_type: FormatPartType::Text,
            attr: Map::<Seq<char>, Seq<char>>::empty(),
            content: Some(":"@),
        }),
        r@.parts[8] == (FormatPartView {
            part_type: FormatPartType::Minutes,
            attr: Map::<Seq<char>, Seq<char>>::empty(),
            content: None,
        }),
        r@.parts[9] == (FormatPartView {
            part_type: FormatPartType::Text,
            attr: Map::<Seq<char>, Seq<char>>::empty(),
            content: Some(":"@),
        }),
        r@.parts[10] == (FormatPartView {
            part_type: FormatPartType::Seconds,
            attr: Map::<Seq<char>, Seq<char>>::empty(),
            content: None,
        }),
        r@.stylemaps.len() == 0,
{
    let mut v = ValueFormat::with_name(name, ValueType::DateTime);
    v.push_part(long_part(FormatPartType::Year));
    v.push_part(FormatPart::new_content(FormatPartType::Text, "-"));
    v.push_part(long_part(FormatPartType::Month));
    v.push_part(FormatPart::new_content(FormatPartType::Text, "-"));
    v.push_part(long_part(FormatPartType::Day));
    v.push_part(FormatPart::new_content(FormatPartType::Text, " "));
    v.push_part(FormatPart::new(FormatPartType::Hours));
    v.push_part(FormatPart::new_content(FormatPartType::Text, ":"));
    v.push_part(FormatPart::new(FormatPartType::Minutes));
    v.push_part(FormatPart::new_content(FormatPartType::Text, ":"));
    v.push_part(FormatPart::new(FormatPartType::Seconds));
    v
}

/// Creates a new duration format: hours, minutes and seconds separated by
/// blanks.
pub fn create_time_format(name: &str) -> (r: ValueFormat)
    ensures
        r@.name == name@,
        r@.v_type == ValueType::TimeDuration,
        r@.parts.len() == 5,
        r@.parts[0] == (FormatPartView {
            part_type: FormatPartType::Hours,
            attr: Map::<Seq<char>, Seq<char>>::empty(),
            content: None,
        }),
        r@.parts[1] == (FormatPartView {
            part_type: FormatPartType::Text,
            attr: Map::<Seq<char>, Seq<char>>::empty(),
            content: Some(" "@),
        }),
        r@.parts[2] == (FormatPartView {
            part_type: FormatPartType::Minutes,
            attr: Map::<Seq<char>, Seq<char>>::empty(),
            content: None,
        }),
        r@.parts[3] == (FormatPartView {
            part_type: FormatPartType::Text,
            attr: Map::<Seq<char>, Seq<char>>::empty(),
            content: Some(" "@),
        }),
        r@.parts[4] == (FormatPartView {
            part_type: FormatPartType::Seconds,
            attr: Map::<Seq<char>, Seq<char>>::empty(),
            content: None,
        }),
        r@.stylemaps.len() == 0,
{
    let mut v = ValueFormat::with_name(name, ValueType::TimeDuration);
    v.push_part(FormatPart::new(FormatPartType::Hours));
    v.push_part(FormatPart::new_content(FormatPartType::Text, " "));
    v.push_part(FormatPart::new(FormatPartType::Minutes));
    v.push_part(FormatPart::new_content(FormatPartType::Text, " "));
    v.push_part(FormatPart::new(FormatPartType::Seconds));
    v
}

/// With no parts, every render gives the empty string, whatever the value:
/// a boolean, string, date/time or duration render of an empty part sequence
/// is empty, and the number render plan is the empty plan.
pub proof fn lemma_empty_format_renders_empty(b: bool, s: Seq<char>, d: DateTimeView, secs: int)
    ensures
        boolean_rendered(Seq::<FormatPartView>::empty(), b) == Seq::<char>::empty(),
        str_rendered(Seq::<FormatPartView>::empty(), s) == Seq::<char>::empty(),
        datetime_rendered(Seq::<FormatPartView>::empty(), d) == Seq::<char>::empty(),
        duration_rendered(Seq::<FormatPartView>::empty(), secs) == Seq::<char>::empty(),
        float_plan(Seq::<FormatPartView>::empty()) == Ok::<Seq<FloatStepView>, ValueFormatError>(
            Seq::<FloatStepView>::empty(),
        ),
{
}

/// Rendering is deterministic: each rendered string is a function of the
/// format's parts and the value alone, so two renders of the same format and
/// value are equal. (The render entry points take the format by shared
/// reference and allocate a fresh buffer, so they also leave the format
/// unchanged.)
pub proof fn lemma_render_deterministic(
    parts: Seq<FormatPartView>,
    b: bool,
    s: Seq<char>,
    d: DateTimeView,
    secs: int,
    first: Seq<char>,
    second: Seq<char>,
)
    ensures
        first == boolean_rendered(parts, b) && second == boolean_rendered(parts, b) ==> first
            == second,
        first == str_rendered(parts, s) && second == str_rendered(parts, s) ==> first == second,
        first == datetime_rendered(parts, d) && second == datetime_rendered(parts, d) ==> first
            == second,
        first == duration_rendered(parts, secs) && second == duration_rendered(parts, secs)
            ==> first == second,
        float_plan(parts) == float_plan(parts),
{
}

/// A date/time render concatenates: rendering two part sequences one after
/// the other, under one clock flag, renders each and joins the results.
pub proof fn lemma_datetime_rendered_concat(
    a: Seq<FormatPartView>,
    b: Seq<FormatPartView>,
    d: DateTimeView,
    h12: bool,
)
    ensures
        datetime_rendered_h12(a + b, d, h12) == datetime_rendered_h12(a, d, h12)
            + datetime_rendered_h12(b, d, h12),
    decreases b.len(),
{
    if b.len() == 0 {
        assert(a + b =~= a);
        assert(datetime_rendered_h12(a, d, h12) + datetime_rendered_h12(b, d, h12)
            =~= datetime_rendered_h12(a, d, h12));
    } else {
        assert((a + b).drop_last() =~= a + b.drop_last());
        assert((a + b).last() == b.last());
        lemma_datetime_rendered_concat(a, b.drop_last(), d, h12);
        assert(datetime_rendered_h12(a, d, h12) + (datetime_rendered_h12(b.drop_last(), d, h12)
            + part_datetime_rendered(b.last(), d, h12)) =~= (datetime_rendered_h12(a, d, h12)
            + datetime_rendered_h12(b.drop_last(), d, h12)) + part_datetime_rendered(
            b.last(),
            d,
            h12,
        ));
    }
}

/// One AM/PM part anywhere in the sequence puts every hours part of the same
/// render on the 12-hour clock; without one, every hours part stays on the
/// 24-hour clock. The whole rendered string splits around any hours part
/// accordingly.
pub proof fn lemma_ampm_governs_hours(parts: Seq<FormatPartView>, d: DateTimeView, i: int)
    requires
        0 <= i < parts.len(),
        parts[i].part_type == FormatPartType::Hours,
    ensures
        has_ampm(parts) ==> part_datetime_rendered(parts[i], d, has_ampm(parts)) == style_pad2(
            parts[i],
            hour12(d.hour) as nat,
        ),
        !has_ampm(parts) ==> part_datetime_rendered(parts[i], d, has_ampm(parts)) == style_pad2(
            parts[i],
            d.hour as nat,
        ),
        datetime_rendered(parts, d) == datetime_rendered_h12(parts.take(i), d, has_ampm(parts))
            + part_datetime_rendered(parts[i], d, has_ampm(parts)) + datetime_rendered_h12(
            parts.skip(i + 1),
            d,
            has_ampm(parts),
        ),
{
    let h12 = has_ampm(parts);
    assert(parts =~= parts.take(i + 1) + parts.skip(i + 1));
    lemma_datetime_rendered_concat(parts.take(i + 1), parts.skip(i + 1), d, h12);
    assert(parts.take(i + 1).drop_last() =~= parts.take(i));
    assert(parts.take(i + 1).last() == parts[i]);
}

/// Every text-content part re-emits the whole input string: a format of a
/// text-content part, a literal part and a second text-content part renders
/// the input, the literal, and the input again.
pub proof fn lemma_text_content_repeats(tc: FormatPartView, t: FormatPartView, s: Seq<char>)
    requires
        tc.part_type == FormatPartType::TextContent,
        t.part_type == FormatPartType::Text,
    ensures
        str_rendered(seq![tc, t, tc], s) == s + opt_content(t.content) + s,
{
    let ps = seq![tc, t, tc];
    assert(ps.drop_last() =~= seq![tc, t]);
    assert(seq![tc, t].drop_last() =~= seq![tc]);
    assert(seq![tc].drop_last() =~= Seq::<FormatPartView>::empty());
    assert(ps.last() == tc);
    assert(seq![tc, t].last() == t);
    assert(seq![tc].last() == tc);
    assert(str_rendered(Seq::<FormatPartView>::empty(), s) == Seq::<char>::empty());
    assert(str_rendered(seq![tc], s) == Seq::<char>::empty() + s);
    assert(str_rendered(seq![tc, t], s) == (Seq::<char>::empty() + s) + opt_content(t.content));
    assert(str_rendered(ps, s) == ((Seq::<char>::empty() + s) + opt_content(t.content)) + s);
    assert(((Seq::<char>::empty() + s) + opt_content(t.content)) + s =~= s + opt_content(t.content)
        + s);
}

} // verus!
