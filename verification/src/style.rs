//! Style metadata carried by a value format: where a style comes from, how it
//! is used, text display attributes (such as a colour), and conditional style
//! redirections. None of this takes part in rendering; it is passed through.

use vstd::prelude::*;

use crate::attrmap2::AttrMap2;
use crate::textfmt::hex2_str;
use crate::textfmt::hex_digit_literal;

verus! {

use vstd::string::StringExecFns;

/// The kind of value a format is intended for. Advisory only: rendering never
/// inspects or enforces it.
#[derive(Clone, Copy, PartialEq, Eq, Structural, Debug)]
pub enum ValueType {
    Boolean,
    Number,
    Percentage,
    Currency,
    Text,
    DateTime,
    TimeDuration,
}

/// Where a style is stored in a document.
#[derive(Clone, Copy, PartialEq, Eq, Structural, Debug)]
pub enum StyleOrigin {
    Content,
    Styles,
}

impl Default for StyleOrigin {
    fn default() -> (r: Self)
        ensures
            r == StyleOrigin::Content,
    {
        StyleOrigin::Content
    }
}

/// How a style is meant to be used.
#[derive(Clone, Copy, PartialEq, Eq, Structural, Debug)]
pub enum StyleUse {
    Automatic,
    Named,
}

impl Default for StyleUse {
    fn default() -> (r: Self)
        ensures
            r == StyleUse::Automatic,
    {
        StyleUse::Automatic
    }
}

/// A colour as red, green and blue components.
#[derive(Clone, Copy, PartialEq, Eq, Structural, Debug)]
pub struct Rgb {
    pub r: u8,
    pub g: u8,
    pub b: u8,
}

impl Rgb {
    /// A new colour from its components.
    pub fn new(r: u8, g: u8, b: u8) -> (c: Self)
        ensures
            c == (Rgb { r, g, b }),
    {
        Rgb { r, g, b }
    }
}

/// The textual form of a colour: `#` followed by six lowercase hex digits.
pub open spec fn rgb_str(c: Rgb) -> Seq<char> {
    seq!['#'] + hex2_str(c.r as nat) + hex2_str(c.g as nat) + hex2_str(c.b as nat)
}

/// Renders a colour as [`rgb_str`] describes.
pub fn rgb_string(c: Rgb) -> (s: String)
    ensures
        s@ == rgb_str(c),
{
    proof {
        reveal_strlit("#");
    }
    let mut s = "#".to_owned();
    s.append(hex_digit_literal(c.r / 16));
    s.append(hex_digit_literal(c.r % 16));
    s.append(hex_digit_literal(c.g / 16));
    s.append(hex_digit_literal(c.g % 16));
    s.append(hex_digit_literal(c.b / 16));
    s.append(hex_digit_literal(c.b % 16));
    proof {
        assert(s@ =~= rgb_str(c));
    }
    s
}

/// Text display attributes of a format (for example its colour), held as a
/// string-keyed attribute store.
#[derive(Debug)]
pub struct TextAttr {
    attr: AttrMap2,
}

impl View for TextAttr {
    type V = Map<Seq<char>, Seq<char>>;

    closed spec fn view(&self) -> Map<Seq<char>, Seq<char>> {
        self.attr@
    }
}

impl Clone for TextAttr {
    fn clone(&self) -> (r: Self)
        ensures
            r@ == self@,
    {
        TextAttr { attr: self.attr.clone() }
    }
}

impl Default for TextAttr {
    fn default() -> (r: Self)
        ensures
            r@ == Map::<Seq<char>, Seq<char>>::empty(),
    {
        TextAttr { attr: AttrMap2::new() }
    }
}

impl TextAttr {
    /// New, with no attributes set.
    pub fn new() -> (r: Self)
        ensures
            r@ == Map::<Seq<char>, Seq<char>>::empty(),
    {
        TextAttr { attr: AttrMap2::new() }
    }

    /// Are there any attributes?
    pub fn is_empty(&self) -> (r: bool)
        ensures
            r <==> self@ == Map::<Seq<char>, Seq<char>>::empty(),
    {
        self.attr.is_empty()
    }

    /// Sets an attribute.
    pub fn set_attr(&mut self, name: &str, value: String)
        ensures
            final(self)@ == old(self)@.insert(name@, value@),
    {
        self.attr.set_attr(name, value);
    }

    /// The value of an attribute, if set.
    pub fn attr(&self, name: &str) -> (r: Option<&String>)
        ensures
            match r {
                Some(v) => self@.contains_key(name@) && v@ == self@[name@],
                None => !self@.contains_key(name@),
            },
    {
        self.attr.attr(name)
    }

    /// Sets the text colour, stored under `fo:color` as `#rrggbb`.
    pub fn set_color(&mut self, color: Rgb)
        ensures
            final(self)@ == old(self)@.insert("fo:color"@, rgb_str(color)),
    {
        self.attr.set_attr("fo:color", rgb_string(color));
    }
}

/// A cell position a conditional style refers to.
#[derive(Clone, Copy, PartialEq, Eq, Structural, Debug)]
pub struct CellRef {
    pub row: u32,
    pub col: u32,
}

impl CellRef {
    /// A reference to the cell at `row` and `col`.
    pub fn simple(row: u32, col: u32) -> (r: Self)
        ensures
            r == (CellRef { row, col }),
    {
        CellRef { row, col }
    }
}

/// The mathematical content of a [`StyleMap`].
pub struct StyleMapView {
    pub condition: Seq<char>,
    pub applied_style: Seq<char>,
    pub base_cell: CellRef,
}

/// A conditional style redirection: while `condition` holds, the style named
/// `applied_style` is used, evaluated relative to `base_cell`.
#[derive(Debug)]
pub struct StyleMap {
    condition: String,
    applied_style: String,
    base_cell: CellRef,
}

impl View for StyleMap {
    type V = StyleMapView;

    closed spec fn view(&self) -> StyleMapView {
        StyleMapView {
            condition: self.condition@,
            applied_style: self.applied_style@,
            base_cell: self.base_cell,
        }
    }
}

impl Clone for StyleMap {
    fn clone(&self) -> (r: Self)
        ensures
            r@ == self@,
    {
        StyleMap {
            condition: self.condition.clone(),
            applied_style: self.applied_style.clone(),
            base_cell: self.base_cell,
        }
    }
}

impl StyleMap {
    /// A new redirection.
    pub fn new(condition: &str, applied_style: &str, base_cell: CellRef) -> (r: Self)
        ensures
            r@ == (StyleMapView { condition: condition@, applied_style: applied_style@, base_cell }),
    {
        StyleMap { condition: condition.to_owned(), applied_style: applied_style.to_owned(), base_cell }
    }

    /// The condition under which the style applies.
    pub fn condition(&self) -> (r: &String)
        ensures
            r@ == self@.condition,
    {
        &self.condition
    }

    /// The name of the style applied while the condition holds.
    pub fn applied_style(&self) -> (r: &String)
        ensures
            r@ == self@.applied_style,
    {
        &self.applied_style
    }

    /// The cell the condition is evaluated against.
    pub fn base_cell(&self) -> (r: CellRef)
        ensures
            r == self@.base_cell,
    {
        self.base_cell
    }
}

} // verus!
