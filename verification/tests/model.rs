use valueformat::calendar::DateTimeValue;
use valueformat::format::FormatPart;
use valueformat::format::FormatPartType;
use valueformat::format::ValueFormat;
use valueformat::style::CellRef;
use valueformat::style::Rgb;
use valueformat::style::StyleMap;
use valueformat::style::StyleOrigin;
use valueformat::style::StyleUse;
use valueformat::style::TextAttr;
use valueformat::style::ValueType;

#[test]
fn format_metadata_round_trip() {
    let mut vf = ValueFormat::new_origin(StyleOrigin::Styles, StyleUse::Named);
    assert_eq!(vf.origin(), StyleOrigin::Styles);
    assert_eq!(vf.styleuse(), StyleUse::Named);

    vf.set_name("nice");
    assert_eq!(vf.name(), "nice");
    vf.set_value_type(ValueType::Currency);
    assert_eq!(vf.value_type(), ValueType::Currency);
    vf.set_origin(StyleOrigin::Content);
    assert_eq!(vf.origin(), StyleOrigin::Content);
    vf.set_styleuse(StyleUse::Automatic);
    assert_eq!(vf.styleuse(), StyleUse::Automatic);

    vf.set_attr("number:language", "de".to_string());
    assert_eq!(vf.attr("number:language").unwrap(), "de");
    assert_eq!(vf.attr("number:country"), None);
}

#[test]
fn format_part_construction() {
    let mut p = FormatPart::new(FormatPartType::Text);
    assert_eq!(p.part_type(), FormatPartType::Text);
    assert_eq!(p.content(), None);

    p.set_content("xyz");
    assert_eq!(p.content().unwrap(), "xyz");

    p.set_part_type(FormatPartType::CurrencySymbol);
    assert_eq!(p.part_type(), FormatPartType::CurrencySymbol);

    let q = FormatPart::new_vec(
        FormatPartType::Number,
        vec![
            ("number:decimal-places", "4".to_string()),
            ("number:grouping", "true".to_string()),
        ],
    );
    assert_eq!(q.attr("number:decimal-places").unwrap(), "4");
    assert_eq!(q.attr_def("number:grouping", ""), "true");
    assert_eq!(q.attr_def("number:style", "none"), "none");
}

#[test]
fn parts_accessors() {
    let mut vf = ValueFormat::new();
    assert!(vf.parts().is_none());

    vf.push_parts(vec![
        FormatPart::new(FormatPartType::Day),
        FormatPart::new_content(FormatPartType::Text, "."),
    ]);
    vf.push_part(FormatPart::new(FormatPartType::Year));
    assert_eq!(vf.parts().unwrap().len(), 3);
    assert_eq!(vf.parts().unwrap()[2].part_type(), FormatPartType::Year);

    vf.parts_mut()[0].set_part_type(FormatPartType::Month);
    assert_eq!(vf.parts().unwrap()[0].part_type(), FormatPartType::Month);

    let d = DateTimeValue::new(2024, 3, 4, 0, 0, 0).unwrap();
    assert_eq!(vf.format_datetime(&d), "3.24");
}

#[test]
fn stylemaps_accessors() {
    let mut vf = ValueFormat::new();
    assert!(vf.stylemaps().is_none());

    vf.push_stylemap(StyleMap::new("value()<0", "red", CellRef::simple(1, 2)));
    let maps = vf.stylemaps().unwrap();
    assert_eq!(maps.len(), 1);
    assert_eq!(maps[0].condition(), "value()<0");
    assert_eq!(maps[0].applied_style(), "red");
    assert_eq!(maps[0].base_cell(), CellRef { row: 1, col: 2 });

    vf.stylemaps_mut().push(StyleMap::new("value()>0", "green", CellRef::simple(0, 0)));
    assert_eq!(vf.stylemaps().unwrap().len(), 2);
}

#[test]
fn text_attr_colors() {
    let mut t = TextAttr::new();
    assert!(t.is_empty());
    t.set_color(Rgb::new(18, 52, 86));
    assert_eq!(t.attr("fo:color").unwrap(), "#123456");

    let mut vf = ValueFormat::new();
    assert!(vf.text().is_empty());
    vf.text_mut().set_color(Rgb::new(255, 0, 0));
    assert_eq!(vf.text().attr("fo:color").unwrap(), "#ff0000");
}

#[test]
fn format_clone_is_independent() {
    let mut vf = ValueFormat::new();
    vf.push_part(FormatPart::new(FormatPartType::Boolean));
    let copy = vf.clone();
    vf.parts_mut()[0].set_part_type(FormatPartType::Text);
    assert_eq!(copy.parts().unwrap()[0].part_type(), FormatPartType::Boolean);
    assert_eq!(copy.format_boolean(true), "true");
}

#[test]
fn datetime_getters() {
    let d = DateTimeValue::new(2024, 2, 29, 13, 14, 15).unwrap();
    assert_eq!(d.year(), 2024);
    assert_eq!(d.month(), 2);
    assert_eq!(d.day(), 29);
    assert_eq!(d.hour(), 13);
    assert_eq!(d.minute(), 14);
    assert_eq!(d.second(), 15);
    // 2024-02-29 was a Thursday.
    assert_eq!(d.weekday(), 4);
    assert_eq!(d.ordinal(), 60);
}
