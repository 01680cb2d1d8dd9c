use valueformat::calendar::DateTimeValue;
use valueformat::calendar::DurationValue;
use valueformat::format::FloatStep;
use valueformat::format::FormatPart;
use valueformat::format::FormatPartType;
use valueformat::format::ValueFormat;
use valueformat::format::ValueFormatError;

/// Applies a number render plan to a float, as a caller of the library would.
fn run_float(vf: &ValueFormat, f: f64) -> Result<String, ValueFormatError> {
    let steps = vf.format_float_plan()?;
    let mut buf = String::new();
    for st in steps {
        match st {
            FloatStep::Fixed(n) => buf.push_str(&format!("{:.*}", n as usize, f)),
            FloatStep::Scientific => buf.push_str(&format!("{:e}", f)),
            FloatStep::Literal(s) => buf.push_str(&s),
        }
    }
    Ok(buf)
}

#[test]
fn empty_format_renders_empty() {
    let vf = ValueFormat::new();
    assert_eq!(vf.format_boolean(true), "");
    assert_eq!(vf.format_boolean(false), "");
    assert_eq!(vf.format_str("anything"), "");
    let d = DateTimeValue::new(2023, 1, 1, 0, 0, 0).unwrap();
    assert_eq!(vf.format_datetime(&d), "");
    assert_eq!(vf.format_time_duration(&DurationValue::of_seconds(12345)), "");
    assert_eq!(run_float(&vf, 2.5).unwrap(), "");
}

#[test]
fn boolean_part_renders_tokens() {
    let mut vf = ValueFormat::new();
    vf.push_part(FormatPart::new(FormatPartType::Boolean));
    assert_eq!(vf.format_boolean(true), "true");
    assert_eq!(vf.format_boolean(false), "false");
}

#[test]
fn text_only_format_renders_literal_for_both_booleans() {
    let mut vf = ValueFormat::new();
    vf.push_part(FormatPart::new_content(FormatPartType::Text, "N/A"));
    assert_eq!(vf.format_boolean(true), "N/A");
    assert_eq!(vf.format_boolean(false), "N/A");
}

#[test]
fn text_content_repeats_input() {
    let mut vf = ValueFormat::new();
    vf.push_part(FormatPart::new(FormatPartType::TextContent));
    vf.push_part(FormatPart::new_content(FormatPartType::Text, "-"));
    vf.push_part(FormatPart::new(FormatPartType::TextContent));
    assert_eq!(vf.format_str("ab"), "ab-ab");
}

#[test]
fn rendering_is_repeatable() {
    let mut vf = ValueFormat::new();
    vf.push_part(FormatPart::new(FormatPartType::Boolean));
    vf.push_part(FormatPart::new_content(FormatPartType::Text, "!"));
    assert_eq!(vf.format_boolean(true), vf.format_boolean(true));
    assert_eq!(vf.format_str("x"), vf.format_str("x"));
}

#[test]
fn number_default_decimal_places() {
    let mut vf = ValueFormat::new();
    vf.push_part(FormatPart::new(FormatPartType::Number));
    assert_eq!(run_float(&vf, 3.14159).unwrap(), "3");
}

#[test]
fn number_explicit_decimal_places() {
    let mut vf = ValueFormat::new();
    let mut p = FormatPart::new(FormatPartType::Number);
    p.set_attr("number:decimal-places", "2".to_string());
    vf.push_part(p);
    assert_eq!(run_float(&vf, 3.14159).unwrap(), "3.14");
}

#[test]
fn number_unparsable_decimal_places_is_an_error() {
    let mut vf = ValueFormat::new();
    let mut p = FormatPart::new(FormatPartType::Number);
    p.set_attr("number:decimal-places", "abc".to_string());
    vf.push_part(p);
    assert!(matches!(run_float(&vf, 3.14159), Err(ValueFormatError::NaN)));
    assert!(matches!(vf.format_float_plan(), Err(ValueFormatError::NaN)));
}

#[test]
fn number_decimal_places_edge_cases() {
    // A leading plus sign parses, as a plain non-negative integer does.
    let mut vf = ValueFormat::new();
    let mut p = FormatPart::new(FormatPartType::Number);
    p.set_attr("number:decimal-places", "+2".to_string());
    vf.push_part(p);
    assert_eq!(run_float(&vf, 3.14159).unwrap(), "3.14");

    // An empty value, a negative value, a padded value and an overflowing
    // value are all unparsable.
    for bad in ["", "-2", " 2", "2 ", "99999999999999999999999"] {
        let mut vf = ValueFormat::new();
        let mut p = FormatPart::new(FormatPartType::Number);
        p.set_attr("number:decimal-places", bad.to_string());
        vf.push_part(p);
        assert!(matches!(run_float(&vf, 1.0), Err(ValueFormatError::NaN)));
    }
}

#[test]
fn scientific_part_renders_exponential() {
    let mut vf = ValueFormat::new();
    vf.push_part(FormatPart::new(FormatPartType::Scientific));
    assert_eq!(run_float(&vf, 1234.5).unwrap(), "1.2345e3");
}

#[test]
fn currency_symbol_and_text_render_literally_for_floats() {
    let mut vf = ValueFormat::new();
    vf.push_part(FormatPart::new_content(FormatPartType::CurrencySymbol, "$"));
    vf.push_part(FormatPart::new_content(FormatPartType::Text, " "));
    let mut p = FormatPart::new(FormatPartType::Number);
    p.set_attr("number:decimal-places", "2".to_string());
    vf.push_part(p);
    assert_eq!(run_float(&vf, 1234.567).unwrap(), "$ 1234.57");
}

#[test]
fn mismatched_parts_contribute_nothing() {
    // A number part means nothing for booleans or strings, a boolean part
    // nothing for floats.
    let mut vf = ValueFormat::new();
    vf.push_part(FormatPart::new(FormatPartType::Number));
    assert_eq!(vf.format_boolean(true), "");
    assert_eq!(vf.format_str("zz"), "");

    let mut vb = ValueFormat::new();
    vb.push_part(FormatPart::new(FormatPartType::Boolean));
    assert_eq!(run_float(&vb, 1.5).unwrap(), "");
}

#[test]
fn error_message_text() {
    assert_eq!(ValueFormatError::NaN.message(), "Digit expected");
    assert_eq!(
        ValueFormatError::Format("broken".to_string()).message(),
        "broken"
    );
}
