use valueformat::calendar::DateTimeValue;
use valueformat::calendar::DurationValue;
use valueformat::format::create_boolean_format;
use valueformat::format::create_currency_prefix;
use valueformat::format::create_currency_suffix;
use valueformat::format::create_date_dmy_format;
use valueformat::format::create_datetime_format;
use valueformat::format::create_euro_format;
use valueformat::format::create_euro_red_format;
use valueformat::format::create_number_format;
use valueformat::format::create_number_format_fixed;
use valueformat::format::create_percentage_format;
use valueformat::format::create_time_format;
use valueformat::format::FloatStep;
use valueformat::format::FormatPartType;
use valueformat::format::ValueFormat;
use valueformat::format::ValueFormatError;
use valueformat::style::ValueType;

fn run_float(vf: &ValueFormat, f: f64) -> Result<String, ValueFormatError> {
    let steps = vf.format_float_plan()?;
    let mut buf = String::new();
    for st in steps {
        match st {
            FloatStep::Fixed(n) => buf.push_str(&format!("{:.*}", n as usize, f)),
            FloatStep::Scientific => buf.push_str(&format!("{:e}", f)),
            FloatStep::Literal(s) => buf.push_str(&s),
        }
    }
    Ok(buf)
}

#[test]
fn boolean_format() {
    let vf = create_boolean_format("bool1");
    assert_eq!(vf.name(), "bool1");
    assert_eq!(vf.value_type(), ValueType::Boolean);
    assert_eq!(vf.format_boolean(true), "true");
}

#[test]
fn number_formats() {
    let vf = create_number_format("num1", 2, false);
    assert_eq!(vf.value_type(), ValueType::Number);
    let parts = vf.parts().unwrap();
    assert_eq!(parts.len(), 1);
    assert_eq!(parts[0].part_type(), FormatPartType::Number);
    assert_eq!(parts[0].attr_def("number:decimal-places", ""), "2");
    assert_eq!(parts[0].attr_def("number:min-integer-digits", ""), "1");
    assert_eq!(parts[0].attr_def("loext:min-decimal-places", ""), "0");
    assert_eq!(parts[0].attr_def("number:grouping", "unset"), "unset");
    assert_eq!(run_float(&vf, 1.005).unwrap(), "1.00");

    let vg = create_number_format_fixed("num2", 3, true);
    let parts = vg.parts().unwrap();
    assert_eq!(parts[0].attr_def("loext:min-decimal-places", ""), "3");
    assert_eq!(parts[0].attr_def("number:grouping", ""), "true");
    assert_eq!(run_float(&vg, 2.5).unwrap(), "2.500");
}

#[test]
fn percentage_format() {
    let vf = create_percentage_format("pct", 1);
    assert_eq!(vf.value_type(), ValueType::Percentage);
    assert_eq!(run_float(&vf, 25.0).unwrap(), "25.0&#160;%");
}

#[test]
fn currency_formats() {
    let pre = create_currency_prefix("cur1", "$");
    assert_eq!(pre.value_type(), ValueType::Currency);
    assert_eq!(run_float(&pre, 1234.567).unwrap(), "$ 1234.57");

    let suf = create_currency_suffix("cur2", "Fr");
    assert_eq!(run_float(&suf, 2.0).unwrap(), "2.00 Fr");
}

#[test]
fn euro_formats() {
    let vf = create_euro_format("eur");
    assert_eq!(run_float(&vf, 2.5).unwrap(), "€ 2.50");

    let red = create_euro_red_format("eur-neg", "eur");
    assert_eq!(red.value_type(), ValueType::Currency);
    assert_eq!(red.text().attr("fo:color").unwrap(), "#ff0000");
    let maps = red.stylemaps().unwrap();
    assert_eq!(maps.len(), 1);
    assert_eq!(maps[0].condition(), "value()>=0");
    assert_eq!(maps[0].applied_style(), "eur");
    assert_eq!(run_float(&red, 2.5).unwrap(), "-€ 2.50");
}

#[test]
fn date_dmy_format() {
    let vf = create_date_dmy_format("dmy");
    assert_eq!(vf.value_type(), ValueType::DateTime);
    let d = DateTimeValue::new(2023, 2, 17, 0, 0, 0).unwrap();
    assert_eq!(vf.format_datetime(&d), "17.02.2023");
}

#[test]
fn datetime_format() {
    let vf = create_datetime_format("dt");
    let d = DateTimeValue::new(2023, 2, 17, 14, 5, 9).unwrap();
    assert_eq!(vf.format_datetime(&d), "2023-02-17 14:5:9");
}

#[test]
fn time_format() {
    let vf = create_time_format("tf");
    assert_eq!(vf.value_type(), ValueType::TimeDuration);
    let d = DurationValue::of_seconds(25 * 3600 + 61);
    assert_eq!(vf.format_time_duration(&d), "25 1 1");
}
