use valueformat::calendar::DurationValue;
use valueformat::format::FormatPart;
use valueformat::format::FormatPartType;
use valueformat::format::ValueFormat;

fn hms_format() -> ValueFormat {
    let mut vf = ValueFormat::new();
    vf.push_part(FormatPart::new(FormatPartType::Hours));
    vf.push_part(FormatPart::new_content(FormatPartType::Text, ":"));
    vf.push_part(FormatPart::new(FormatPartType::Minutes));
    vf.push_part(FormatPart::new_content(FormatPartType::Text, ":"));
    vf.push_part(FormatPart::new(FormatPartType::Seconds));
    vf
}

#[test]
fn duration_hours_exceed_a_day() {
    // 26 hours, 3 minutes, 4 seconds.
    let d = DurationValue::of_seconds(26 * 3600 + 3 * 60 + 4);
    assert_eq!(hms_format().format_time_duration(&d), "26:3:4");
}

#[test]
fn duration_components_are_remainders() {
    let d = DurationValue::of_seconds(3600 + 61);
    assert_eq!(hms_format().format_time_duration(&d), "1:1:1");

    let zero = DurationValue::of_seconds(0);
    assert_eq!(hms_format().format_time_duration(&zero), "0:0:0");

    let under_a_minute = DurationValue::of_seconds(59);
    assert_eq!(hms_format().format_time_duration(&under_a_minute), "0:0:59");
}

#[test]
fn negative_durations_truncate_toward_zero() {
    let d = DurationValue::of_seconds(-3661);
    assert_eq!(hms_format().format_time_duration(&d), "-1:-1:-1");

    let e = DurationValue::of_seconds(-3600);
    assert_eq!(hms_format().format_time_duration(&e), "-1:0:0");
}

#[test]
fn unrelated_parts_contribute_nothing_to_durations() {
    let mut vf = ValueFormat::new();
    vf.push_part(FormatPart::new(FormatPartType::Year));
    vf.push_part(FormatPart::new(FormatPartType::AmPm));
    vf.push_part(FormatPart::new(FormatPartType::Boolean));
    let d = DurationValue::of_seconds(5);
    assert_eq!(vf.format_time_duration(&d), "");
}

#[test]
fn duration_value_round_trip() {
    let d = DurationValue::of_seconds(-42);
    assert_eq!(d.seconds(), -42);
}
