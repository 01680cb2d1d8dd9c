use valueformat::calendar::DateTimeValue;
use valueformat::format::FormatPart;
use valueformat::format::FormatPartType;
use valueformat::format::ValueFormat;

fn long_part(ftype: FormatPartType) -> FormatPart {
    let mut p = FormatPart::new(ftype);
    p.set_attr("number:style", "long".to_string());
    p
}

#[test]
fn year_long_and_short() {
    let d = DateTimeValue::new(2023, 6, 5, 0, 0, 0).unwrap();

    let mut long = ValueFormat::new();
    long.push_part(long_part(FormatPartType::Year));
    assert_eq!(long.format_datetime(&d), "2023");

    let mut short = ValueFormat::new();
    short.push_part(FormatPart::new(FormatPartType::Year));
    assert_eq!(short.format_datetime(&d), "23");
}

#[test]
fn year_padding() {
    let d = DateTimeValue::new(50, 3, 1, 0, 0, 0).unwrap();
    let mut long = ValueFormat::new();
    long.push_part(long_part(FormatPartType::Year));
    assert_eq!(long.format_datetime(&d), "0050");

    let e = DateTimeValue::new(2005, 3, 1, 0, 0, 0).unwrap();
    let mut short = ValueFormat::new();
    short.push_part(FormatPart::new(FormatPartType::Year));
    assert_eq!(short.format_datetime(&e), "05");
}

#[test]
fn ampm_flips_every_hours_part() {
    let d = DateTimeValue::new(2023, 1, 1, 15, 0, 0).unwrap();

    let mut with_ampm = ValueFormat::new();
    with_ampm.push_part(FormatPart::new(FormatPartType::Hours));
    with_ampm.push_part(FormatPart::new_content(FormatPartType::Text, ":"));
    with_ampm.push_part(FormatPart::new(FormatPartType::Hours));
    with_ampm.push_part(FormatPart::new(FormatPartType::AmPm));
    assert_eq!(with_ampm.format_datetime(&d), "3:3PM");

    let mut without = ValueFormat::new();
    without.push_part(FormatPart::new(FormatPartType::Hours));
    without.push_part(FormatPart::new_content(FormatPartType::Text, ":"));
    without.push_part(FormatPart::new(FormatPartType::Hours));
    assert_eq!(without.format_datetime(&d), "15:15");
}

#[test]
fn twelve_hour_clock_edges() {
    let mut vf = ValueFormat::new();
    vf.push_part(FormatPart::new(FormatPartType::Hours));
    vf.push_part(FormatPart::new(FormatPartType::AmPm));

    let midnight = DateTimeValue::new(2023, 1, 1, 0, 0, 0).unwrap();
    assert_eq!(vf.format_datetime(&midnight), "12AM");

    let noon = DateTimeValue::new(2023, 1, 1, 12, 0, 0).unwrap();
    assert_eq!(vf.format_datetime(&noon), "12PM");
}

#[test]
fn day_and_month_padding() {
    let d = DateTimeValue::new(2023, 2, 7, 0, 0, 0).unwrap();

    let mut long = ValueFormat::new();
    long.push_part(long_part(FormatPartType::Day));
    long.push_part(FormatPart::new_content(FormatPartType::Text, "/"));
    long.push_part(long_part(FormatPartType::Month));
    assert_eq!(long.format_datetime(&d), "07/02");

    let mut short = ValueFormat::new();
    short.push_part(FormatPart::new(FormatPartType::Day));
    short.push_part(FormatPart::new_content(FormatPartType::Text, "/"));
    short.push_part(FormatPart::new(FormatPartType::Month));
    assert_eq!(short.format_datetime(&d), "7/2");
}

#[test]
fn textual_month_long_short_mapping_is_inverted() {
    // By design of the underlying format tokens, the long style picks the
    // abbreviated name and the short style the full name.
    let d = DateTimeValue::new(2023, 2, 17, 0, 0, 0).unwrap();

    let mut long = ValueFormat::new();
    let mut p = long_part(FormatPartType::Month);
    p.set_attr("number:textual", "true".to_string());
    long.push_part(p);
    assert_eq!(long.format_datetime(&d), "Feb");

    let mut short = ValueFormat::new();
    let mut q = FormatPart::new(FormatPartType::Month);
    q.set_attr("number:textual", "true".to_string());
    short.push_part(q);
    assert_eq!(short.format_datetime(&d), "February");
}

#[test]
fn weekday_names() {
    // A Monday.
    let d = DateTimeValue::new(2024, 1, 1, 0, 0, 0).unwrap();

    let mut long = ValueFormat::new();
    long.push_part(long_part(FormatPartType::DayOfWeek));
    assert_eq!(long.format_datetime(&d), "Monday");

    let mut short = ValueFormat::new();
    short.push_part(FormatPart::new(FormatPartType::DayOfWeek));
    assert_eq!(short.format_datetime(&d), "Mon");

    // A Sunday.
    let e = DateTimeValue::new(2023, 1, 1, 0, 0, 0).unwrap();
    assert_eq!(long.format_datetime(&e), "Sunday");
}

#[test]
fn week_of_year() {
    let mut long = ValueFormat::new();
    long.push_part(long_part(FormatPartType::WeekOfYear));
    let mut short = ValueFormat::new();
    short.push_part(FormatPart::new(FormatPartType::WeekOfYear));

    // The year starts on a Monday: January 1st falls in week 1.
    let d = DateTimeValue::new(2024, 1, 1, 0, 0, 0).unwrap();
    assert_eq!(long.format_datetime(&d), "01");
    assert_eq!(short.format_datetime(&d), "1");

    // The year starts on a Sunday: days before the first Monday are week 0.
    let e = DateTimeValue::new(2023, 1, 1, 0, 0, 0).unwrap();
    assert_eq!(long.format_datetime(&e), "00");
    assert_eq!(short.format_datetime(&e), "0");

    // The year starts on a Tuesday: January 1st still falls before the first
    // Monday, so it is week 0, and later weeks follow from the first Monday.
    let f = DateTimeValue::new(2019, 1, 1, 0, 0, 0).unwrap();
    assert_eq!(long.format_datetime(&f), "00");
    assert_eq!(short.format_datetime(&f), "0");
    let g = DateTimeValue::new(2019, 1, 7, 0, 0, 0).unwrap();
    assert_eq!(short.format_datetime(&g), "1");
    let h = DateTimeValue::new(2019, 7, 1, 0, 0, 0).unwrap();
    assert_eq!(short.format_datetime(&h), "26");
    let i = DateTimeValue::new(2019, 12, 31, 0, 0, 0).unwrap();
    assert_eq!(short.format_datetime(&i), "52");
}

#[test]
fn minutes_and_seconds_padding() {
    let d = DateTimeValue::new(2023, 1, 1, 8, 5, 9).unwrap();

    let mut long = ValueFormat::new();
    long.push_part(long_part(FormatPartType::Hours));
    long.push_part(FormatPart::new_content(FormatPartType::Text, ":"));
    long.push_part(long_part(FormatPartType::Minutes));
    long.push_part(FormatPart::new_content(FormatPartType::Text, ":"));
    long.push_part(long_part(FormatPartType::Seconds));
    assert_eq!(long.format_datetime(&d), "08:05:09");

    let mut short = ValueFormat::new();
    short.push_part(FormatPart::new(FormatPartType::Hours));
    short.push_part(FormatPart::new_content(FormatPartType::Text, ":"));
    short.push_part(FormatPart::new(FormatPartType::Minutes));
    short.push_part(FormatPart::new_content(FormatPartType::Text, ":"));
    short.push_part(FormatPart::new(FormatPartType::Seconds));
    assert_eq!(short.format_datetime(&d), "8:5:9");
}

#[test]
fn unrelated_parts_contribute_nothing_to_datetime() {
    let d = DateTimeValue::new(2023, 1, 1, 0, 0, 0).unwrap();
    let mut vf = ValueFormat::new();
    vf.push_part(FormatPart::new(FormatPartType::Boolean));
    vf.push_part(FormatPart::new(FormatPartType::Number));
    vf.push_part(FormatPart::new(FormatPartType::TextContent));
    vf.push_part(FormatPart::new(FormatPartType::Era));
    vf.push_part(FormatPart::new(FormatPartType::Quarter));
    assert_eq!(vf.format_datetime(&d), "");
}

#[test]
fn datetime_value_validation() {
    assert!(DateTimeValue::new(2023, 2, 29, 0, 0, 0).is_none());
    assert!(DateTimeValue::new(2024, 2, 29, 0, 0, 0).is_some());
    assert!(DateTimeValue::new(2023, 13, 1, 0, 0, 0).is_none());
    assert!(DateTimeValue::new(2023, 1, 1, 24, 0, 0).is_none());
    assert!(DateTimeValue::new(0, 1, 1, 0, 0, 0).is_none());
    assert!(DateTimeValue::new(1900, 2, 29, 0, 0, 0).is_none());
    assert!(DateTimeValue::new(2000, 2, 29, 0, 0, 0).is_some());
}
