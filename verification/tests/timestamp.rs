use wellium::timestamp::CivilTime;
use wellium::timestamp::civil_of_millis;
use wellium::timestamp::is_leap;

fn iso(millis: u64) -> String {
    civil_of_millis(millis).render()
}

#[test]
fn epoch_renders_as_iso() {
    assert_eq!(iso(0), "1970-01-01T00:00:00.000Z");
}

#[test]
fn first_month_end() {
    assert_eq!(iso(2678399999), "1970-01-31T23:59:59.999Z");
}

#[test]
fn year_boundary() {
    assert_eq!(iso(946684799999), "1999-12-31T23:59:59.999Z");
    assert_eq!(iso(946684800000), "2000-01-01T00:00:00.000Z");
}

#[test]
fn modern_date() {
    assert_eq!(iso(1704067200000), "2024-01-01T00:00:00.000Z");
}

#[test]
fn leap_day_with_time_of_day() {
    assert_eq!(iso(1709210096789), "2024-02-29T12:34:56.789Z");
}

#[test]
fn century_leap_day() {
    assert_eq!(iso(951782400000), "2000-02-29T00:00:00.000Z");
    assert_eq!(iso(68169600000), "1972-02-29T00:00:00.000Z");
}

#[test]
fn last_renderable_millisecond() {
    assert_eq!(iso(253402300799999), "9999-12-31T23:59:59.999Z");
}

#[test]
fn civil_fields_of_leap_day() {
    let c = civil_of_millis(1709210096789);
    assert_eq!((c.year, c.month, c.day), (2024, 2, 29));
    assert_eq!((c.hour, c.minute, c.second, c.milli), (12, 34, 56, 789));
}

#[test]
fn leap_year_rule() {
    assert!(is_leap(2000));
    assert!(!is_leap(1900));
    assert!(!is_leap(2100));
    assert!(is_leap(2024));
    assert!(!is_leap(2023));
    assert!(is_leap(1972));
}

#[test]
fn render_pads_every_field() {
    let c = CivilTime { year: 1984, month: 3, day: 7, hour: 4, minute: 5, second: 6, milli: 7 };
    assert_eq!(c.render(), "1984-03-07T04:05:06.007Z");
}
