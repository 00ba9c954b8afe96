use measure_home_env_fs::instant::capture_now;
use measure_home_env_fs::instant::format_datetime;
use measure_home_env_fs::instant::format_doc_id;
use measure_home_env_fs::instant::parse_datetime;
use measure_home_env_fs::instant::parse_doc_id;
use measure_home_env_fs::instant::Instant;

fn scenario_instant() -> Instant {
    Instant { year: 2024, month: 3, day: 1, hour: 10, minute: 15, second: 30 }
}

#[test]
fn datetime_rendering_is_slash_separated_and_padded() {
    assert_eq!(format_datetime(&scenario_instant()), "2024/03/01 10:15:30");
}

#[test]
fn doc_id_rendering_is_compact() {
    assert_eq!(format_doc_id(&scenario_instant()), "20240301101530");
}

#[test]
fn both_renderings_decode_to_the_same_second() {
    let i = scenario_instant();
    let from_datetime = parse_datetime(&format_datetime(&i));
    let from_id = parse_doc_id(&format_doc_id(&i));
    assert_eq!(from_datetime, Some(i));
    assert_eq!(from_id, Some(i));
    assert_eq!(from_datetime, from_id);
}

#[test]
fn round_trip_at_field_extremes() {
    let low = Instant { year: 1, month: 1, day: 1, hour: 0, minute: 0, second: 0 };
    let high = Instant { year: 9999, month: 12, day: 31, hour: 23, minute: 59, second: 59 };
    assert_eq!(parse_datetime(&format_datetime(&low)), Some(low));
    assert_eq!(parse_doc_id(&format_doc_id(&low)), Some(low));
    assert_eq!(parse_datetime(&format_datetime(&high)), Some(high));
    assert_eq!(parse_doc_id(&format_doc_id(&high)), Some(high));
}

#[test]
fn parse_rejects_wrong_shapes() {
    assert_eq!(parse_datetime(""), None);
    assert_eq!(parse_datetime("2024-03-01 10:15:30"), None);
    assert_eq!(parse_datetime("2024/03/01 10:15:3x"), None);
    assert_eq!(parse_datetime("2024/13/01 10:15:30"), None);
    assert_eq!(parse_datetime("2024/00/01 10:15:30"), None);
    assert_eq!(parse_datetime("2024/03/01 24:15:30"), None);
    assert_eq!(parse_doc_id("2024030110153"), None);
    assert_eq!(parse_doc_id("20240301101560"), None);
    assert_eq!(parse_doc_id("202403011015x0"), None);
}

#[test]
fn captured_instant_is_in_range_and_current() {
    let i = capture_now().expect("the clock's year renders in four digits");
    assert!(2020 <= i.year && i.year <= 9999);
    assert!(1 <= i.month && i.month <= 12);
    assert!(1 <= i.day && i.day <= 31);
    assert!(i.hour <= 23);
    assert!(i.minute <= 59);
    assert!(i.second <= 59);
}
