use paper_reader::timestamp::{civil_time, rfc3339_from_epoch, CivilTime};

#[test]
fn epoch_is_first_of_january_1970() {
    assert_eq!(rfc3339_from_epoch(0), "1970-01-01T00:00:00Z");
}

#[test]
fn known_moments_have_their_dates() {
    assert_eq!(rfc3339_from_epoch(951_782_400), "2000-02-29T00:00:00Z");
    assert_eq!(rfc3339_from_epoch(1_700_000_000), "2023-11-14T22:13:20Z");
    assert_eq!(rfc3339_from_epoch(1_709_251_199), "2024-02-29T23:59:59Z");
    assert_eq!(rfc3339_from_epoch(4_102_444_800), "2100-01-01T00:00:00Z");
}

#[test]
fn civil_time_splits_the_day() {
    let t = civil_time(86_400 * 31 + 3_661);
    assert_eq!(
        t,
        CivilTime { year: 1970, month: 2, day: 1, hour: 1, minute: 1, second: 1 }
    );
}

#[test]
fn last_second_of_a_year_and_first_of_the_next() {
    assert_eq!(rfc3339_from_epoch(946_684_799), "1999-12-31T23:59:59Z");
    assert_eq!(rfc3339_from_epoch(946_684_800), "2000-01-01T00:00:00Z");
}

#[test]
fn years_past_9999_keep_all_digits() {
    let t = civil_time(253_402_300_800);
    assert_eq!(t.year, 10000);
    assert_eq!(t.to_rfc3339(), "10000-01-01T00:00:00Z");
}
