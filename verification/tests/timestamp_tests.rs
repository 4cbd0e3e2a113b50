use linux_agent::timestamp::is_rfc3339_utc_text;

#[test]
fn accepts_utc_timestamps() {
    assert!(is_rfc3339_utc_text("2024-05-06T07:08:09+00:00"));
    assert!(is_rfc3339_utc_text("2024-05-06T07:08:09Z"));
    assert!(is_rfc3339_utc_text("2024-05-06t07:08:09z"));
    assert!(is_rfc3339_utc_text("2024-05-06T07:08:09.123+00:00"));
    assert!(is_rfc3339_utc_text("2024-05-06T07:08:09.123456+00:00"));
    assert!(is_rfc3339_utc_text("2024-05-06T07:08:09.123456789+00:00"));
    assert!(is_rfc3339_utc_text("1970-01-01T00:00:00.5Z"));
    assert!(is_rfc3339_utc_text("0000-01-01T00:00:00Z"));
    assert!(is_rfc3339_utc_text("9999-12-31T23:59:60Z"));
}

#[test]
fn accepts_the_leap_day_only_in_leap_years() {
    assert!(is_rfc3339_utc_text("2024-02-29T00:00:00Z"));
    assert!(is_rfc3339_utc_text("2000-02-29T00:00:00Z"));
    assert!(!is_rfc3339_utc_text("2023-02-29T00:00:00Z"));
    assert!(!is_rfc3339_utc_text("1900-02-29T00:00:00Z"));
    assert!(!is_rfc3339_utc_text("2024-02-30T00:00:00Z"));
}

#[test]
fn rejects_fields_out_of_range() {
    assert!(!is_rfc3339_utc_text("2024-00-10T00:00:00Z"));
    assert!(!is_rfc3339_utc_text("2024-13-10T00:00:00Z"));
    assert!(!is_rfc3339_utc_text("2024-01-00T00:00:00Z"));
    assert!(!is_rfc3339_utc_text("2024-01-32T00:00:00Z"));
    assert!(!is_rfc3339_utc_text("2024-04-31T00:00:00Z"));
    assert!(is_rfc3339_utc_text("2024-04-30T00:00:00Z"));
    assert!(!is_rfc3339_utc_text("2024-01-01T24:00:00Z"));
    assert!(!is_rfc3339_utc_text("2024-01-01T00:60:00Z"));
    assert!(!is_rfc3339_utc_text("2024-01-01T00:00:61Z"));
}

#[test]
fn rejects_other_offsets() {
    assert!(!is_rfc3339_utc_text("2024-05-06T07:08:09+01:00"));
    assert!(!is_rfc3339_utc_text("2024-05-06T07:08:09-00:00"));
    assert!(!is_rfc3339_utc_text("2024-05-06T07:08:09+0000"));
    assert!(!is_rfc3339_utc_text("2024-05-06T07:08:09"));
    assert!(!is_rfc3339_utc_text("2024-05-06T07:08:09ZZ"));
    assert!(!is_rfc3339_utc_text("2024-05-06T07:08:09+00:00 "));
}

#[test]
fn rejects_wrong_shapes() {
    assert!(!is_rfc3339_utc_text(""));
    assert!(!is_rfc3339_utc_text("2024-05-06"));
    assert!(!is_rfc3339_utc_text("2024-05-06 07:08:09Z"));
    assert!(!is_rfc3339_utc_text("2024/05/06T07:08:09Z"));
    assert!(!is_rfc3339_utc_text("2024-05-06T07.08.09Z"));
    assert!(!is_rfc3339_utc_text("2024-5-06T07:08:09Z"));
    assert!(!is_rfc3339_utc_text("+10000-01-01T00:00:00+00:00"));
    assert!(!is_rfc3339_utc_text("2024-05-06T07:08:09.Z"));
    assert!(!is_rfc3339_utc_text("2024-05-06T07:08:09.12a+00:00"));
    assert!(!is_rfc3339_utc_text("２０２４-05-06T07:08:09Z"));
    assert!(!is_rfc3339_utc_text("2024-05-06T07:08:0９Z"));
}
