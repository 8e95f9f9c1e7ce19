use cmdcache::ttl::{ttl_seconds, TtlError, MAX_DURATION_CHARS};

#[test]
fn explicit_seconds_win() {
    assert_eq!(ttl_seconds(Some(5), "1min"), Ok(5));
    assert_eq!(ttl_seconds(Some(0), "not a duration"), Ok(0));
}

#[test]
fn reads_the_duration_text() {
    assert_eq!(ttl_seconds(None, "1min"), Ok(60));
    assert_eq!(ttl_seconds(None, "2h 37min"), Ok(9420));
    assert_eq!(ttl_seconds(None, "4.2s"), Ok(4));
    assert_eq!(ttl_seconds(None, "0"), Ok(0));
}

#[test]
fn rejects_a_bad_duration() {
    assert_eq!(ttl_seconds(None, "soon"), Err(TtlError::InvalidDuration));
    assert_eq!(ttl_seconds(None, ""), Err(TtlError::InvalidDuration));
}

#[test]
fn reads_a_duration_of_the_longest_length() {
    let text = "1year 2months 3d";
    assert_eq!(text.chars().count(), MAX_DURATION_CHARS);
    assert_eq!(ttl_seconds(None, text), Ok(31_557_600 + 2 * 2_630_016 + 3 * 86_400));
}

#[test]
fn a_long_duration_text_is_ignored_beside_explicit_seconds() {
    assert_eq!(ttl_seconds(Some(7), "18446744073709551615s 1000000000ns"), Ok(7));
}
