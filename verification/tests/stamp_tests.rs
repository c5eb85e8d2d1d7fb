use rustic::stamp::{parse_timestamp, render_timestamp};
use rustic::Error;

#[test]
fn render_simple_value() {
    assert_eq!(render_timestamp(0), b"0".to_vec());
    assert_eq!(render_timestamp(7), b"7".to_vec());
    assert_eq!(render_timestamp(1000), b"1000".to_vec());
    assert_eq!(render_timestamp(-42), b"-42".to_vec());
}

#[test]
fn render_extremes() {
    assert_eq!(render_timestamp(i64::MAX), b"9223372036854775807".to_vec());
    assert_eq!(render_timestamp(i64::MIN), b"-9223372036854775808".to_vec());
}

#[test]
fn parse_simple_value() {
    assert_eq!(parse_timestamp(&b"0".to_vec()).unwrap(), 0);
    assert_eq!(parse_timestamp(&b"1000".to_vec()).unwrap(), 1000);
    assert_eq!(parse_timestamp(&b"007".to_vec()).unwrap(), 7);
    assert_eq!(parse_timestamp(&b"+55".to_vec()).unwrap(), 55);
    assert_eq!(parse_timestamp(&b"-42".to_vec()).unwrap(), -42);
}

#[test]
fn parse_extremes() {
    assert_eq!(
        parse_timestamp(&b"9223372036854775807".to_vec()).unwrap(),
        i64::MAX
    );
    assert_eq!(
        parse_timestamp(&b"-9223372036854775808".to_vec()).unwrap(),
        i64::MIN
    );
}

#[test]
fn parse_rejects_malformed() {
    for bad in [
        &b""[..],
        b"-",
        b"+",
        b"12x",
        b"x12",
        b" 12",
        b"12 ",
        b"1.5",
        b"9223372036854775808",
        b"-9223372036854775809",
        b"99999999999999999999999999",
    ] {
        match parse_timestamp(&bad.to_vec()) {
            Err(Error::MalformedTimestamp(content)) => assert_eq!(content, bad.to_vec()),
            other => panic!("expected MalformedTimestamp for {:?}, got {:?}", bad, other),
        }
    }
}

#[test]
fn round_trip() {
    for t in [0i64, 1, -1, 1234567890, -987654321, i64::MAX, i64::MIN] {
        assert_eq!(parse_timestamp(&render_timestamp(t)).unwrap(), t);
    }
}
