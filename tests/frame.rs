use pino::{decode_frame, decode_received, encode_frame, parse_delay, DEFAULT_DELAY};

#[test]
fn decode_plain_frame() {
    let u = decode_frame("Build|+|Passed|+|2").unwrap();
    assert_eq!(u.title, "Build");
    assert_eq!(u.message, "Passed");
    assert_eq!(u.delay, 2);
}

#[test]
fn malformed_delay_falls_back_to_three_seconds() {
    let u = decode_frame("Title|+|Body|+|abc").unwrap();
    assert_eq!(u.title, "Title");
    assert_eq!(u.message, "Body");
    assert_eq!(u.delay, 3);
    assert_eq!(DEFAULT_DELAY, 3);
}

#[test]
fn too_few_fields_yield_nothing() {
    assert!(decode_frame("").is_none());
    assert!(decode_frame("only a title").is_none());
    assert!(decode_frame("a|+|b").is_none());
}

#[test]
fn empty_fields_decode() {
    let u = decode_frame("|+||+|").unwrap();
    assert_eq!(u.title, "");
    assert_eq!(u.message, "");
    assert_eq!(u.delay, 3);
}

#[test]
fn newlines_are_stripped_and_extra_fields_ignored() {
    let u = decode_frame("Ti\ntle|+|Mes\nsage\n|+|1\n0\n|+|ignored|+|x").unwrap();
    assert_eq!(u.title, "Title");
    assert_eq!(u.message, "Message");
    assert_eq!(u.delay, 10);
}

#[test]
fn separator_is_matched_from_the_left() {
    let u = decode_frame("a|+|+|b|+|7").unwrap();
    assert_eq!(u.title, "a");
    assert_eq!(u.message, "+|b");
    assert_eq!(u.delay, 7);
}

#[test]
fn decode_received_bytes() {
    let u = decode_received(b"Build|+|Started|+|5").unwrap();
    assert_eq!(u.title, "Build");
    assert_eq!(u.message, "Started");
    assert_eq!(u.delay, 5);
    let v = decode_received(&[b'A', 0xff, b'|', b'+', b'|', b'm', b'|', b'+', b'|', b'4']).unwrap();
    assert_eq!(v.title, "A\u{fffd}");
    assert_eq!(v.message, "m");
    assert_eq!(v.delay, 4);
    assert!(decode_received(b"no separators").is_none());
}

#[test]
fn parse_delay_cases() {
    assert_eq!(parse_delay("0"), Some(0));
    assert_eq!(parse_delay("42"), Some(42));
    assert_eq!(parse_delay("+5"), Some(5));
    assert_eq!(parse_delay("007"), Some(7));
    assert_eq!(parse_delay("18446744073709551615"), Some(u64::MAX));
    assert_eq!(parse_delay("18446744073709551616"), None);
    assert_eq!(parse_delay(""), None);
    assert_eq!(parse_delay("+"), None);
    assert_eq!(parse_delay("-1"), None);
    assert_eq!(parse_delay("1 "), None);
    assert_eq!(parse_delay("abc"), None);
}

#[test]
fn encode_writes_the_wire_format() {
    assert_eq!(encode_frame("Build", "Passed", 2), "Build|+|Passed|+|2");
    assert_eq!(encode_frame("", "", 0), "|+||+|0");
    assert_eq!(encode_frame("t", "m", u64::MAX), "t|+|m|+|18446744073709551615");
    assert_eq!(encode_frame("t", "m", 1090), "t|+|m|+|1090");
}

#[test]
fn encoded_frame_reads_back() {
    for (t, m, d) in [("Build", "Passed", 2u64), ("", "", 0), ("héllo", "wörld +", 123456789)] {
        let u = decode_frame(&encode_frame(t, m, d)).unwrap();
        assert_eq!(u.title, t);
        assert_eq!(u.message, m);
        assert_eq!(u.delay, d);
    }
}
