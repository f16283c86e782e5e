//! Packet flattening, numeric truncation and text utilities.

use arcflash::numeric::{f32_trunc_i32, f64_trunc_i32};
use arcflash::osc::{msg, Arg, Bundle, CommunicationError, Message, Packet, TimeTag};
use arcflash::text::{contains_sub, parse_i32, second_last_token, u64_to_string};

fn tag() -> TimeTag {
    TimeTag { seconds: 0, fractional: 1 }
}

fn named(addr: &str) -> Message {
    msg(addr, vec![])
}

#[test]
fn flatten_single_message_yields_one_entry() {
    let p = Packet::Message(named("/a"));
    let msgs = p.into_msgs();
    assert_eq!(msgs.len(), 1);
    assert_eq!(msgs[0].addr, "/a");
}

#[test]
fn flatten_empty_bundle_yields_nothing() {
    let p = Packet::Bundle(Bundle { timetag: tag(), content: vec![] });
    let msgs = p.into_msgs();
    assert_eq!(msgs.len(), 0);
}

#[test]
fn flatten_nested_bundles_preserves_preorder() {
    let inner = Packet::Bundle(Bundle {
        timetag: tag(),
        content: vec![Packet::Message(named("/b")), Packet::Message(named("/c"))],
    });
    let deeper = Packet::Bundle(Bundle {
        timetag: tag(),
        content: vec![Packet::Bundle(Bundle {
            timetag: tag(),
            content: vec![Packet::Message(named("/d"))],
        })],
    });
    let p = Packet::Bundle(Bundle {
        timetag: tag(),
        content: vec![Packet::Message(named("/a")), inner, deeper, Packet::Message(named("/e"))],
    });
    let msgs = p.into_msgs();
    let addrs: Vec<&str> = msgs.iter().map(|m| m.addr.as_str()).collect();
    assert_eq!(addrs, vec!["/a", "/b", "/c", "/d", "/e"]);
}

#[test]
fn msg_builds_address_and_args() {
    let m = msg("/x/y", vec![Arg::Int(3), Arg::Bool(true)]);
    assert_eq!(m.addr, "/x/y");
    assert_eq!(m.args.len(), 2);
    assert!(matches!(m.args[0], Arg::Int(3)));
    assert!(matches!(m.args[1], Arg::Bool(true)));
}

#[test]
fn f32_truncation_matches_the_native_cast() {
    let samples: Vec<f32> = vec![
        0.0,
        -0.0,
        0.5,
        -0.5,
        1.0,
        1.5,
        3.999,
        -3.999,
        1234567.8,
        -1234567.8,
        1e10,
        -1e10,
        f32::MAX,
        f32::MIN,
        f32::INFINITY,
        f32::NEG_INFINITY,
        f32::NAN,
        2147483520.0,
        -2147483648.0,
        1e-20,
    ];
    for f in samples {
        assert_eq!(f32_trunc_i32(f.to_bits()), f as i32, "for {}", f);
    }
}

#[test]
fn f64_truncation_matches_the_native_cast() {
    let samples: Vec<f64> = vec![
        0.0,
        -0.0,
        0.5,
        -0.5,
        1.0,
        1.5,
        3.999,
        -3.999,
        1234567.89,
        -1234567.89,
        1e10,
        -1e10,
        2147483647.0,
        -2147483648.0,
        2147483647.9,
        -2147483648.9,
        f64::MAX,
        f64::MIN,
        f64::INFINITY,
        f64::NEG_INFINITY,
        f64::NAN,
        1e-20,
    ];
    for f in samples {
        assert_eq!(f64_trunc_i32(f.to_bits()), f as i32, "for {}", f);
    }
}

#[test]
fn parse_i32_accepts_what_the_standard_parser_accepts() {
    assert_eq!(parse_i32("42"), Some(42));
    assert_eq!(parse_i32("-42"), Some(-42));
    assert_eq!(parse_i32("+7"), Some(7));
    assert_eq!(parse_i32("007"), Some(7));
    assert_eq!(parse_i32("0"), Some(0));
    assert_eq!(parse_i32("2147483647"), Some(2147483647));
    assert_eq!(parse_i32("-2147483648"), Some(-2147483648));
    assert_eq!(parse_i32("2147483648"), None);
    assert_eq!(parse_i32("-2147483649"), None);
    assert_eq!(parse_i32("99999999999999999999"), None);
    assert_eq!(parse_i32(""), None);
    assert_eq!(parse_i32("-"), None);
    assert_eq!(parse_i32("+"), None);
    assert_eq!(parse_i32("4x"), None);
    assert_eq!(parse_i32(" 4"), None);
    assert_eq!(parse_i32("4 "), None);
}

#[test]
fn u64_to_string_formats_decimals() {
    assert_eq!(u64_to_string(0), "0");
    assert_eq!(u64_to_string(7), "7");
    assert_eq!(u64_to_string(10), "10");
    assert_eq!(u64_to_string(1234), "1234");
    assert_eq!(u64_to_string(u64::MAX), "18446744073709551615");
}

#[test]
fn contains_sub_finds_substrings() {
    assert!(contains_sub("/sys/q/arcflash", "/sys/"));
    assert!(contains_sub("abc", ""));
    assert!(contains_sub("abc", "abc"));
    assert!(!contains_sub("abc", "abcd"));
    assert!(!contains_sub("/system/", "/sys/"));
    assert!(contains_sub("xx(normalized)yy", "(normalized)"));
}

#[test]
fn second_last_token_takes_the_token_before_the_last() {
    assert_eq!(second_last_token("Cutoff 0.35 (normalized)").as_deref(), Some("0.35"));
    assert_eq!(second_last_token("a b").as_deref(), Some("a"));
    assert_eq!(second_last_token("a b  ").as_deref(), Some("a"));
    assert_eq!(second_last_token("  a   b").as_deref(), Some("a"));
    assert_eq!(second_last_token("a\u{a0}0.35\u{2003}(normalized)").as_deref(), Some("0.35"));
    assert_eq!(second_last_token("one"), None);
    assert_eq!(second_last_token(""), None);
    assert_eq!(second_last_token("   "), None);
}

#[test]
fn communication_errors_describe_their_kind() {
    assert_eq!(CommunicationError::Io("x".to_owned()).describe(), "io error");
    assert_eq!(
        CommunicationError::Osc("y".to_owned()).describe(),
        "failed to decode the packet"
    );
    assert_eq!(
        CommunicationError::Poisoned.describe(),
        "the inner buffer's mutex was poisoned"
    );
}
