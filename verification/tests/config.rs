use std::num::IntErrorKind;

use rrconsumer::config::{parse_u16, Config, ConfigVars, IntParseFailure};
use rrconsumer::text::{join, str_contains, str_equal};

fn ok(s: &str) -> Result<String, String> {
    Ok(s.to_string())
}

fn vars() -> ConfigVars {
    ConfigVars {
        host: ok("localhost"),
        port: ok("5552"),
        username: ok("guest"),
        password: ok("SECRET-REDACTED"),
        stream_name: ok("tasks"),
        consumer_name: ok("worker"),
        response_stream_name: ok("tasks_responses"),
        tb_address: ok("3000"),
    }
}

#[test]
fn port_parsing() {
    assert_eq!(parse_u16("5552"), Ok(5552));
    assert_eq!(parse_u16("+1"), Ok(1));
    assert_eq!(parse_u16("0"), Ok(0));
    assert_eq!(parse_u16("00065535"), Ok(65535));
    assert_eq!(parse_u16(""), Err(IntParseFailure::Empty));
    assert_eq!(parse_u16("+"), Err(IntParseFailure::InvalidDigit));
    assert_eq!(parse_u16("-"), Err(IntParseFailure::InvalidDigit));
    assert_eq!(parse_u16("-1"), Err(IntParseFailure::InvalidDigit));
    assert_eq!(parse_u16("12a"), Err(IntParseFailure::InvalidDigit));
    assert_eq!(parse_u16("65536"), Err(IntParseFailure::PosOverflow));
    assert_eq!(parse_u16("99999x"), Err(IntParseFailure::PosOverflow));
    assert_eq!(parse_u16("9999x"), Err(IntParseFailure::InvalidDigit));
}

#[test]
fn port_parsing_agrees_with_std() {
    let cases = [
        "", "+", "-", "0", "7", "+42", "-0", "65535", "65536", "70000", "123456789", "12 ", " 12",
        "1_000", "٣", "99999x", "6553a", "+65535", "++1",
    ];
    for s in cases {
        let ours = parse_u16(s);
        match s.parse::<u16>() {
            Ok(v) => assert_eq!(ours, Ok(v), "{s:?}"),
            Err(e) => {
                let expected = match e.kind() {
                    IntErrorKind::Empty => IntParseFailure::Empty,
                    IntErrorKind::InvalidDigit => IntParseFailure::InvalidDigit,
                    IntErrorKind::PosOverflow => IntParseFailure::PosOverflow,
                    other => panic!("unexpected {other:?}"),
                };
                assert_eq!(ours, Err(expected), "{s:?}");
                assert_eq!(expected.to_display_string(), e.to_string());
            },
        }
    }
}

#[test]
fn port_rendering_roundtrips() {
    for p in [0u16, 1, 9, 10, 255, 5552, 65535] {
        assert_eq!(parse_u16(&p.to_string()), Ok(p));
        assert_eq!(rrconsumer::text::decimal_string(p as u128), p.to_string());
    }
}

#[test]
fn config_from_vars() {
    let c = Config::from_vars(&vars()).unwrap();
    assert_eq!(c.host, "localhost");
    assert_eq!(c.port, 5552);
    assert_eq!(c.username, "guest");
    assert_eq!(c.stream_name, "tasks");
    assert_eq!(c.consumer_name, "worker");
    assert_eq!(c.response_stream_name, "tasks_responses");
    assert_eq!(c.tb_address, "3000");
}

#[test]
fn config_consumer_name_defaults() {
    let mut v = vars();
    v.consumer_name = Err("environment variable not found".to_string());
    assert_eq!(Config::from_vars(&v).unwrap().consumer_name, "rust_consumer");
}

#[test]
fn config_failures() {
    let mut v = vars();
    v.host = Err("environment variable not found".to_string());
    v.tb_address = Err("environment variable not found".to_string());
    let e = Config::from_vars(&v).unwrap_err();
    assert_eq!(e.message, "environment variable not found");
    assert_eq!(e.context, vec!["RABBITMQ_ADVERTISED_HOST must be set".to_string()]);

    let mut v = vars();
    v.port = ok("55x");
    let e = Config::from_vars(&v).unwrap_err();
    assert_eq!(e.message, "invalid digit found in string");
    assert_eq!(e.context, vec!["RABBITMQ_STREAM_PORT must be a valid number".to_string()]);

    let mut v = vars();
    v.tb_address = Err("gone".to_string());
    let e = Config::from_vars(&v).unwrap_err();
    assert_eq!(e.context, vec!["TB_ADDRESS must be set".to_string()]);
}

#[test]
fn decimal_rendering() {
    assert_eq!(rrconsumer::text::decimal_string(0), "0");
    assert_eq!(rrconsumer::text::decimal_string(u128::MAX), u128::MAX.to_string());
    assert_eq!(rrconsumer::text::i32_string(i32::MIN), i32::MIN.to_string());
    assert_eq!(rrconsumer::text::i32_string(-7), "-7");
    assert_eq!(rrconsumer::text::i32_string(i32::MAX), "2147483647");
}

#[test]
fn text_search_and_join() {
    assert!(str_contains("abcabd", "abd"));
    assert!(str_contains("abc", ""));
    assert!(!str_contains("ab", "abc"));
    assert!(str_equal("héllo", "héllo"));
    assert!(!str_equal("a", "ab"));
    assert_eq!(join(&vec!["a".to_string(), "b".to_string(), "c".to_string()], ", "), "a, b, c");
    assert_eq!(join(&vec![], ";"), "");
}

