use bucketstore::config::{parse_i64, parse_u16, Config};

#[test]
fn parse_u16_plain() {
    assert_eq!(parse_u16("8080"), Some(8080));
    assert_eq!(parse_u16("0"), Some(0));
    assert_eq!(parse_u16("65535"), Some(65535));
    assert_eq!(parse_u16("+80"), Some(80));
}

#[test]
fn parse_u16_refusals() {
    assert_eq!(parse_u16(""), None);
    assert_eq!(parse_u16("+"), None);
    assert_eq!(parse_u16("-1"), None);
    assert_eq!(parse_u16("65536"), None);
    assert_eq!(parse_u16("99999999999999999999999"), None);
    assert_eq!(parse_u16("80a"), None);
    assert_eq!(parse_u16(" 80"), None);
}

#[test]
fn parse_u16_agrees_with_std() {
    for s in ["8080", "0", "65535", "65536", "+80", "-1", "", "80a", "007"] {
        assert_eq!(parse_u16(s), s.parse::<u16>().ok(), "input {:?}", s);
    }
}

#[test]
fn parse_i64_plain() {
    assert_eq!(parse_i64("86400"), Some(86400));
    assert_eq!(parse_i64("+86400"), Some(86400));
    assert_eq!(parse_i64("-5"), Some(-5));
    assert_eq!(parse_i64("0"), Some(0));
    assert_eq!(parse_i64("9223372036854775807"), Some(i64::MAX));
    assert_eq!(parse_i64("-9223372036854775808"), Some(i64::MIN));
}

#[test]
fn parse_i64_refusals() {
    assert_eq!(parse_i64(""), None);
    assert_eq!(parse_i64("-"), None);
    assert_eq!(parse_i64("+"), None);
    assert_eq!(parse_i64("9223372036854775808"), None);
    assert_eq!(parse_i64("-9223372036854775809"), None);
    assert_eq!(parse_i64("1e3"), None);
}

#[test]
fn parse_i64_agrees_with_std() {
    for s in [
        "86400",
        "-86400",
        "+1",
        "9223372036854775807",
        "9223372036854775808",
        "-9223372036854775808",
        "-9223372036854775809",
        "",
        "--1",
        "12x",
    ] {
        assert_eq!(parse_i64(s), s.parse::<i64>().ok(), "input {:?}", s);
    }
}

#[test]
fn config_holds_plain_values() {
    let c = Config {
        database_url: "postgres://localhost/db".to_string(),
        storage_path: "./storage".to_string(),
        server_addr: "127.0.0.1".to_string(),
        server_port: parse_u16("8080").unwrap(),
        jwt_secret: "testsecret".to_string(),
        jwt_expiration: parse_i64("86400").unwrap(),
    };
    assert_eq!(c.server_port, 8080);
    assert_eq!(c.jwt_expiration, 86400);
}
