use blog001::config::{parse_port, PortError, DEFAULT_HOST, DEFAULT_PORT};

#[test]
fn ports_parse_like_u16() {
    for raw in ["0", "8080", "+80", "65535", "00042", "", "+", "-", "-1", "65536", "99999x", "8o", " 80", "1_000"] {
        let ours = parse_port(raw);
        let std = raw.parse::<u16>();
        match (ours, std) {
            (Ok(a), Ok(b)) => assert_eq!(a, b, "{raw}"),
            (Err(e), Err(s)) => assert_eq!(e.message(), s.to_string(), "{raw}"),
            (a, b) => panic!("{raw}: {a:?} vs {b:?}"),
        }
    }
}

#[test]
fn port_error_kinds() {
    assert_eq!(parse_port(""), Err(PortError::Empty));
    assert_eq!(parse_port("+"), Err(PortError::InvalidDigit));
    assert_eq!(parse_port("12a"), Err(PortError::InvalidDigit));
    assert_eq!(parse_port("70000"), Err(PortError::PosOverflow));
    assert_eq!(parse_port("8080"), Ok(8080));
}

#[test]
fn defaults() {
    assert_eq!(DEFAULT_HOST, "0.0.0.0");
    assert_eq!(parse_port(DEFAULT_PORT), Ok(8080));
}
