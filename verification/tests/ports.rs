use tau_radio::args::{parse_port, validate_ip, validate_port};
use tau_radio::config::TauConfigError;
use tau_radio::util::u16_to_dec;

#[test]
fn parse_port_reads_plain_decimal() {
    assert!(matches!(parse_port("8000"), Ok(8000)));
    assert!(matches!(parse_port("0"), Ok(0)));
    assert!(matches!(parse_port("65535"), Ok(65535)));
}

#[test]
fn parse_port_accepts_leading_plus() {
    assert!(matches!(parse_port("+123"), Ok(123)));
}

#[test]
fn parse_port_rejects_garbage() {
    for bad in ["", "+", "12a", "abc", "-1", " 80", "8 0"] {
        match parse_port(bad) {
            Err(TauConfigError::Input(m)) => assert_eq!(m, "Unable to parse as number"),
            other => panic!("{bad:?} gave {other:?}"),
        }
    }
}

#[test]
fn parse_port_rejects_overflow() {
    for bad in ["65536", "99999", "4294967296", "184467440737095516160"] {
        match parse_port(bad) {
            Err(TauConfigError::Input(m)) => assert_eq!(m, "Unable to parse as number"),
            other => panic!("{bad:?} gave {other:?}"),
        }
    }
}

#[test]
fn validate_port_rejects_only_zero() {
    assert!(matches!(validate_port(0), Err(TauConfigError::InvalidPort(0))));
    assert!(matches!(validate_port(1), Ok(1)));
    assert!(matches!(validate_port(8000), Ok(8000)));
    assert!(matches!(validate_port(65535), Ok(65535)));
}

#[test]
fn u16_to_dec_renders_without_leading_zeros() {
    assert_eq!(u16_to_dec(0), "0");
    assert_eq!(u16_to_dec(7), "7");
    assert_eq!(u16_to_dec(8000), "8000");
    assert_eq!(u16_to_dec(65535), "65535");
}

#[test]
fn port_text_round_trips_through_parse() {
    for v in [0u16, 1, 9, 10, 999, 8000, 65535] {
        let text = u16_to_dec(v);
        assert!(matches!(parse_port(&text), Ok(p) if p == v));
    }
}

#[test]
fn validate_ip_accepts_real_addresses() {
    let ok = validate_ip(String::from("127.0.0.1"));
    assert!(matches!(ok, Ok(ip) if ip == "127.0.0.1"));
    assert!(validate_ip(String::from("::1")).is_ok());
    assert!(validate_ip(String::from("192.168.1.77")).is_ok());
}

#[test]
fn validate_ip_rejects_non_addresses() {
    for bad in ["", "localhost", "256.0.0.1", "1.2.3", "1.2.3.4.5", "not an ip"] {
        match validate_ip(String::from(bad)) {
            Err(TauConfigError::InvalidIp(s)) => assert_eq!(s, bad),
            other => panic!("{bad:?} gave {other:?}"),
        }
    }
}
