use sidecar_supervisor::parser::parse_readiness_line;

#[test]
fn parses_simple_port() {
    assert_eq!(parse_readiness_line(b"PORT:54321"), Some(54321));
}

#[test]
fn parses_zero() {
    assert_eq!(parse_readiness_line(b"PORT:0"), Some(0));
}

#[test]
fn parses_max_port() {
    assert_eq!(parse_readiness_line(b"PORT:65535"), Some(65535));
}

#[test]
fn parses_leading_zeros() {
    assert_eq!(parse_readiness_line(b"PORT:00080"), Some(80));
}

#[test]
fn rejects_empty_line() {
    assert_eq!(parse_readiness_line(b""), None);
}

#[test]
fn rejects_wrong_prefix() {
    assert_eq!(parse_readiness_line(b"port:1234"), None);
    assert_eq!(parse_readiness_line(b"XPORT:1234"), None);
    assert_eq!(parse_readiness_line(b"PORT 1234"), None);
    assert_eq!(parse_readiness_line(b"listening"), None);
}

#[test]
fn rejects_prefix_alone() {
    assert_eq!(parse_readiness_line(b"PORT:"), None);
}

#[test]
fn rejects_non_numeric_suffix() {
    assert_eq!(parse_readiness_line(b"PORT:abc"), None);
}

#[test]
fn rejects_digit_then_junk() {
    assert_eq!(parse_readiness_line(b"PORT:12a3"), None);
    assert_eq!(parse_readiness_line(b"PORT:123 "), None);
    assert_eq!(parse_readiness_line(b"PORT:+123"), None);
}

#[test]
fn rejects_out_of_range() {
    assert_eq!(parse_readiness_line(b"PORT:65536"), None);
    assert_eq!(parse_readiness_line(b"PORT:70000"), None);
    assert_eq!(parse_readiness_line(b"PORT:18446744073709551616"), None);
}

#[test]
fn round_trip_rendered_lines() {
    for p in [0u16, 1, 80, 8080, 54321, 65535] {
        let line = format!("PORT:{}", p).into_bytes();
        assert_eq!(parse_readiness_line(&line), Some(p));
    }
}
