use spx_supervisor::port::{decimal_text, parse_port, parse_port_from_args};

fn args(list: &[&str]) -> Vec<String> {
    list.iter().map(|s| s.to_string()).collect()
}

#[test]
fn port_from_first_argument() {
    assert_eq!(parse_port_from_args(&args(&["app", "8080"])), "8080");
    assert_eq!(parse_port_from_args(&args(&["app", "+80", "9"])), "80");
    assert_eq!(parse_port_from_args(&args(&["app", "0080"])), "80");
    assert_eq!(parse_port_from_args(&args(&["app", "65535"])), "65535");
    assert_eq!(parse_port_from_args(&args(&["app", "0"])), "0");
}

#[test]
fn port_falls_back_to_default() {
    assert_eq!(parse_port_from_args(&args(&["app"])), "5660");
    assert_eq!(parse_port_from_args(&args(&[])), "5660");
    assert_eq!(parse_port_from_args(&args(&["app", "65536"])), "5660");
    assert_eq!(parse_port_from_args(&args(&["app", "-1"])), "5660");
    assert_eq!(parse_port_from_args(&args(&["app", "80a"])), "5660");
    assert_eq!(parse_port_from_args(&args(&["app", "+"])), "5660");
    assert_eq!(parse_port_from_args(&args(&["app", ""])), "5660");
    assert_eq!(parse_port_from_args(&args(&["app", "999999999999"])), "5660");
}

#[test]
fn parse_port_matches_std() {
    for s in ["", "+", "-", "0", "+7", "-7", "007", "65535", "65536", "1x", "x1", " 1", "١٢"] {
        assert_eq!(parse_port(s), s.parse::<u16>().ok(), "{}", s);
    }
}

#[test]
fn decimal_text_has_no_leading_zeros() {
    assert_eq!(decimal_text(0), "0");
    assert_eq!(decimal_text(9), "9");
    assert_eq!(decimal_text(10), "10");
    assert_eq!(decimal_text(5660), "5660");
    assert_eq!(decimal_text(u16::MAX), "65535");
}
