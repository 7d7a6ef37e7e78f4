use socks_portal::target::{
    choose_authority, connect_target, parse_port, split_authority, ResolvedAddress, Target,
};
use socks_portal::termination::Termination;

fn v4(text: &str) -> ResolvedAddress {
    ResolvedAddress { is_ipv4: true, text: text.to_string() }
}

fn v6(text: &str) -> ResolvedAddress {
    ResolvedAddress { is_ipv4: false, text: text.to_string() }
}

fn target(host: &str, port: u16) -> Target {
    Target { host: host.to_string(), port }
}

#[test]
fn port_is_read_from_decimal_digits() {
    assert_eq!(parse_port("443"), Some(443));
    assert_eq!(parse_port("80"), Some(80));
    assert_eq!(parse_port("0"), Some(0));
    assert_eq!(parse_port("1"), Some(1));
    assert_eq!(parse_port("8080"), Some(8080));
}

#[test]
fn port_stops_at_the_largest_port() {
    assert_eq!(parse_port("65535"), Some(65535));
    assert_eq!(parse_port("65536"), None);
    assert_eq!(parse_port("70000"), None);
    assert_eq!(parse_port("655350"), None);
    assert_eq!(parse_port("99999999999999999999999999"), None);
    assert_eq!(parse_port("4294967296"), None);
    assert_eq!(parse_port("4294967739"), None);
}

#[test]
fn port_may_have_leading_zeros_and_a_plus() {
    assert_eq!(parse_port("080"), Some(80));
    assert_eq!(parse_port("000000000000000000000000443"), Some(443));
    assert_eq!(parse_port("+443"), Some(443));
    assert_eq!(parse_port("+0"), Some(0));
    assert_eq!(parse_port("+065535"), Some(65535));
}

#[test]
fn port_refuses_what_is_no_number() {
    for text in ["", "+", "-", "-1", "++1", "+-1", "4+3", "44 ", " 44", "4a3", "https", "0x50", "4.3", "\u{ff14}\u{ff14}\u{ff13}", "44\u{663}", "1e3"] {
        assert_eq!(parse_port(text), None, "{:?}", text);
    }
}

#[test]
fn port_agrees_with_the_standard_parser() {
    let texts = [
        "", "0", "7", "+7", "-7", "007", "65535", "65536", "+65535", "+65536", "655355", "12345",
        "123456", "+", "++", "+ 1", "1+", "a", "1a", "a1", "00000", "+00000", "99999", "429496",
        "18446744073709551616", "65535 ", "６", ":", "44:3", "٣",
    ];
    for text in texts {
        assert_eq!(parse_port(text), text.parse::<u16>().ok(), "{:?}", text);
    }
    for n in 0..=70000u32 {
        let text = n.to_string();
        assert_eq!(parse_port(&text), text.parse::<u16>().ok(), "{:?}", text);
    }
}

#[test]
fn authority_splits_into_host_and_port() {
    assert_eq!(split_authority("example.com:443"), Ok(target("example.com", 443)));
    assert_eq!(split_authority("127.0.0.1:1080"), Ok(target("127.0.0.1", 1080)));
    assert_eq!(split_authority("93.184.216.34:80"), Ok(target("93.184.216.34", 80)));
}

#[test]
fn authority_is_split_at_its_last_colon() {
    assert_eq!(split_authority("[::1]:8080"), Ok(target("[::1]", 8080)));
    assert_eq!(split_authority("[2606:2800:220:1::1]:443"), Ok(target("[2606:2800:220:1::1]", 443)));
    assert_eq!(split_authority("a:b:80"), Ok(target("a:b", 80)));
    assert_eq!(split_authority("host:80:443"), Ok(target("host:80", 443)));
}

#[test]
fn authority_may_have_an_empty_or_unusual_host() {
    assert_eq!(split_authority(":443"), Ok(target("", 443)));
    assert_eq!(split_authority("b\u{fc}cher.example:8443"), Ok(target("b\u{fc}cher.example", 8443)));
    assert_eq!(split_authority("\u{1f600}\u{1f600}:1"), Ok(target("\u{1f600}\u{1f600}", 1)));
}

#[test]
fn authority_without_a_port_is_a_protocol_violation() {
    for text in ["", "example.com", "example.com:", ":", "example.com:https", "example.com:65536", "example.com:443/", "example.com: 443", "::", "[::1]", "example.com:-1"] {
        assert_eq!(split_authority(text), Err(Termination::ProtocolViolation), "{:?}", text);
    }
}

#[test]
fn first_ipv4_address_is_preferred() {
    let addresses = vec![v6("[2606:2800::1]:443"), v4("93.184.216.34:443"), v4("93.184.216.35:443")];
    assert_eq!(choose_authority("example.com:443", &addresses), "93.184.216.34:443");
    let leading = vec![v4("10.0.0.1:80"), v6("[::1]:80")];
    assert_eq!(choose_authority("h:80", &leading), "10.0.0.1:80");
    let last = vec![v6("[::1]:80"), v6("[::2]:80"), v6("[::3]:80"), v4("10.0.0.9:80")];
    assert_eq!(choose_authority("h:80", &last), "10.0.0.9:80");
}

#[test]
fn first_address_is_taken_when_none_is_ipv4() {
    let addresses = vec![v6("[2606:2800::1]:443"), v6("[2606:2800::2]:443")];
    assert_eq!(choose_authority("example.com:443", &addresses), "[2606:2800::1]:443");
}

#[test]
fn authority_is_kept_when_nothing_was_resolved() {
    let addresses: Vec<ResolvedAddress> = Vec::new();
    assert_eq!(choose_authority("example.com:443", &addresses), "example.com:443");
}

#[test]
fn target_of_a_hostname_is_its_first_ipv4_address() {
    let addresses = vec![v6("[2606:2800::1]:443"), v4("93.184.216.34:443")];
    assert_eq!(connect_target("example.com:443", &addresses), Ok(target("93.184.216.34", 443)));
}

#[test]
fn target_of_a_literal_ipv4_authority_is_itself() {
    let addresses = vec![v4("192.0.2.7:8443")];
    assert_eq!(connect_target("192.0.2.7:8443", &addresses), Ok(target("192.0.2.7", 8443)));
}

#[test]
fn target_of_an_ipv6_only_host_is_its_first_address() {
    let addresses = vec![v6("[2001:db8::1]:443"), v6("[2001:db8::2]:443")];
    assert_eq!(connect_target("v6.example:443", &addresses), Ok(target("[2001:db8::1]", 443)));
}

#[test]
fn target_needs_a_port_in_the_chosen_authority() {
    let none: Vec<ResolvedAddress> = Vec::new();
    assert_eq!(connect_target("example.com", &none), Err(Termination::ProtocolViolation));
    assert_eq!(connect_target("example.com:443", &none), Ok(target("example.com", 443)));
    let odd = vec![v4("93.184.216.34")];
    assert_eq!(connect_target("example.com:443", &odd), Err(Termination::ProtocolViolation));
}
