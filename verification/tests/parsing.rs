use squeeze_core::ip_text::parse_ipv4;
use squeeze_core::net::IpV4;
use squeeze_core::player::{PlayerColor, Players};

fn parsed(text: &str) -> Option<IpV4> {
    parse_ipv4(text.as_bytes())
}

#[test]
fn well_formed_addresses_parse() {
    assert_eq!(parsed("8.8.8.8"), Some(IpV4 { a: 8, b: 8, c: 8, d: 8 }));
    assert_eq!(parsed("192.168.0.1"), Some(IpV4 { a: 192, b: 168, c: 0, d: 1 }));
    assert_eq!(parsed("0.0.0.0"), Some(IpV4 { a: 0, b: 0, c: 0, d: 0 }));
    assert_eq!(parsed("255.255.255.255"), Some(IpV4 { a: 255, b: 255, c: 255, d: 255 }));
    assert_eq!(parsed("1.22.333.4"), None); // 333 is out of range
    assert_eq!(parsed("100.64.0.1"), Some(IpV4 { a: 100, b: 64, c: 0, d: 1 }));
}

#[test]
fn octets_above_255_are_rejected() {
    assert_eq!(parsed("256.1.1.1"), None);
    assert_eq!(parsed("1.1.1.999"), None);
}

#[test]
fn wrong_field_counts_are_rejected() {
    assert_eq!(parsed("1.2.3"), None);
    assert_eq!(parsed("1.2.3.4.5"), None);
    assert_eq!(parsed("1234"), None);
    assert_eq!(parsed(""), None);
}

#[test]
fn empty_fields_and_stray_dots_are_rejected() {
    assert_eq!(parsed("1..2.3"), None);
    assert_eq!(parsed(".1.2.3"), None);
    assert_eq!(parsed("1.2.3."), None);
}

#[test]
fn leading_zeros_are_rejected() {
    assert_eq!(parsed("01.2.3.4"), None);
    assert_eq!(parsed("1.2.3.04"), None);
    assert_eq!(parsed("0.00.0.0"), None);
}

#[test]
fn non_digits_and_padding_are_rejected() {
    assert_eq!(parsed("a.b.c.d"), None);
    assert_eq!(parsed("1.2.3.4 "), None);
    assert_eq!(parsed(" 1.2.3.4"), None);
    assert_eq!(parsed("1.2.+3.4"), None);
}

#[test]
fn parsed_addresses_classify_like_built_ones() {
    let ip = parsed("10.1.2.3").expect("private address parses");
    assert!(!ip.is_global_unstable());
    let ip = parsed("93.184.216.34").expect("public address parses");
    assert!(ip.is_global_unstable());
}

#[test]
fn the_roster_lists_seated_players_in_palette_order() {
    let mut players = Players::new();
    players.insert(PlayerColor::Cyan, 9);
    players.insert(PlayerColor::Blue, 4);
    let roster = players.roster();
    assert_eq!(roster, vec![(PlayerColor::Blue, 4), (PlayerColor::Cyan, 9)]);
}
