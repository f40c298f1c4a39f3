use hardware_id::mac::mac_identifier;
use hardware_id::mac::mac_strategy_identifier;
use hardware_id::mac::normalize_mac_text;

#[test]
fn mac_bytes_format_as_uppercase_hex_with_tag() {
    let id = mac_identifier(Some([0xAA, 0xBB, 0xCC, 0xDD, 0xEE, 0xFF]));
    assert_eq!(id.as_str(), "MAC-AABBCCDDEEFF");
}

#[test]
fn mac_bytes_keep_leading_zeros() {
    let id = mac_identifier(Some([0x0A, 0x00, 0x01, 0x99, 0xF0, 0x0F]));
    assert_eq!(id.as_str(), "MAC-0A000199F00F");
}

#[test]
fn absent_mac_yields_unknown_sentinel() {
    let id = mac_identifier(None);
    assert_eq!(id.as_str(), "MAC-UNKNOWN");
}

#[test]
fn mac_text_normalization_strips_separators() {
    let id = normalize_mac_text("AA:BB:CC:DD:EE:FF");
    assert_eq!(id.as_str(), "MAC-AABBCCDDEEFF");
}

#[test]
fn mac_text_normalization_uppercases_hex_digits() {
    let id = normalize_mac_text("aa:bb:cc:dd:ee:ff");
    assert_eq!(id.as_str(), "MAC-AABBCCDDEEFF");
}

#[test]
fn mac_text_normalization_of_empty_text_is_bare_tag() {
    let id = normalize_mac_text("");
    assert_eq!(id.as_str(), "MAC-");
}

#[test]
fn mac_strategy_is_tagged_and_idempotent() {
    let a = mac_strategy_identifier();
    let b = mac_strategy_identifier();
    assert!(a.as_str().starts_with("MAC-"));
    assert_eq!(a.as_str(), b.as_str());
}
