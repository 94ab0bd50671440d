use ug2_client::client_ip::extract_real_ip;

#[test]
fn peer_address_without_trust() {
    assert_eq!(extract_real_ip(Some("1.1.1.1"), Some("2.2.2.2"), None, "9.9.9.9", false), "9.9.9.9");
}

#[test]
fn cloudflare_header_first() {
    assert_eq!(extract_real_ip(Some(" 1.1.1.1 "), Some("2.2.2.2"), None, "9.9.9.9", true), "1.1.1.1");
}

#[test]
fn first_forwarded_entry() {
    assert_eq!(
        extract_real_ip(None, Some(" 2.2.2.2 , 3.3.3.3"), Some("4.4.4.4"), "9.9.9.9", true),
        "2.2.2.2"
    );
}

#[test]
fn empty_forwarded_entry_falls_through() {
    assert_eq!(extract_real_ip(None, Some(" ,3.3.3.3"), Some(" 4.4.4.4"), "9.9.9.9", true), "4.4.4.4");
    assert_eq!(extract_real_ip(None, Some(""), None, "9.9.9.9", true), "9.9.9.9");
}
