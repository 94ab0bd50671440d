use ug2_client::cookies::rewrite_set_cookie;

#[test]
fn drops_domain_and_secure() {
    assert_eq!(
        rewrite_set_cookie("session=abc; Domain=.discord.com; Path=/; Secure; HttpOnly"),
        "session=abc; Path=/; HttpOnly"
    );
}

#[test]
fn same_site_none_becomes_lax() {
    assert_eq!(
        rewrite_set_cookie("a=1;SameSite=None; SECURE"),
        "a=1; SameSite=Lax"
    );
    assert_eq!(rewrite_set_cookie("a=1; samesite=strict"), "a=1; samesite=strict");
}

#[test]
fn keeps_secure_prefixed_attributes() {
    assert_eq!(rewrite_set_cookie("a=1; Securely"), "a=1; Securely");
    assert_eq!(rewrite_set_cookie(""), "");
}
