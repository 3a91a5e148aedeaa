use ql_zmq_stats::{
    client_identity, identity_from, subscriber_settings, without_hyphens, HEARTBEAT_MS,
    PLAIN_USERNAME, ZAP_DOMAIN,
};

fn is_lower_hex_text(s: &str) -> bool {
    s.chars().all(|c| c.is_ascii_digit() || ('a'..='f').contains(&c))
}

#[test]
fn removes_every_hyphen() {
    assert_eq!(without_hyphens("a-b--c-"), "abc");
    assert_eq!(without_hyphens("---"), "");
    assert_eq!(without_hyphens("plain"), "plain");
}

#[test]
fn given_identity_is_kept() {
    assert_eq!(identity_from("me", "123e4567-e89b-12d3-a456-426614174000"), "me");
    assert_eq!(client_identity("client-7"), "client-7");
}

#[test]
fn empty_identity_uses_uuid_without_hyphens() {
    assert_eq!(
        identity_from("", "123e4567-e89b-12d3-a456-426614174000"),
        "123e4567e89b12d3a456426614174000"
    );
}

#[test]
fn generated_identity_is_32_hex_digits() {
    let a = client_identity("");
    let b = client_identity("");
    assert_eq!(a.len(), 32);
    assert!(is_lower_hex_text(&a));
    assert_ne!(a, b);
}

#[test]
fn settings_without_password() {
    let s = subscriber_settings("", "id");
    assert_eq!(s.username, "stats");
    assert_eq!(s.password, None);
    assert_eq!(s.identity, "id");
    assert_eq!(s.recv_timeout, 0);
    assert_eq!(s.recv_high_water_mark, 0);
    assert_eq!(s.send_timeout, 0);
    assert_eq!(s.send_high_water_mark, 0);
    assert_eq!(s.heartbeat_interval, 600_000);
    assert_eq!(s.heartbeat_timeout, 600_000);
    assert_eq!(s.zap_domain, "stats");
}

#[test]
fn settings_with_password_and_generated_identity() {
    let s = subscriber_settings("secret", "");
    assert_eq!(s.password, Some("secret".to_string()));
    assert_eq!(s.identity.len(), 32);
    assert!(is_lower_hex_text(&s.identity));
    assert_eq!(PLAIN_USERNAME, "stats");
    assert_eq!(ZAP_DOMAIN, "stats");
    assert_eq!(HEARTBEAT_MS, 600_000);
}
