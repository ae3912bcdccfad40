use image_cache::clock::now_in_secs;
use image_cache::models::{Login, Register, Token, TorrentTag};

#[test]
fn the_clock_reads_a_plausible_time() {
    let now = now_in_secs();
    // Some moment after 2020 and before the year 2100.
    assert!(now > 1_577_836_800);
    assert!(now < 4_102_444_800);
    assert!(now_in_secs() >= now);
}

#[test]
fn model_types_carry_their_fields() {
    let tag = TorrentTag { tag_id: 4, name: "linux".to_string() };
    assert_eq!(tag.tag_id, 4);
    assert_eq!(tag.name, "linux");

    let reg = Register {
        username: "alice".to_string(),
        email: Some("alice@example.com".to_string()),
        password: "secret".to_string(),
        confirm_password: "secret".to_string(),
        invitation: None,
    };
    let copy = reg.clone();
    assert_eq!(copy.username, "alice");
    assert_eq!(copy.email.as_deref(), Some("alice@example.com"));
    assert!(copy.invitation.is_none());

    let login = Login { login: "alice".to_string(), password: "secret".to_string() };
    assert_eq!(login.clone().login, "alice");

    let token = Token { token: "abc".to_string() };
    assert_eq!(token.clone().token, "abc");
}
