use twitton::identity::Environment;

fn full_config() -> (
    Option<String>,
    Option<String>,
    Option<String>,
    Option<String>,
    Option<String>,
) {
    (
        Some("example.com".to_string()),
        Some("example.social".to_string()),
        Some("admin".to_string()),
        Some("-----BEGIN PUBLIC KEY-----\nabc\n-----END PUBLIC KEY-----".to_string()),
        None,
    )
}

#[test]
fn config_derives_handle_and_urls() {
    let (w, l, u, p, i) = full_config();
    let env = Environment::from_config(w, l, u, p, i).unwrap();
    assert_eq!(env.web_domain, "example.com");
    assert_eq!(env.local_domain, "example.social");
    assert_eq!(env.admin_username, "admin");
    assert_eq!(env.admin_username_domain, "admin@example.social");
    assert_eq!(env.admin_profile_url, "https://example.com/user/admin");
    assert_eq!(
        env.subscribe_url,
        "https://example.com/authorize_interaction?uri={uri}"
    );
    assert_eq!(env.shared_inbox_url, "https://example.com/inbox");
    assert_eq!(
        env.admin_public_key_pem,
        "-----BEGIN PUBLIC KEY-----\nabc\n-----END PUBLIC KEY-----"
    );
    assert!(env.admin_icon_url.is_none());
}

#[test]
fn config_keeps_icon_when_given() {
    let (w, l, u, p, _) = full_config();
    let env =
        Environment::from_config(w, l, u, p, Some("https://example.com/icon.png".to_string()))
            .unwrap();
    assert_eq!(
        env.admin_icon_url,
        Some("https://example.com/icon.png".to_string())
    );
}

#[test]
fn config_missing_value_names_its_key() {
    let (_, l, u, p, i) = full_config();
    let err = Environment::from_config(None, l, u, p, i).unwrap_err();
    assert_eq!(err.key, "WEB_DOMAIN");

    let (w, _, u, p, i) = full_config();
    let err = Environment::from_config(w, None, u, p, i).unwrap_err();
    assert_eq!(err.key, "LOCAL_DOMAIN");

    let (w, l, _, p, i) = full_config();
    let err = Environment::from_config(w, l, None, p, i).unwrap_err();
    assert_eq!(err.key, "ADMIN_USERNAME");

    let (w, l, u, _, i) = full_config();
    let err = Environment::from_config(w, l, u, None, i).unwrap_err();
    assert_eq!(err.key, "ADMIN_PUBLIC_KEY_PEM");
}

#[test]
fn config_blank_value_is_missing() {
    let (w, l, _, p, i) = full_config();
    let err = Environment::from_config(w, l, Some("".to_string()), p, i).unwrap_err();
    assert_eq!(err.key, "ADMIN_USERNAME");

    let (w, l, _, p, i) = full_config();
    let err = Environment::from_config(w, l, Some(" \t\n ".to_string()), p, i).unwrap_err();
    assert_eq!(err.key, "ADMIN_USERNAME");
}

#[test]
fn config_reports_first_missing_key() {
    let err = Environment::from_config(None, None, None, None, None).unwrap_err();
    assert_eq!(err.key, "WEB_DOMAIN");

    let (w, _, _, p, i) = full_config();
    let err = Environment::from_config(w, Some("  ".to_string()), None, p, i).unwrap_err();
    assert_eq!(err.key, "LOCAL_DOMAIN");
}

#[test]
fn config_error_message_names_the_key() {
    let (_, l, u, p, i) = full_config();
    let err = Environment::from_config(None, l, u, p, i).unwrap_err();
    assert_eq!(err.message(), "missing env: WEB_DOMAIN");
}

#[test]
fn config_value_with_inner_content_is_kept_verbatim() {
    let (w, l, _, p, i) = full_config();
    let env = Environment::from_config(w, l, Some(" admin ".to_string()), p, i).unwrap();
    assert_eq!(env.admin_username, " admin ");
}

#[test]
fn direct_inbox_url_formats_per_user_inbox() {
    let (w, l, u, p, i) = full_config();
    let env = Environment::from_config(w, l, u, p, i).unwrap();
    assert_eq!(
        env.direct_inbox_url("admin"),
        "https://example.com/user/admin/inbox"
    );
    assert_eq!(
        env.direct_inbox_url("other"),
        "https://example.com/user/other/inbox"
    );
}
