use balladi_drive::settings::{
    compute_client_fingerprint, is_allowed_webhook_url, load_managed_oauth_credentials,
    load_rclone_oauth_credentials, load_rclone_oauth_credentials_from_settings, prepare_settings_for_save, public_settings,
    webhook_target, AppSettings, RcloneOAuthCredentials,
};

fn settings(mode: &str, id: Option<&str>, secret: Option<&str>, webhook: &str) -> AppSettings {
    AppSettings {
        oauth_mode: mode.to_string(),
        connected_client_fingerprint: None,
        custom_client_id: id.map(|s| s.to_string()),
        custom_client_secret: secret.map(|s| s.to_string()),
        webhook_url: webhook.to_string(),
        notify_on_complete: true,
    }
}

#[test]
fn test_debug_formatting_redacts_secrets() {
    let creds = RcloneOAuthCredentials {
        client_id: "my-public-client-id.apps.googleusercontent.com".to_string(),
        client_secret: "super-secret-oauth-value".to_string(),
    };
    let creds_debug = creds.redacted_debug();
    assert!(creds_debug.contains("my-public-client-id.apps.googleusercontent.com"));
    assert!(!creds_debug.contains("super-secret-oauth-value"));
    assert!(creds_debug.contains("[REDACTED]"));

    let settings = AppSettings {
        oauth_mode: "custom".to_string(),
        connected_client_fingerprint: Some("sha256:v1:test".to_string()),
        custom_client_id: Some("custom-id.apps.googleusercontent.com".to_string()),
        custom_client_secret: Some("raw-custom-secret-999".to_string()),
        webhook_url: "https://discord.com/api/webhooks/123/secret-token".to_string(),
        notify_on_complete: true,
    };
    let settings_debug = settings.redacted_debug();
    assert!(!settings_debug.contains("raw-custom-secret-999"));
    assert!(!settings_debug.contains("secret-token"));
    assert!(settings_debug.contains("[REDACTED]"));
    assert!(settings_debug.contains("[REDACTED_WEBHOOK_URL]"));
}

#[test]
fn debug_text_has_the_shape_of_derived_debug() {
    let creds = RcloneOAuthCredentials { client_id: "a\"b".to_string(), client_secret: "s".to_string() };
    assert_eq!(
        creds.redacted_debug(),
        "RcloneOAuthCredentials { client_id: \"a\\\"b\", client_secret: \"[REDACTED]\" }"
    );
    let s = AppSettings::default();
    assert_eq!(
        s.redacted_debug(),
        "AppSettings { oauth_mode: \"managed\", connected_client_fingerprint: None, custom_client_id: None, custom_client_secret: None, webhook_url: \"\", notify_on_complete: true }"
    );
}

#[test]
fn test_load_rclone_oauth_credentials_custom_mode() {
    let mut custom_settings = AppSettings {
        oauth_mode: "custom".to_string(),
        connected_client_fingerprint: None,
        custom_client_id: Some("custom-id.apps.googleusercontent.com".to_string()),
        custom_client_secret: Some("custom-secret".to_string()),
        webhook_url: "".to_string(),
        notify_on_complete: true,
    };

    let creds = load_rclone_oauth_credentials_from_settings(&custom_settings, &None, &None).unwrap();
    assert_eq!(creds.client_id, "custom-id.apps.googleusercontent.com");
    assert_eq!(creds.client_secret, "custom-secret");

    // Custom mode with missing secret fails closed
    custom_settings.custom_client_secret = Some("".to_string());
    assert!(load_rclone_oauth_credentials_from_settings(&custom_settings, &None, &None).is_err());
}

#[test]
fn custom_mode_trims_and_requires_both_values() {
    let s = settings("custom", Some("  id  "), Some("\tsec\n"), "");
    let creds = load_rclone_oauth_credentials_from_settings(&s, &None, &None).unwrap();
    assert_eq!(creds.client_id, "id");
    assert_eq!(creds.client_secret, "sec");
    let missing = settings("custom", None, Some("sec"), "");
    assert_eq!(
        load_rclone_oauth_credentials_from_settings(&missing, &Some("b".into()), &Some("c".into()))
            .err()
            .unwrap(),
        "Custom OAuth mode is selected, but custom client ID or secret is missing."
    );
}

#[test]
fn managed_mode_uses_the_baked_client() {
    let s = settings("managed", Some("ignored"), Some("ignored"), "");
    let creds = load_rclone_oauth_credentials_from_settings(
        &s,
        &Some(" baked-id ".to_string()),
        &Some("baked-secret".to_string()),
    )
    .unwrap();
    assert_eq!(creds.client_id, "baked-id");
    assert_eq!(creds.client_secret, "baked-secret");
    assert_eq!(
        load_managed_oauth_credentials(&None, &Some("x".to_string())).err().unwrap(),
        "This Balladi Drive build is missing managed Google OAuth credentials."
    );
    assert!(load_managed_oauth_credentials(&Some("  ".to_string()), &Some("x".to_string())).is_err());
}

#[test]
fn test_compute_client_fingerprint_deterministic_and_unique() {
    let fp1 = compute_client_fingerprint("client-123.apps.googleusercontent.com");
    let fp2 = compute_client_fingerprint("client-123.apps.googleusercontent.com");
    let fp3 = compute_client_fingerprint("client-456.apps.googleusercontent.com");

    assert_eq!(fp1, fp2);
    assert_ne!(fp1, fp3);
    assert!(fp1.starts_with("sha256:v1:"));
    // SHA-256 hex is 64 chars + "sha256:v1:" prefix (10 chars) = 74 chars
    assert_eq!(fp1.len(), 74);
}

#[test]
fn client_fingerprint_is_sha256_of_trimmed_id() {
    // SHA-256("abc")
    assert_eq!(
        compute_client_fingerprint("  abc \n"),
        "sha256:v1:ba7816bf8f01cfea414140de5dae2223b00361a396177a9cb410ff61f20015ad"
    );
}

#[test]
fn test_public_settings_does_not_expose_raw_secrets() {
    let settings = AppSettings {
        oauth_mode: "custom".to_string(),
        connected_client_fingerprint: Some("sha256:v1:abc123".to_string()),
        custom_client_id: Some("custom-id".to_string()),
        custom_client_secret: Some("raw_secret_value_12345".to_string()),
        webhook_url: "https://discord.com/api/webhooks/123/abc".to_string(),
        notify_on_complete: true,
    };

    let pub_settings = public_settings(&settings);
    assert!(!pub_settings.is_managed);
    assert!(pub_settings.has_custom_client_id);
    assert!(pub_settings.has_custom_client_secret);
    assert!(pub_settings.has_webhook_url);

    // The JSON the user interface receives, field by field.
    let mut obj = serde_json::Map::new();
    obj.insert("oauth_mode".to_string(), serde_json::Value::from(pub_settings.oauth_mode.clone()));
    obj.insert("is_managed".to_string(), serde_json::Value::from(pub_settings.is_managed));
    obj.insert(
        "connected_client_fingerprint".to_string(),
        serde_json::Value::from(pub_settings.connected_client_fingerprint.clone()),
    );
    obj.insert("has_custom_client_id".to_string(), serde_json::Value::from(pub_settings.has_custom_client_id));
    obj.insert(
        "has_custom_client_secret".to_string(),
        serde_json::Value::from(pub_settings.has_custom_client_secret),
    );
    obj.insert("has_webhook_url".to_string(), serde_json::Value::from(pub_settings.has_webhook_url));
    obj.insert("notify_on_complete".to_string(), serde_json::Value::from(pub_settings.notify_on_complete));
    let json = serde_json::to_string(&serde_json::Value::Object(obj)).unwrap();
    // Plaintext secret value is NEVER exposed in the public JSON
    assert!(!json.contains("raw_secret_value_12345"));
    assert!(json.contains("has_custom_client_secret\":true"));
    assert!(json.contains("sha256:v1:abc123"));
    assert!(json.contains("is_managed\":false"));
}

#[test]
fn public_settings_count_blank_values_as_absent() {
    let s = settings("managed", Some("   "), None, "  ");
    let p = public_settings(&s);
    assert!(p.is_managed);
    assert!(!p.has_custom_client_id);
    assert!(!p.has_custom_client_secret);
    assert!(!p.has_webhook_url);
    assert_eq!(p.oauth_mode, "managed");
}

#[test]
fn test_webhook_allowlist_valid() {
    assert!(is_allowed_webhook_url("https://discord.com/api/webhooks/123/abc").is_ok());
    assert!(is_allowed_webhook_url("https://hooks.slack.com/services/T00/B00/X00").is_ok());
    assert!(is_allowed_webhook_url("https://subdomain.webhook.office.com/webhookb2/xyz").is_ok());
}

#[test]
fn test_webhook_allowlist_rejects_ssrf_and_http() {
    assert!(is_allowed_webhook_url("http://discord.com/api/webhooks/123/abc").is_err());
    assert!(is_allowed_webhook_url("https://127.0.0.1/webhook").is_err());
    assert!(is_allowed_webhook_url("https://evil.com/webhook").is_err());
}

#[test]
fn webhook_errors_name_the_reason() {
    assert_eq!(
        is_allowed_webhook_url("http://discord.com/x").err().unwrap(),
        "Webhook URL must use secure HTTPS"
    );
    assert_eq!(
        is_allowed_webhook_url("https://EVIL.com/x").err().unwrap(),
        "Host 'evil.com' is not an approved webhook provider (Slack, Discord, Microsoft Teams)"
    );
    assert!(is_allowed_webhook_url("not a url").err().unwrap().starts_with("Invalid URL: "));
    // A look-alike domain is not a subdomain of a provider.
    assert!(is_allowed_webhook_url("https://notdiscord.com/x").is_err());
    let ok = is_allowed_webhook_url("https://Discord.com/api").unwrap();
    assert_eq!(ok.scheme, "https");
    assert_eq!(ok.host, Some("discord.com".to_string()));
    assert_eq!(ok.href, "https://discord.com/api");
}

#[test]
fn save_restores_masked_values_from_stored() {
    let stored = AppSettings {
        oauth_mode: "custom".to_string(),
        connected_client_fingerprint: Some("sha256:v1:old".to_string()),
        custom_client_id: Some("stored-id".to_string()),
        custom_client_secret: Some("stored-secret".to_string()),
        webhook_url: "https://hooks.slack.com/services/a".to_string(),
        notify_on_complete: true,
    };
    let incoming = AppSettings {
        oauth_mode: "custom".to_string(),
        connected_client_fingerprint: None,
        custom_client_id: Some("new-id".to_string()),
        custom_client_secret: Some("••••••".to_string()),
        webhook_url: "__PRESERVE__".to_string(),
        notify_on_complete: false,
    };
    let saved = prepare_settings_for_save(incoming, Some(stored)).unwrap();
    assert_eq!(saved.custom_client_id, Some("new-id".to_string()));
    assert_eq!(saved.custom_client_secret, Some("stored-secret".to_string()));
    assert_eq!(saved.webhook_url, "https://hooks.slack.com/services/a");
    assert_eq!(saved.connected_client_fingerprint, Some("sha256:v1:old".to_string()));
    assert!(!saved.notify_on_complete);
}

#[test]
fn save_rejects_disallowed_webhook() {
    let incoming = settings("managed", None, None, "https://evil.com/hook");
    assert!(prepare_settings_for_save(incoming, None).is_err());
    let blank = settings("managed", None, None, "   ");
    assert!(prepare_settings_for_save(blank, None).is_ok());
}

#[test]
fn webhook_target_only_when_enabled_and_set() {
    let mut s = settings("managed", None, None, "https://hooks.slack.com/services/x");
    assert!(webhook_target(&s).unwrap().is_some());
    s.notify_on_complete = false;
    assert!(webhook_target(&s).unwrap().is_none());
    s.notify_on_complete = true;
    s.webhook_url = "".to_string();
    assert!(webhook_target(&s).unwrap().is_none());
    s.webhook_url = "http://hooks.slack.com/x".to_string();
    assert!(webhook_target(&s).is_err());
}

#[test]
fn missing_settings_fall_back_to_the_managed_client() {
    let creds = load_rclone_oauth_credentials(None, &Some("baked".into()), &Some("secret".into())).unwrap();
    assert_eq!(creds.client_id, "baked");
    assert!(load_rclone_oauth_credentials(None, &None, &None).is_err());
    let custom = settings("custom", Some("id"), Some("sec"), "");
    let creds = load_rclone_oauth_credentials(Some(custom), &None, &None).unwrap();
    assert_eq!(creds.client_secret, "sec");
}
