use wecom_proxy::config::WecomAppConfig;

fn some(s: &str) -> Option<String> {
    Some(s.to_string())
}

#[test]
fn all_values_present() {
    let config = WecomAppConfig::from_values(
        some("S1"),
        some("C"),
        some("K"),
        some("A"),
        some("u1"),
    )
    .unwrap();
    assert_eq!(config.auth_key, "S1");
    assert_eq!(config.wecom_cid, "C");
    assert_eq!(config.wecom_secret, "K");
    assert_eq!(config.wecom_aid, "A");
    assert_eq!(config.wecom_touid, "u1");
}

#[test]
fn recipient_defaults_to_broadcast() {
    let config =
        WecomAppConfig::from_values(some("S1"), some("C"), some("K"), some("A"), None).unwrap();
    assert_eq!(config.wecom_touid, "@all");
}

#[test]
fn missing_auth_key_fails() {
    let r = WecomAppConfig::from_values(None, some("C"), some("K"), some("A"), None);
    assert_eq!(r.unwrap_err(), "AUTH_KEY not found");
}

#[test]
fn missing_corp_id_fails() {
    let r = WecomAppConfig::from_values(some("S1"), None, some("K"), some("A"), None);
    assert_eq!(r.unwrap_err(), "WECOM_CID not found");
}

#[test]
fn missing_corp_secret_fails() {
    let r = WecomAppConfig::from_values(some("S1"), some("C"), None, some("A"), None);
    assert_eq!(r.unwrap_err(), "WECOM_SECRET not found");
}

#[test]
fn missing_agent_id_fails() {
    let r = WecomAppConfig::from_values(some("S1"), some("C"), some("K"), None, None);
    assert_eq!(r.unwrap_err(), "WECOM_AID not found");
}

#[test]
fn first_missing_value_named_first() {
    let r = WecomAppConfig::from_values(None, None, None, None, None);
    assert_eq!(r.unwrap_err(), "AUTH_KEY not found");
}

#[test]
fn missing_recipient_alone_does_not_fail() {
    let r = WecomAppConfig::from_values(some("S1"), some("C"), some("K"), some("A"), None);
    assert!(r.is_ok());
}
