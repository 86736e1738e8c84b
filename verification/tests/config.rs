use omnichat::service::config::ServiceConfig;

fn svc(recipe: &str) -> ServiceConfig {
    ServiceConfig::new("id1".into(), recipe.into(), "Name".into())
}

#[test]
fn custom_url_wins_over_recipe() {
    let mut s = svc("slack");
    s.custom_url = Some("https://custom.example".into());
    assert_eq!(
        s.effective_url_with_recipe("https://{teamId}.slack.com"),
        "https://custom.example"
    );
}

#[test]
fn team_id_substituted_when_present() {
    let mut s = svc("slack");
    s.team = Some("acme".into());
    assert_eq!(
        s.effective_url_with_recipe("https://{teamId}.slack.com"),
        "https://acme.slack.com"
    );
}

#[test]
fn team_id_stripped_when_absent() {
    let s = svc("slack");
    assert_eq!(
        s.effective_url_with_recipe("https://{teamId}.slack.com"),
        "https://.slack.com"
    );
}

#[test]
fn falls_back_to_recipe_dot_com_when_no_url() {
    let s = svc("whatsapp");
    assert_eq!(s.effective_url_with_recipe(""), "https://whatsapp.com");
}

#[test]
fn empty_custom_url_does_not_win() {
    let mut s = svc("slack");
    s.custom_url = Some(String::new());
    assert_eq!(
        s.effective_url_with_recipe("https://web.slack.com"),
        "https://web.slack.com"
    );
}

#[test]
fn new_service_has_documented_defaults() {
    let s = svc("slack");
    assert_eq!(s.id, "id1");
    assert_eq!(s.recipe_id, "slack");
    assert_eq!(s.name, "Name");
    assert!(s.team.is_none() && s.custom_url.is_none() && s.proxy.is_none());
    assert_eq!(s.sort_order, 0);
    assert!(s.is_enabled && s.is_notification_enabled && s.is_badge_enabled && s.is_hibernation_enabled);
    assert!(!s.is_muted && !s.is_dark_mode_enabled);
}

#[test]
fn effective_url_without_recipe_uses_generic_domain() {
    let mut s = svc("discord");
    assert_eq!(s.effective_url(), "https://discord.com");
    s.custom_url = Some("https://x.example/chat".into());
    assert_eq!(s.effective_url(), "https://x.example/chat");
    s.custom_url = Some(String::new());
    assert_eq!(s.effective_url(), "https://discord.com");
}

#[test]
fn every_team_placeholder_is_replaced() {
    let mut s = svc("mattermost");
    s.team = Some("t".into());
    assert_eq!(
        s.effective_url_with_recipe("https://{teamId}.x/{teamId}/{team}"),
        "https://t.x/t/{team}"
    );
}

#[test]
fn clone_keeps_every_field() {
    let mut s = svc("slack");
    s.team = Some("acme".into());
    s.sort_order = 7;
    s.is_muted = true;
    let c = s.clone();
    assert_eq!(c.team.as_deref(), Some("acme"));
    assert_eq!(c.sort_order, 7);
    assert!(c.is_muted);
    assert_eq!(c.id, s.id);
}
