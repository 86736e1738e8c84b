use omnichat::app::{load_error_page, profile_dir_name, with_theme};
use omnichat::ipc::badges::badges_json;
use omnichat::ipc::pages::{build_picker_html, build_settings_html, count_occurrences, recipe_catalog_json, sidebar_init_js, sidebar_update_js};
use omnichat::recipe::model::Recipe;
use omnichat::service::config::ServiceConfig;
use omnichat::service::manager::ServiceManager;

fn recipe(id: &str, name: &str, team: bool) -> Recipe {
    Recipe {
        id: id.into(),
        name: name.into(),
        version: "0.0.0".into(),
        description: String::new(),
        path: String::new(),
        service_url: format!("https://{id}.com"),
        has_direct_messages: true,
        has_indirect_messages: false,
        has_notification_sound: false,
        has_team_id: team,
        has_custom_url: false,
        has_hosted_option: false,
        url_input_prefix: String::new(),
        url_input_suffix: String::new(),
        disable_web_security: false,
        message: String::new(),
        webview_js: None,
        darkmode_css: None,
    }
}

#[test]
fn theme_is_injected_at_sentinel_only() {
    assert_eq!(with_theme("a/*__THEME__*/b", "X{}"), "aX{}b");
    assert_eq!(with_theme("no sentinel", "X"), "no sentinel");
}

#[test]
fn settings_page_fills_placeholders() {
    let html = build_settings_html("[1]", "{\"x\":true}", ":root{--a:1}");
    assert!(html.contains("var services = [1];"));
    assert!(html.contains("var settings = {\"x\":true};"));
    assert!(html.contains(":root{--a:1}"));
    assert!(!html.contains("{{"));
    assert!(!html.contains("/*__THEME__*/"));
    assert!(html.contains("function sendIPC(msg) { window.location.href"));
}

#[test]
fn picker_page_counts_recipes() {
    let json = recipe_catalog_json(&vec![recipe("slack", "Slack", true), recipe("x", "X\"", false)]);
    assert_eq!(
        json,
        r#"[{"hasTeamId":true,"id":"slack","name":"Slack","url":"https://slack.com"},{"hasTeamId":false,"id":"x","name":"X\"","url":"https://x.com"}]"#
    );
    assert_eq!(count_occurrences(&json, "\"id\""), 2);
    let html = build_picker_html(&json, "T");
    assert!(html.contains("Choose from 2 available services"));
    assert!(html.contains(&format!("var recipes = {json};")));
    assert_eq!(recipe_catalog_json(&Vec::new()), "[]");
    assert!(build_picker_html("[]", "").contains("Choose from 0 available"));
}

#[test]
fn sidebar_scripts() {
    assert_eq!(
        sidebar_update_js("[]", Some("a"), "{}"),
        "if(window.__omnichat_sidebar) { window.__omnichat_sidebar.updateServices([], \"a\", {}); }"
    );
    assert_eq!(
        sidebar_init_js("[]", None, "[1]"),
        "if(window.__omnichat_sidebar) { window.__omnichat_sidebar.updateServices([], null); window.__omnichat_sidebar.setRecipes([1]); }"
    );
}

#[test]
fn badges_are_keyed_by_id_in_order() {
    let ids = ["zeta", "alpha", "mid", "alpha"];
    let configs: Vec<ServiceConfig> = ids.iter().map(|i| ServiceConfig::new(i.to_string(), "r".into(), "n".into())).collect();
    let mut m = ServiceManager::new(configs);
    m.update_badge("mid", 3, 4);
    assert_eq!(
        badges_json(&m),
        r#"{"alpha":{"direct":0,"indirect":0},"mid":{"direct":3,"indirect":4},"zeta":{"direct":0,"indirect":0}}"#
    );
    assert_eq!(badges_json(&ServiceManager::new(Vec::new())), "{}");
}

#[test]
fn profile_names_are_sanitized() {
    assert_eq!(profile_dir_name("ab-C_9"), "profile-ab-C_9");
    assert_eq!(profile_dir_name("a/b c.é"), "profile-a_b_c__");
}

#[test]
fn load_error_page_shows_url() {
    let html = load_error_page("https://x.test/");
    assert!(html.starts_with("<html><body"));
    assert!(html.contains("<h2>Failed to load</h2><p>https://x.test/</p>"));
}

#[test]
fn json_strings_are_escaped_like_serde_json() {
    let json = recipe_catalog_json(&vec![recipe("e", "q\"b\\\u{8}\t\n\u{c}\r\u{1}\u{1f}é/\u{7f}", false)]);
    assert_eq!(
        json,
        "[{\"hasTeamId\":false,\"id\":\"e\",\"name\":\"q\\\"b\\\\\\b\\t\\n\\f\\r\\u0001\\u001fé/\u{7f}\",\"url\":\"https://e.com\"}]"
    );
}
