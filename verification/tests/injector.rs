use omnichat::recipe::injector::{build_injection_js, css_injection, file_cache_json, js_escape, notification_patch, recipe_config_json, RecipeFiles};
use omnichat::recipe::model::Recipe;
use omnichat::service::config::ServiceConfig;

fn recipe(webview: Option<&str>, dark: Option<&str>) -> Recipe {
    Recipe {
        id: "slack".into(),
        name: "Slack".into(),
        version: "1.0".into(),
        description: String::new(),
        path: "/r/sl'ack".into(),
        service_url: "https://{teamId}.slack.com".into(),
        has_direct_messages: true,
        has_indirect_messages: false,
        has_notification_sound: false,
        has_team_id: true,
        has_custom_url: false,
        has_hosted_option: false,
        url_input_prefix: String::new(),
        url_input_suffix: String::new(),
        disable_web_security: false,
        message: String::new(),
        webview_js: webview.map(|s| s.to_string()),
        darkmode_css: dark.map(|s| s.to_string()),
    }
}

fn no_files() -> RecipeFiles {
    RecipeFiles { service_css: None, darkmode_css: None, webview_unsafe_js: None, user_css: None, user_js: None }
}

#[test]
fn js_escape_matches_chained_replacements() {
    for s in ["plain", "a'b\"c\\d\ne\rf", "''", "\\'", "ünï\u{2028}"] {
        let expected = s.replace('\\', "\\\\").replace('\'', "\\'").replace('"', "\\\"").replace('\n', "\\n").replace('\r', "");
        assert_eq!(js_escape(s), expected);
    }
}

#[test]
fn css_injection_escapes_for_single_quotes() {
    let css = "a{content:'x\\y'}\r\nb{}";
    let e = css.replace('\\', "\\\\").replace('\'', "\\'").replace('\n', "\\n").replace('\r', "");
    let expected = format!("(function(){{var s=document.createElement('style');s.textContent='{e}';(document.head||document.documentElement).appendChild(s);}})();\n");
    assert_eq!(css_injection(css), expected);
    assert!(css_injection("\"q\"").contains("\"q\""));
}

#[test]
fn file_cache_lists_present_files_in_key_order() {
    let mut f = no_files();
    assert_eq!(file_cache_json(&f), "{}");
    f.user_js = Some("x();".into());
    f.darkmode_css = Some("a{}".into());
    f.webview_unsafe_js = Some("say(\"hi\")".into());
    assert_eq!(
        file_cache_json(&f),
        r#"{"darkmode.css":"a{}","user.js":"x();","webview-unsafe.js":"say(\"hi\")"}"#
    );
}

#[test]
fn recipe_config_json_is_sorted_and_escaped() {
    let mut s = ServiceConfig::new("s1".into(), "slack".into(), "W\"ork".into());
    s.team = Some("acme".into());
    let j = recipe_config_json("s1", &s, &recipe(None, None));
    assert_eq!(
        j,
        r#"{"customUrl":null,"id":"s1","isDarkModeEnabled":false,"isMuted":false,"isNotificationEnabled":true,"name":"W\"ork","recipe":{"id":"slack","name":"Slack","path":"/r/sl'ack","version":"1.0"},"team":"acme"}"#
    );
}

#[test]
fn injection_script_parts_in_order() {
    let mut s = ServiceConfig::new("s'1".into(), "slack".into(), "Work".into());
    s.is_dark_mode_enabled = true;
    let mut f = no_files();
    f.service_css = Some(".a{}".into());
    let shim = "ID=__SERVICE_ID__;N=__SERVICE_NAME__;R=__RECIPE_ID__;";
    let js = build_injection_js(shim, "s'1", &s, &recipe(Some("module.exports=function(){};"), Some(".dark{}")), &f);
    assert!(js.starts_with("if(!window.__omnichat_injected){window.__omnichat_injected=true;\nID=s\\'1;N=Work;R=slack;\n"));
    assert!(js.ends_with("}\n"));
    let patch = js.find(&notification_patch()).unwrap();
    let css = js.find(".a{}").unwrap();
    let module = js.find("module.exports=function(){};").unwrap();
    let dark = js.find(".dark{}").unwrap();
    assert!(patch < css && css < module && module < dark);
    assert!(js.contains("var __dirname = '/r/sl\\'ack';"));
    assert!(js.contains("/* already injected */"));
}

#[test]
fn injection_without_recipe_script_or_dark_mode() {
    let s = ServiceConfig::new("s1".into(), "slack".into(), "Work".into());
    let js = build_injection_js("", "s1", &s, &recipe(None, Some(".dark{}")), &no_files());
    let expected = format!(
        "if(!window.__omnichat_injected){{window.__omnichat_injected=true;\n\n{}\n}}\n",
        notification_patch()
    );
    assert_eq!(js, expected);
}

#[test]
fn recipe_effective_url() {
    let r = recipe(None, None);
    assert_eq!(r.effective_url(Some("https://c"), Some("t")), "https://c");
    assert_eq!(r.effective_url(Some(""), Some("t")), "https://t.slack.com");
    assert_eq!(r.effective_url(None, None), "https://{teamId}.slack.com");
}
