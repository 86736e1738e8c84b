use omnichat::instance::{lock_owner_pid, parse_pid};
use omnichat::app::AppState;
use omnichat::notification::{may_wait_for_click, notification_summary};
use omnichat::png::{crc32, encode_png, png_from_idat, write_png_chunk};
use omnichat::recipe::loader::{dedup_recipes, recipe_from_package_json, recipes_by_id, PackageFields};
use omnichat::recipe::model::Recipe;
use omnichat::service::config::ServiceConfig;
use omnichat::settings::AppSettings;
use omnichat::tray::{badge_count, update_badge, BadgeCounter};
use std::io::Read;

fn fields(id: Option<&str>, name: Option<&str>) -> PackageFields {
    PackageFields {
        id: id.map(|s| s.to_string()),
        name: name.map(|s| s.to_string()),
        version: None,
        description: None,
        service_url: Some("https://x".into()),
        has_direct_messages: None,
        has_indirect_messages: Some(true),
        has_notification_sound: None,
        has_team_id: None,
        has_custom_url: None,
        has_hosted_option: None,
        url_input_prefix: None,
        url_input_suffix: None,
        disable_web_security: None,
        message: None,
    }
}

fn recipe(id: &str, path: &str) -> Recipe {
    Recipe::from_package(&fields(Some(id), None), path, None, None).unwrap()
}

#[test]
fn recipe_from_package_defaults() {
    let r = Recipe::from_package(&fields(None, Some("Telegram")), "/p", Some("js".into()), None).unwrap();
    assert_eq!(r.id, "Telegram");
    assert_eq!(r.name, "Telegram");
    assert_eq!(r.version, "0.0.0");
    assert!(r.has_direct_messages && r.has_indirect_messages && !r.has_team_id);
    assert_eq!(r.path, "/p");
    assert_eq!(r.webview_js.as_deref(), Some("js"));
    let r = Recipe::from_package(&fields(Some("tg"), None), "/p", None, None).unwrap();
    assert_eq!(r.name, "tg");
    assert!(Recipe::from_package(&fields(None, None), "/p", None, None).is_err());
}

#[test]
fn recipe_from_package_json_text() {
    let text = r#"{"id":"slack","name":"Slack","version":"1.2.0","description":"Chat",
        "config":{"serviceURL":"https://{teamId}.slack.com","hasTeamId":true,"hasDirectMessages":false,
        "hasIndirectMessages":"yes","urlInputPrefix":"https://","message":7}}"#;
    let r = recipe_from_package_json(text, "/r/slack", None, Some("dark".into())).unwrap().unwrap();
    assert_eq!((r.id.as_str(), r.name.as_str(), r.version.as_str(), r.description.as_str()), ("slack", "Slack", "1.2.0", "Chat"));
    assert_eq!(r.service_url, "https://{teamId}.slack.com");
    assert!(r.has_team_id && !r.has_direct_messages);
    // A field of the wrong JSON type counts as absent.
    assert!(!r.has_indirect_messages);
    assert_eq!(r.message, "");
    assert_eq!(r.url_input_prefix, "https://");
    assert_eq!(r.path, "/r/slack");
    assert_eq!(r.darkmode_css.as_deref(), Some("dark"));
    let r = recipe_from_package_json(r#"{"name":"Only Name"}"#, "/p", None, None).unwrap().unwrap();
    assert_eq!((r.id.as_str(), r.service_url.as_str()), ("Only Name", ""));
    assert!(r.has_direct_messages);
    assert!(recipe_from_package_json(r#"{"version":"1"}"#, "/p", None, None).unwrap().is_err());
    assert!(recipe_from_package_json(r#"{"id":5,"name":null}"#, "/p", None, None).unwrap().is_err());
    assert!(recipe_from_package_json("not json", "/p", None, None).is_none());
    assert!(recipe_from_package_json("", "/p", None, None).is_none());
}

#[test]
fn scanning_keeps_first_recipe_per_id() {
    let kept = dedup_recipes(vec![recipe("a", "/1"), recipe("b", "/2"), recipe("a", "/3")]);
    let got: Vec<(&str, &str)> = kept.iter().map(|r| (r.id.as_str(), r.path.as_str())).collect();
    assert_eq!(got, vec![("a", "/1"), ("b", "/2")]);
}

#[test]
fn catalog_keeps_last_recipe_per_id() {
    let kept = recipes_by_id(vec![recipe("a", "/1"), recipe("b", "/2"), recipe("a", "/3")]);
    let got: Vec<(&str, &str)> = kept.iter().map(|r| (r.id.as_str(), r.path.as_str())).collect();
    assert_eq!(got, vec![("b", "/2"), ("a", "/3")]);
}

#[test]
fn app_state_resolves_service_urls_and_startup() {
    let mut r = recipe("slack", "/s");
    r.service_url = "https://{teamId}.slack.com".into();
    let mut a = ServiceConfig::new("a".into(), "slack".into(), "A".into());
    a.is_enabled = false;
    let mut b = ServiceConfig::new("b".into(), "slack".into(), "B".into());
    b.team = Some("acme".into());
    let c = ServiceConfig::new("c".into(), "nope".into(), "C".into());
    let mut s = AppState::new(AppSettings::default(), vec![r], vec![a, b, c]);
    assert_eq!(s.service_url("b").as_deref(), Some("https://acme.slack.com"));
    assert_eq!(s.service_url("c").as_deref(), Some("https://nope.com"));
    assert_eq!(s.service_url("zz"), None);
    let (id, url) = s.begin_startup().unwrap();
    assert_eq!((id.as_str(), url.as_str()), ("b", "https://acme.slack.com"));
    assert_eq!(s.active_service_id.as_deref(), Some("b"));
    assert_eq!(s.claim_browser("whatever", &Vec::new()).as_deref(), Some("b"));
    assert_eq!(s.claim_browser("https://nope.com/login", &vec!["b".to_string()]).as_deref(), Some("c"));
    assert_eq!(s.claim_browser("https://nope.com/login", &vec!["c".to_string()]), None);
    s.display_overlay();
    assert!(s.overlay_displayed());
    s.push_pending_id("__overlay__");
    assert_eq!(s.take_pending_id().as_deref(), Some("__overlay__"));
}

#[test]
fn startup_without_enabled_services() {
    let mut a = ServiceConfig::new("a".into(), "slack".into(), "A".into());
    a.is_enabled = false;
    let mut s = AppState::new(AppSettings::default(), Vec::new(), vec![a]);
    assert!(s.begin_startup().is_none());
    assert!(s.active_service_id.is_none());
}

#[test]
fn tray_badge_counter() {
    let mut c = BadgeCounter::new();
    assert_eq!(badge_count(&c), 0);
    assert_eq!(update_badge(&mut c, 5), 0);
    assert_eq!(update_badge(&mut c, 2), 5);
    assert_eq!(badge_count(&c), 2);
}

#[test]
fn notification_texts() {
    assert_eq!(notification_summary("Slack", "Hi"), "Slack: Hi");
    assert_eq!(notification_summary("", "Hi"), "Hi");
    assert!(may_wait_for_click("s1", 23));
    assert!(!may_wait_for_click("s1", 24));
    assert!(!may_wait_for_click("", 0));
}

#[test]
fn crc32_known_values() {
    assert_eq!(crc32(b""), 0);
    assert_eq!(crc32(b"123456789"), 0xCBF4_3926);
    assert_eq!(crc32(b"IEND"), 0xAE42_6082);
}

#[test]
fn png_chunk_layout() {
    let mut out = Vec::new();
    write_png_chunk(&mut out, b"IEND", &[]);
    assert_eq!(out, vec![0, 0, 0, 0, b'I', b'E', b'N', b'D', 0xAE, 0x42, 0x60, 0x82]);
}

#[test]
fn png_framing_of_given_image_data() {
    let png = png_from_idat(3, &[7, 8, 9]);
    assert_eq!(&png[..8], &[0x89, b'P', b'N', b'G', 0x0d, 0x0a, 0x1a, 0x0a]);
    assert_eq!(&png[8..33], &[0, 0, 0, 13, b'I', b'H', b'D', b'R', 0, 0, 0, 3, 0, 0, 0, 3, 8, 6, 0, 0, 0,
        png[29], png[30], png[31], png[32]]);
    assert_eq!(u32::from_be_bytes([png[29], png[30], png[31], png[32]]), crc32(&png[12..29]));
    assert_eq!(&png[33..44], &[0, 0, 0, 3, b'I', b'D', b'A', b'T', 7, 8, 9]);
    assert_eq!(u32::from_be_bytes([png[44], png[45], png[46], png[47]]), crc32(&png[37..44]));
    assert_eq!(&png[48..], &[0, 0, 0, 0, b'I', b'E', b'N', b'D', 0xAE, 0x42, 0x60, 0x82]);
    assert_eq!(png.len(), 60);
}

#[test]
fn png_encoding_round_trips_through_zlib() {
    let raw: Vec<u8> = (0..2u32).flat_map(|_| std::iter::once(0u8).chain(std::iter::repeat(200u8).take(8))).collect();
    let png = encode_png(2, &raw).unwrap();
    assert_eq!(&png[..8], &[0x89, b'P', b'N', b'G', 0x0d, 0x0a, 0x1a, 0x0a]);
    assert_eq!(&png[12..16], b"IHDR");
    assert_eq!(&png[16..29], &[0, 0, 0, 2, 0, 0, 0, 2, 8, 6, 0, 0, 0]);
    let idat_len = u32::from_be_bytes([png[33], png[34], png[35], png[36]]) as usize;
    assert_eq!(&png[37..41], b"IDAT");
    let idat = &png[41..41 + idat_len];
    assert_ne!(idat, &raw[..]);
    let mut back = Vec::new();
    flate2::read::ZlibDecoder::new(idat).read_to_end(&mut back).unwrap();
    assert_eq!(back, raw);
    assert!(png.ends_with(&[0, 0, 0, 0, b'I', b'E', b'N', b'D', 0xAE, 0x42, 0x60, 0x82]));
}

#[test]
fn pids_read_like_trim_and_parse() {
    for t in ["1234", " 42\n", "+7", "4294967295", "4294967296", "", "-1", "12a", "\u{a0}9\u{3000}"] {
        assert_eq!(parse_pid(t), t.trim().parse::<u32>().ok(), "{t:?}");
    }
    for c in ["host-1234", "my-host-77\n", "nodash", "host-", "a-b-x"] {
        assert_eq!(lock_owner_pid(c), c.split('-').last().and_then(|p| p.trim().parse::<u32>().ok()), "{c:?}");
    }
    assert_eq!(lock_owner_pid("my-host-77\n"), Some(77));
}
