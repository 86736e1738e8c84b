use omnichat::ipc::transport::{console_ipc_payload, console_worth_logging, ipc_navigation, is_allowed_url, urlparse_decode, IpcNavigation};

#[test]
fn decodes_percent_encoded_json() {
    let encoded = "%7B%22type%22%3A%22open_picker%22%7D";
    assert_eq!(urlparse_decode(encoded).unwrap(), r#"{"type":"open_picker"}"#);
}

#[test]
fn plus_becomes_space() {
    assert_eq!(urlparse_decode("a+b").unwrap(), "a b");
}

#[test]
fn passes_through_plain_text() {
    assert_eq!(urlparse_decode("hello").unwrap(), "hello");
}

#[test]
fn handles_unicode_escape() {
    assert_eq!(urlparse_decode("%E2%9C%93").unwrap(), "✓");
}

#[test]
fn invalid_escapes_are_kept_and_missing_digits_count_as_zero() {
    assert_eq!(urlparse_decode("%ZZ").unwrap(), "%ZZ");
    assert_eq!(urlparse_decode("%Z").unwrap(), "%Z0");
    assert_eq!(urlparse_decode("%4").unwrap(), "@");
    assert_eq!(urlparse_decode("ab%").unwrap(), "ab\u{0}");
    assert_eq!(urlparse_decode("%+9").unwrap(), "\u{9}");
}

#[test]
fn invalid_utf8_is_an_error() {
    assert!(urlparse_decode("%FF").is_err());
    assert!(urlparse_decode("%E2%9C").is_err());
}

#[test]
fn url_allowlist_accepts_web_and_mail() {
    assert!(is_allowed_url("https://example.com/x"));
    assert!(is_allowed_url("http://example.com"));
    assert!(is_allowed_url("mailto:a@b.com"));
    assert!(is_allowed_url("  HTTPS://EXAMPLE.com "));
}

#[test]
fn url_allowlist_rejects_dangerous_schemes() {
    assert!(!is_allowed_url("file:///etc/passwd"));
    assert!(!is_allowed_url("javascript:alert(1)"));
    assert!(!is_allowed_url("data:text/html,x"));
    assert!(!is_allowed_url("sudo://x"));
    assert!(!is_allowed_url(""));
}

#[test]
fn url_allowlist_needs_the_full_scheme() {
    assert!(!is_allowed_url("https:/x"));
    assert!(!is_allowed_url("mailto"));
    assert!(is_allowed_url("\u{3000}\tMailTo:x"));
    assert!(!is_allowed_url("xhttps://x"));
}

#[test]
fn ipc_navigation_recognizes_the_scheme() {
    match ipc_navigation("omnichat-ipc://%7B%7D") {
        IpcNavigation::Payload(p) => assert_eq!(p, "{}"),
        _ => panic!("expected a payload"),
    }
    match ipc_navigation("omnichat-ipc://omnichat-ipc://a+b") {
        IpcNavigation::Payload(p) => assert_eq!(p, "a b"),
        _ => panic!("expected a payload"),
    }
    assert!(matches!(ipc_navigation("https://omnichat-ipc://x"), IpcNavigation::NotIpc));
    assert!(matches!(ipc_navigation("omnichat-ipc://%C3"), IpcNavigation::Undecodable));
}

#[test]
fn console_sentinel_strips_prefix() {
    assert_eq!(console_ipc_payload("__OMNICHAT_IPC__{\"a\":1}").as_deref(), Some("{\"a\":1}"));
    assert_eq!(console_ipc_payload("hello __OMNICHAT_IPC__"), None);
    assert_eq!(console_ipc_payload("__OMNICHAT_IPC__").as_deref(), Some(""));
}

#[test]
fn console_logging_filter() {
    assert!(console_worth_logging("[OmniChat] hi", "https://x"));
    assert!(console_worth_logging("TypeError: x", "https://x"));
    assert!(console_worth_logging("ok", "data:text/html,abc"));
    assert!(!console_worth_logging("plain", "https://slack.com"));
}

fn encode_uri_component(s: &str) -> String {
    let mut out = String::new();
    for b in s.bytes() {
        if b.is_ascii_alphanumeric() || b"-_.!~*'()".contains(&b) {
            out.push(b as char);
        } else {
            out.push_str(&format!("%{b:02X}"));
        }
    }
    out
}

#[test]
fn decoding_inverts_encode_uri_component() {
    for s in [
        r#"{"type":"notification","serviceId":"a b","title":"Hé ✓ 😀","body":"1+1=2 & 100%"}"#,
        "",
        "plain",
        "a+b %41 \u{0}\n",
    ] {
        let e = encode_uri_component(s);
        assert_eq!(urlparse_decode(&e).unwrap(), s);
    }
    assert_eq!(encode_uri_component("a b+✓"), "a%20b%2B%E2%9C%93");
}
