use browser_kit::cdp::{classify_browser, classify_payload, decode_field, extract_version, JsonField};

fn pair(name: &str, version: Option<&str>) -> (Option<String>, Option<String>) {
    (Some(name.to_string()), version.map(|v| v.to_string()))
}

#[test]
fn edge_token_in_user_agent() {
    let ua = "Mozilla/5.0 (Windows NT 10.0; Win64; x64) AppleWebKit/537.36 (KHTML, like Gecko) Chrome/118.0.0.0 Safari/537.36 Edg/118.0.0.0";
    assert_eq!(classify_browser(ua, "Chrome/118.0.0.0"), pair("Edge", Some("118.0.0.0")));
}

#[test]
fn chrome_from_browser_header() {
    let ua = "Mozilla/5.0 (X11; Linux x86_64) AppleWebKit/537.36 (KHTML, like Gecko) HeadlessChrome/120.0.0.0 Safari/537.36";
    assert_eq!(classify_browser(ua, "Chrome/120.0.0.0"), pair("Chrome", Some("120.0.0.0")));
}

#[test]
fn special_tokens_in_order() {
    assert_eq!(classify_browser("Foo YaBrowser/23.1 Edg/1", ""), pair("Yandex", Some("23.1")));
    assert_eq!(classify_browser("x OPR/99.0.1;y", ""), pair("Opera", Some("99.0.1")));
    assert_eq!(classify_browser("Mozilla Firefox/115.0", ""), pair("Firefox", Some("115.0")));
    assert_eq!(classify_browser("Brave", "Brave/1.60"), pair("Brave", Some("1.60")));
    assert_eq!(classify_browser("TorBrowser", ""), pair("Tor", None));
}

#[test]
fn header_and_agent_fallbacks() {
    assert_eq!(classify_browser("", "Chromium/119.0"), pair("Chromium", Some("119.0")));
    assert_eq!(classify_browser("", "Firefox/118"), pair("Firefox", Some("118")));
    assert_eq!(classify_browser("AppleWebKit Chrome/110.1 Safari", ""), pair("Chrome", Some("110.1")));
    assert_eq!(classify_browser("Version/17.0 Safari/605.1.15", "Unknown/1"), pair("Safari", None));
    assert_eq!(classify_browser("", ""), (None, None));
    assert_eq!(classify_browser("curl/8", "Other/1"), (None, None));
}

#[test]
fn version_extraction() {
    assert_eq!(extract_version("a Chrome/1.2.3 b", "Chrome"), Some("1.2.3".to_string()));
    assert_eq!(extract_version("Chrome(1.2)", "Chrome"), None);
    assert_eq!(extract_version("x Chrome", "Chrome"), None);
    assert_eq!(extract_version("Chrome/5;Chrome/6", "Chrome"), Some("5".to_string()));
    assert_eq!(extract_version("", "Chrome"), None);
    assert_eq!(extract_version("Edg/9)", "Edg"), Some("9".to_string()));
}

#[test]
fn full_payload_is_classified_and_kept_verbatim() {
    let body = "{\"Browser\": \"Chrome/120.0.0.0\", \"Protocol-Version\": \"1.3\", \"User-Agent\": \"Mozilla/5.0 Chrome/120.0.0.0 Safari/537.36\", \"webSocketDebuggerUrl\": \"ws://localhost:4969/devtools/browser/x\"}";
    let info = classify_payload(body).expect("classified");
    assert_eq!(info.name, Some("Chrome".to_string()));
    assert_eq!(info.version, Some("120.0.0.0".to_string()));
    assert_eq!(info.protocol_version, Some("1.3".to_string()));
    assert_eq!(info.user_agent, Some("Mozilla/5.0 Chrome/120.0.0.0 Safari/537.36".to_string()));
    assert_eq!(info.web_socket_debugger_url, Some("ws://localhost:4969/devtools/browser/x".to_string()));
    assert_eq!(info.raw, body);
}

#[test]
fn payload_with_alias_names() {
    let body = "{\"userAgent\": \"Edg/118.0.0.0\", \"protocolVersion\": \"1.3\"}";
    let info = classify_payload(body).expect("classified");
    assert_eq!(info.name, Some("Edge".to_string()));
    assert_eq!(info.version, Some("118.0.0.0".to_string()));
    assert_eq!(info.protocol_version, Some("1.3".to_string()));
    assert_eq!(info.web_socket_debugger_url, None);
}

#[test]
fn malformed_payload_gives_no_classification() {
    assert!(classify_payload("not json").is_none());
    assert!(classify_payload("[1, 2]").is_none());
    assert!(classify_payload("{\"Browser\": 5}").is_none());
    assert!(classify_payload("{\"User-Agent\": \"a\", \"userAgent\": \"b\"}").is_none());
}

#[test]
fn empty_object_gives_an_unnamed_record() {
    let info = classify_payload("{}").expect("decoded");
    assert_eq!(info.name, None);
    assert_eq!(info.version, None);
    assert_eq!(info.raw, "{}");
}

#[test]
fn field_decoding() {
    assert_eq!(decode_field(JsonField::Absent, JsonField::Absent), Some(None));
    assert_eq!(decode_field(JsonField::Null, JsonField::Absent), Some(None));
    assert_eq!(decode_field(JsonField::Absent, JsonField::Text("t".to_string())), Some(Some("t".to_string())));
    assert_eq!(decode_field(JsonField::Other, JsonField::Absent), None);
    assert_eq!(decode_field(JsonField::Text("a".to_string()), JsonField::Null), None);
}
