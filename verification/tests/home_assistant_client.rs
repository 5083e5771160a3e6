use ha_localizer::config::Config;
use ha_localizer::home_assistant::{accept_header, https_url, Client};

fn config(api_key: &str) -> Config {
    Config {
        api_key: api_key.to_string(),
        base_url: "https://homeassistant.example.com".to_string(),
        device_id: "foobar".to_string(),
        port: 58573,
    }
}

#[test]
fn ordinary_tokens_are_accepted() {
    assert!(Client::accepts_api_key("abc123"));
    assert!(Client::accepts_api_key(""));
    assert!(Client::accepts_api_key("with space and\ttab"));
    assert!(Client::accepts_api_key("cl\u{e9}-\u{1F600}"));
}

#[test]
fn tokens_with_control_characters_are_refused() {
    assert!(!Client::accepts_api_key("abc\n"));
    assert!(!Client::accepts_api_key("a\rb"));
    assert!(!Client::accepts_api_key("\u{7f}"));
    assert!(!Client::accepts_api_key("nul\u{0}"));
}

#[test]
fn acceptance_agrees_with_reqwest() {
    for key in ["abc123", "abc\n", "\u{7f}", "t\tab", "\u{e9}", "x\u{1}"] {
        let expected =
            reqwest::header::HeaderValue::from_str(&format!("Bearer {key}")).is_ok();
        assert_eq!(Client::accepts_api_key(key), expected);
    }
}

#[test]
fn client_sends_a_bearer_token() {
    let client = Client::new(config("abc123"));
    assert_eq!(client.authorization(), "Bearer abc123");
    assert_eq!(client.accept(), "application/json");
    assert!(reqwest::header::HeaderValue::from_str(client.accept()).is_ok());
    assert!(reqwest::header::HeaderValue::from_str(client.authorization()).is_ok());
    assert_eq!(accept_header(), "application/json");
    assert_eq!(client.device_id(), "foobar");
    assert_eq!(client.device_id, "foobar");
}

#[test]
fn client_urls_join_the_base_and_the_path() {
    let client = Client::new(config("abc123"));
    assert_eq!(
        client.get("/api/states/device_tracker.foobar"),
        "https://homeassistant.example.com/api/states/device_tracker.foobar"
    );
    assert_eq!(client.get(""), "https://homeassistant.example.com");
}

#[test]
fn https_url_of_a_host() {
    assert_eq!(
        https_url("ha.example", "/api/states/device_tracker.phone"),
        "https://ha.example/api/states/device_tracker.phone"
    );
}
