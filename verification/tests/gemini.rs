use zeptoclaw::clock::Instant;
use zeptoclaw::error::ZeptoError;
use zeptoclaw::json::{Json, JsonNumber};
use zeptoclaw::providers::chat::ChatOptions;
use zeptoclaw::providers::gemini::{
    format_refusal, ChatError, EnvKeys, ExpiryNotice, GeminiAnswer, GeminiAuth, GeminiProvider,
    GeminiReply, DEFAULT_GEMINI_MODEL, GEMINI_CLI_CREDS_PATH, REQUEST_TIMEOUT_SECS,
};
use zeptoclaw::session::{Message, Role};

fn json(text: &str) -> Json {
    Json::parse(text).unwrap()
}

/// The value behind a path of keys and indices.
fn find<'a>(value: &'a Json, path: &[&str]) -> &'a Json {
    let mut value = value;
    for step in path {
        value = match step.parse::<usize>() {
            Ok(index) => value.at(index).unwrap(),
            Err(_) => value.get(step).unwrap(),
        };
    }
    value
}

fn env(gemini: Option<&str>, google: Option<&str>) -> EnvKeys {
    EnvKeys {
        gemini: gemini.map(String::from),
        google: google.map(String::from),
    }
}

#[test]
fn test_auth_resolution_prefers_explicit_key() {
    let auth = GeminiAuth::resolve(Some("explicit-key"), Some("env-key"), None);
    assert!(matches!(auth, Some(GeminiAuth::ApiKey(k)) if k == "explicit-key"));
}

#[test]
fn test_auth_resolution_falls_back_to_env() {
    let auth = GeminiAuth::resolve(None, Some("env-key"), None);
    assert!(matches!(auth, Some(GeminiAuth::ApiKey(k)) if k == "env-key"));
}

#[test]
fn test_auth_resolution_returns_none_with_no_credentials() {
    let auth = GeminiAuth::resolve(None, None, None);
    assert!(auth.is_none());
}

#[test]
fn test_auth_resolution_uses_oauth_when_no_keys() {
    let auth = GeminiAuth::resolve(None, None, Some("oauth-token".to_string()));
    assert!(matches!(auth, Some(GeminiAuth::BearerToken(t)) if t == "oauth-token"));
}

#[test]
fn test_auth_resolution_explicit_key_beats_oauth() {
    let auth = GeminiAuth::resolve(Some("config-key"), None, Some("oauth-token".to_string()));
    assert!(matches!(auth, Some(GeminiAuth::ApiKey(k)) if k == "config-key"));
}

#[test]
fn empty_keys_count_as_none() {
    let auth = GeminiAuth::resolve(Some(""), Some("env-key"), None);
    assert!(matches!(auth, Some(GeminiAuth::ApiKey(k)) if k == "env-key"));
    let auth = GeminiAuth::resolve(Some(""), Some(""), Some("t".to_string()));
    assert!(matches!(auth, Some(GeminiAuth::BearerToken(t)) if t == "t"));
}

#[test]
fn secrets_are_not_logged() {
    assert_eq!(
        GeminiAuth::ApiKey("secret".to_string()).debug_text(),
        "GeminiAuth::ApiKey([REDACTED])"
    );
    assert_eq!(
        GeminiAuth::BearerToken("secret".to_string()).debug_text(),
        "GeminiAuth::BearerToken([REDACTED])"
    );
}

#[test]
fn test_extract_thinking_model_response_skips_thought_parts() {
    let response = json(
        r#"{"candidates": [{"content": {"parts": [
            {"text": "thinking...", "thought": true},
            {"text": "Final answer here"}
        ]}}]}"#,
    );
    let text = GeminiProvider::extract_text(&response);
    assert_eq!(text.as_deref(), Some("Final answer here"));
}

#[test]
fn test_extract_thinking_falls_back_to_thought_if_no_final() {
    let response = json(
        r#"{"candidates": [{"content": {"parts": [
            {"text": "only thought part", "thought": true}
        ]}}]}"#,
    );
    let text = GeminiProvider::extract_text(&response);
    assert_eq!(text.as_deref(), Some("only thought part"));
}

#[test]
fn test_extract_text_normal_response() {
    let response = json(r#"{"candidates": [{"content": {"parts": [{"text": "Hello world"}]}}]}"#);
    let text = GeminiProvider::extract_text(&response);
    assert_eq!(text.as_deref(), Some("Hello world"));
}

#[test]
fn test_extract_text_multiple_non_thought_parts_joined() {
    let response = json(
        r#"{"candidates": [{"content": {"parts": [
            {"text": "Part one. ", "thought": true},
            {"text": "Part two. "},
            {"text": "Part three."}
        ]}}]}"#,
    );
    let text = GeminiProvider::extract_text(&response);
    assert_eq!(text.as_deref(), Some("Part two. Part three."));
}

#[test]
fn test_extract_text_returns_none_for_empty_parts() {
    let response = json(r#"{"candidates": [{"content": {"parts": []}}]}"#);
    let text = GeminiProvider::extract_text(&response);
    assert!(text.is_none());
}

#[test]
fn responses_of_another_shape_have_no_text() {
    for text in [
        "null",
        "[]",
        "{}",
        r#"{"candidates": []}"#,
        r#"{"candidates": {"0": 1}}"#,
        r#"{"candidates": [{"content": {"parts": "text"}}]}"#,
        r#"{"candidates": [{"content": {"parts": [{"text": 1}, 2]}}]}"#,
    ] {
        assert!(GeminiProvider::extract_text(&json(text)).is_none());
    }
}

#[test]
fn test_build_request_body_sets_model_and_contents() {
    let provider = GeminiProvider::new_with_key("test-key", "gemini-2.0-flash");
    let body = provider.build_request_body_from_parts("user", "Hi", None);
    assert_eq!(find(&body, &["contents", "0", "role"]).as_str(), Some("user"));
    assert_eq!(
        find(&body, &["contents", "0", "parts", "0", "text"]).as_str(),
        Some("Hi")
    );
}

#[test]
fn test_build_request_body_maps_assistant_role_to_model() {
    let provider = GeminiProvider::new_with_key("test-key", "gemini-2.0-flash");
    let body = provider.build_request_body_from_parts("assistant", "Hello back", None);
    assert_eq!(find(&body, &["contents", "0", "role"]).as_str(), Some("model"));
}

#[test]
fn test_build_request_body_includes_system_instruction() {
    let provider = GeminiProvider::new_with_key("test-key", "gemini-2.0-flash");
    let body = provider.build_request_body_from_parts("user", "Hi", Some("You are helpful"));
    assert_eq!(
        find(&body, &["systemInstruction", "parts", "0", "text"]).as_str(),
        Some("You are helpful")
    );
}

#[test]
fn body_of_one_turn_as_text() {
    let provider = GeminiProvider::new_with_key("test-key", "gemini-2.0-flash");
    let body = provider.build_request_body_from_parts("tool", "Hi", None);
    assert_eq!(
        body.compact(),
        [
            r#"{"contents":[{"parts":[{"text":"Hi"}],"role":"user"}],"#,
            r#""generationConfig":{"maxOutputTokens":4096,"temperature":0.7}}"#,
        ]
        .concat()
    );
}

#[test]
fn test_api_url_format() {
    let provider = GeminiProvider::new_with_key("key", "gemini-2.0-flash");
    let url = provider.api_url("gemini-2.0-flash");
    assert!(url.contains("generativelanguage.googleapis.com"));
    assert!(url.contains("gemini-2.0-flash"));
    assert!(url.ends_with(":generateContent"));
    assert_eq!(
        url,
        "https://generativelanguage.googleapis.com/v1beta/models/gemini-2.0-flash:generateContent"
    );
}

#[test]
fn test_provider_name() {
    let provider = GeminiProvider::new_with_key("key", DEFAULT_GEMINI_MODEL);
    assert_eq!(provider.name(), "gemini-native");
}

#[test]
fn test_provider_default_model() {
    let provider = GeminiProvider::new_with_key("key", "gemini-2.5-pro");
    assert_eq!(provider.default_model(), "gemini-2.5-pro");
}

#[test]
fn constants_of_the_api() {
    assert_eq!(GeminiProvider::default_gemini_model(), "gemini-2.0-flash");
    assert_eq!(GEMINI_CLI_CREDS_PATH, ".gemini/oauth_credentials.json");
    assert_eq!(REQUEST_TIMEOUT_SECS, 120);
}

#[test]
fn test_extract_usage_parses_token_counts() {
    let response = json(
        r#"{
            "candidates": [{"content": {"parts": [{"text": "hi"}]}}],
            "usageMetadata": {
                "promptTokenCount": 10,
                "candidatesTokenCount": 5,
                "totalTokenCount": 15
            }
        }"#,
    );
    let usage = GeminiProvider::extract_usage(&response);
    assert!(usage.is_some());
    let u = usage.unwrap();
    assert_eq!(u.prompt_tokens, 10);
    assert_eq!(u.completion_tokens, 5);
    assert_eq!(u.total_tokens, 15);
}

#[test]
fn test_extract_usage_returns_none_when_missing() {
    let response = json(r#"{"candidates": [{"content": {"parts": [{"text": "hi"}]}}]}"#);
    let usage = GeminiProvider::extract_usage(&response);
    assert!(usage.is_none());
}

#[test]
fn large_token_counts_are_cut() {
    let response = json(
        r#"{"usageMetadata": {"promptTokenCount": 4294967297, "candidatesTokenCount": 4294967295}}"#,
    );
    let u = GeminiProvider::extract_usage(&response).unwrap();
    assert_eq!(u.prompt_tokens, 1);
    assert_eq!(u.completion_tokens, u32::MAX);
    assert_eq!(u.total_tokens, 0);
    let response = json(r#"{"usageMetadata": {"promptTokenCount": -1, "candidatesTokenCount": 5}}"#);
    assert!(GeminiProvider::extract_usage(&response).is_none());
}

#[test]
fn test_build_messages_body_filters_system_role() {
    let provider = GeminiProvider::new_with_key("key", DEFAULT_GEMINI_MODEL);
    let messages = vec![
        Message::new(Role::System, "Be helpful"),
        Message::new(Role::User, "Hello"),
    ];
    let body = provider.build_messages_body(&messages, &ChatOptions::default());
    let contents = body.get("contents").unwrap().as_array().unwrap();
    assert_eq!(contents.len(), 1);
    assert_eq!(contents[0].get_str("role"), Some("user"));
    assert_eq!(
        find(&body, &["systemInstruction", "parts", "0", "text"]).as_str(),
        Some("Be helpful")
    );
}

#[test]
fn conversation_as_text() {
    let provider = GeminiProvider::new_with_key("key", DEFAULT_GEMINI_MODEL);
    let messages = vec![
        Message::new(Role::User, "a"),
        Message::new(Role::System, "first"),
        Message::new(Role::Assistant, "b"),
        Message::new(Role::System, "second"),
        Message::new(Role::Tool, "c"),
    ];
    let options = ChatOptions {
        max_tokens: Some(100),
        temperature: Some(JsonNumber::Real("0.25".to_string())),
        top_p: Some(JsonNumber::Unsigned(1)),
    };
    let body = provider.build_messages_body(&messages, &options);
    assert_eq!(
        body.compact(),
        [
            r#"{"contents":[{"parts":[{"text":"a"}],"role":"user"},"#,
            r#"{"parts":[{"text":"b"}],"role":"model"},"#,
            r#"{"parts":[{"text":"c"}],"role":"user"}],"#,
            r#""generationConfig":{"maxOutputTokens":100,"temperature":0.25,"topP":1},"#,
            r#""systemInstruction":{"parts":[{"text":"first"}]}}"#,
        ]
        .concat()
    );
    let body = provider.build_messages_body(&Vec::new(), &ChatOptions::default());
    assert_eq!(body.compact(), r#"{"contents":[],"generationConfig":{}}"#);
}

#[test]
fn test_from_config_returns_none_without_credentials() {
    let auth = GeminiAuth::resolve(None, None, None);
    assert!(auth.is_none());
    assert!(GeminiProvider::from_config(None, "m", true, &env(None, None), None).is_none());
}

#[test]
fn configuration_and_environment() {
    let credentials = Some(r#"{"access_token": "t"}"#);
    let auth = |api_key, prefer_oauth, env: EnvKeys| {
        match GeminiProvider::from_config(api_key, "m", prefer_oauth, &env, credentials) {
            Some(provider) => match provider.auth() {
                GeminiAuth::ApiKey(key) => format!("key {}", key),
                GeminiAuth::BearerToken(token) => format!("token {}", token),
            },
            None => "none".to_string(),
        }
    };
    assert_eq!(auth(Some("k"), false, env(Some("e"), None)), "key k");
    assert_eq!(auth(Some("k"), true, env(None, None)), "key k");
    assert_eq!(auth(Some(""), false, env(Some("e"), Some("g"))), "key e");
    assert_eq!(auth(None, false, env(None, Some("g"))), "key g");
    assert_eq!(auth(None, false, env(Some(""), Some("g"))), "key g");
    assert_eq!(auth(None, false, env(Some(""), Some(""))), "token t");
    assert_eq!(auth(None, false, env(None, None)), "token t");
}

#[test]
fn token_is_looked_for_without_a_key() {
    assert!(GeminiProvider::needs_cli_token(None, false));
    assert!(GeminiProvider::needs_cli_token(Some(""), false));
    assert!(!GeminiProvider::needs_cli_token(Some("k"), false));
    assert!(GeminiProvider::needs_cli_token(Some("k"), true));
}

#[test]
fn test_new_with_key_provider_name_and_model() {
    let p = GeminiProvider::new_with_key("test-key", "gemini-2.0-flash");
    assert_eq!(p.name(), "gemini-native");
    assert_eq!(p.default_model(), "gemini-2.0-flash");
}

#[test]
fn test_new_with_key_custom_model() {
    let p = GeminiProvider::new_with_key("test-key", "gemini-2.5-pro");
    assert_eq!(p.default_model(), "gemini-2.5-pro");
}

#[test]
fn test_token_from_json_if_valid_returns_token_when_not_expired() {
    let json = json(r#"{"access_token": "valid-token", "expiry": "2099-01-01T00:00:00Z"}"#);
    let result = GeminiAuth::token_from_json_if_valid(&json);
    assert_eq!(result.as_deref(), Some("valid-token"));
}

#[test]
fn test_token_from_json_if_valid_returns_none_when_expired() {
    let json = json(r#"{"access_token": "stale-token", "expiry": "2020-01-01T00:00:00Z"}"#);
    let result = GeminiAuth::token_from_json_if_valid(&json);
    assert!(result.is_none(), "Expected None for expired token");
}

#[test]
fn test_token_from_json_if_valid_returns_token_when_no_expiry_field() {
    let json = json(r#"{"access_token": "no-expiry-token"}"#);
    let result = GeminiAuth::token_from_json_if_valid(&json);
    assert_eq!(result.as_deref(), Some("no-expiry-token"));
}

#[test]
fn test_token_from_json_if_valid_checks_expires_at_alias() {
    let json = json(r#"{"token": "alias-token", "expires_at": "2020-06-15T12:00:00+00:00"}"#);
    let result = GeminiAuth::token_from_json_if_valid(&json);
    assert!(
        result.is_none(),
        "Expected None when expires_at is in the past"
    );
}

#[test]
fn test_token_from_json_if_valid_falls_back_to_oauth_token_field() {
    let json = json(r#"{"oauth_token": "fallback-oauth", "expiry": "2099-12-31T23:59:59Z"}"#);
    let result = GeminiAuth::token_from_json_if_valid(&json);
    assert_eq!(result.as_deref(), Some("fallback-oauth"));
}

#[test]
fn expiry_at_a_given_time() {
    // 2020-01-01T00:00:00.5Z is 1577836800.5 seconds after the epoch.
    let json = json(r#"{"token": "t", "expiry": "2020-01-01T01:00:00.5+01:00"}"#);
    let at = |secs, nanos| GeminiAuth::token_from_json_at(&json, &Instant { secs, nanos });
    assert_eq!(at(1577836800, 499_999_999).as_deref(), Some("t"));
    assert_eq!(at(1577836800, 500_000_000).as_deref(), Some("t"));
    assert_eq!(at(1577836800, 500_000_001), None);
    assert_eq!(at(1577836801, 0), None);
}

#[test]
fn expiry_that_cannot_be_read_is_passed_over() {
    let json = json(r#"{"access_token": "a", "token": "b", "expiry": "yesterday"}"#);
    let now = Instant { secs: i64::MAX, nanos: 0 };
    assert_eq!(
        GeminiAuth::token_from_json_at(&json, &now).as_deref(),
        Some("a")
    );
    let expired = Some(Instant { secs: 0, nanos: 0 });
    assert_eq!(GeminiAuth::token_unless_expired(&json, expired, &now), None);
    assert_eq!(
        GeminiAuth::token_unless_expired(&json, None, &now).as_deref(),
        Some("a")
    );
}

#[test]
fn notices_of_the_expiry() {
    let notice = |text: &str| match GeminiAuth::expiry_notice(&json(text)) {
        ExpiryNotice::Fine => "fine".to_string(),
        ExpiryNotice::Expired(text) => format!("expired {}", text),
        ExpiryNotice::Unreadable(text) => format!("unreadable {}", text),
    };
    assert_eq!(notice("{}"), "fine");
    assert_eq!(notice(r#"{"expiry": "2099-01-01T00:00:00Z"}"#), "fine");
    assert_eq!(
        notice(r#"{"expires_at": "1960-01-01T00:00:00Z"}"#),
        "expired 1960-01-01T00:00:00Z"
    );
    assert_eq!(notice(r#"{"expiry": "soon"}"#), "unreadable soon");
    let at = |secs| Instant { secs, nanos: 0 };
    assert!(matches!(
        GeminiAuth::notice_for(Some("t"), Some(at(5)), &at(5)),
        ExpiryNotice::Fine
    ));
    assert!(matches!(
        GeminiAuth::notice_for(Some("t"), Some(at(5)), &at(6)),
        ExpiryNotice::Expired(text) if text == "t"
    ));
}

#[test]
fn credential_file() {
    assert_eq!(
        GeminiAuth::load_cli_token(Some(r#"{"access_token": "t"}"#)).as_deref(),
        Some("t")
    );
    assert_eq!(
        GeminiAuth::load_cli_token(Some(
            r#"{"access_token": "t", "expiry": "1999-01-01T00:00:00Z"}"#
        )),
        None
    );
    assert_eq!(GeminiAuth::load_cli_token(Some("not json")), None);
    assert_eq!(GeminiAuth::load_cli_token(Some("[1]")), None);
    assert_eq!(GeminiAuth::load_cli_token(None), None);
}

fn pairs(list: &[(String, String)]) -> Vec<(&str, &str)> {
    list.iter().map(|(a, b)| (a.as_str(), b.as_str())).collect()
}

#[test]
fn request_with_a_key() {
    let provider = GeminiProvider::new_with_key("k", "own");
    let messages = vec![Message::new(Role::User, "Hi")];
    let request = provider.chat(&messages, None, &ChatOptions::default());
    assert_eq!(request.url, provider.api_url("own"));
    assert_eq!(pairs(&request.query), [("key", "k")]);
    assert_eq!(
        pairs(&request.headers),
        [("Content-Type", "application/json"), ("X-Title", "ZeptoClaw")]
    );
    assert_eq!(
        request.body.compact(),
        r#"{"contents":[{"parts":[{"text":"Hi"}],"role":"user"}],"generationConfig":{}}"#
    );
}

#[test]
fn request_with_a_token() {
    let provider = GeminiProvider::new_with_token("t", "own");
    let request = provider.chat(&Vec::new(), Some("other"), &ChatOptions::default());
    assert_eq!(request.url, provider.api_url("other"));
    assert!(request.query.is_empty());
    assert_eq!(
        pairs(&request.headers),
        [
            ("Content-Type", "application/json"),
            ("X-Title", "ZeptoClaw"),
            ("Authorization", "Bearer t"),
        ]
    );
}

fn answered(status: u16, body: &str) -> GeminiReply {
    GeminiReply::Answered(GeminiAnswer {
        status,
        body: Some(body.to_string()),
        json: Json::parse(body).ok_or("bad json".to_string()),
    })
}

#[test]
fn answer_of_the_model() {
    let provider = GeminiProvider::new_with_key("k", "m");
    let response = provider
        .chat_reply(answered(
            200,
            r#"{"candidates": [{"content": {"parts": [{"text": "hi"}]}}],
                "usageMetadata": {"promptTokenCount": 1, "candidatesTokenCount": 2}}"#,
        ))
        .unwrap();
    assert_eq!(response.content, "hi");
    assert_eq!(response.usage.unwrap().total_tokens, 3);
    let response = provider.chat_reply(answered(200, "{}")).unwrap();
    assert_eq!(response.content, "");
    assert!(response.usage.is_none());
}

fn failure(reply: GeminiReply) -> String {
    match GeminiProvider::new_with_key("k", "m").chat_reply(reply) {
        Ok(_) => panic!("expected an error"),
        Err(ChatError::Failed(ZeptoError::Provider(text))) => text,
        Err(ChatError::Failed(_)) => panic!("expected an error of the provider"),
        Err(ChatError::Api(status, text)) => format!("{} {}", status, text),
    }
}

#[test]
fn failures_of_a_conversation() {
    assert_eq!(
        failure(GeminiReply::Failed("timeout".to_string())),
        "Gemini request failed: timeout"
    );
    assert_eq!(
        failure(answered(200, "x")),
        "Failed to parse Gemini response: bad json"
    );
    assert_eq!(
        failure(answered(429, r#"{"error": {"message": "slow down"}}"#)),
        "429 Gemini API error: slow down"
    );
    assert_eq!(
        failure(answered(500, r#"{"error": "oops"}"#)),
        r#"500 Gemini API error: {"error": "oops"}"#
    );
    assert_eq!(failure(answered(404, "gone")), "404 Gemini API error: gone");
    let unread = GeminiReply::Answered(GeminiAnswer {
        status: 503,
        body: None,
        json: Err("unread".to_string()),
    });
    assert_eq!(failure(unread), "503 Gemini API error: ");
}

#[test]
fn message_of_a_refusal() {
    let body = json(r#"{"error": {"message": "no"}}"#);
    assert_eq!(format_refusal("raw", Some(&body)), "Gemini API error: no");
    assert_eq!(format_refusal("raw", None), "Gemini API error: raw");
    assert_eq!(
        format_refusal("raw", Some(&Json::Null)),
        "Gemini API error: raw"
    );
}
