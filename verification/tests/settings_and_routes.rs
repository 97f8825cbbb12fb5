use dynamify::error::decimal_text;
use dynamify::route::{generate_reply, index_reply, BodyKind, RouteReply};
use dynamify::{ConfigError, GenerationError, Settings};

fn some(text: &str) -> Option<String> {
    Some(text.to_string())
}

fn pair(name: &str, value: &str) -> (String, String) {
    (name.to_string(), value.to_string())
}

#[test]
fn settings_take_the_three_values() {
    assert_eq!(
        Settings::new(some("key"), some("postgres://localhost/demo"), some("development")),
        Ok(Settings {
            api_key: "key".to_string(),
            database_url: "postgres://localhost/demo".to_string(),
            environment: "development".to_string(),
        })
    );
    assert_eq!(
        Settings::new(some(""), some(""), some("")),
        Ok(Settings { api_key: String::new(), database_url: String::new(), environment: String::new() })
    );
}

#[test]
fn without_an_api_key_there_are_no_settings() {
    let outcome = Settings::new(None, some("postgres://localhost/demo"), some("production"));
    assert_eq!(outcome, Err(ConfigError::NotFound("api_key".to_string())));
    assert_eq!(outcome.unwrap_err().message(), "missing configuration field \"api_key\"");
}

#[test]
fn the_first_missing_field_is_reported() {
    assert_eq!(Settings::new(None, None, None), Err(ConfigError::NotFound("api_key".to_string())));
    assert_eq!(
        Settings::new(some("k"), None, None),
        Err(ConfigError::NotFound("database_url".to_string()))
    );
    assert_eq!(
        Settings::new(some("k"), None, some("e")),
        Err(ConfigError::NotFound("database_url".to_string()))
    );
    assert_eq!(
        Settings::new(some("k"), some("d"), None),
        Err(ConfigError::NotFound("environment".to_string()))
    );
    assert_eq!(
        Settings::new(None, some("d"), None),
        Err(ConfigError::NotFound("api_key".to_string()))
    );
}

#[test]
fn the_api_key_is_the_first_variable_of_that_name() {
    let variables = vec![
        pair("PATH", "/usr/bin"),
        pair("api_key", "lower"),
        pair("API_KEY", "first"),
        pair("API_KEY_2", "other"),
        pair("API_KEY", "second"),
    ];
    assert_eq!(Settings::get_api_key(&variables), "first");
    assert_eq!(Settings::get_api_key(&vec![pair("API_KEY", "")]), "");
}

#[test]
fn numbers_are_written_in_decimal() {
    assert_eq!(decimal_text(0), "0");
    assert_eq!(decimal_text(7), "7");
    assert_eq!(decimal_text(10), "10");
    assert_eq!(decimal_text(429), "429");
    assert_eq!(decimal_text(1000), "1000");
    assert_eq!(decimal_text(65535), "65535");
    for value in [1u16, 9, 11, 99, 100, 101, 200, 299, 500, 9999, 10000, 12345, 60006] {
        assert_eq!(decimal_text(value), value.to_string());
    }
}

#[test]
fn each_error_has_its_text() {
    assert_eq!(GenerationError::Transport { cause: "timed out".to_string() }.message(), "timed out");
    assert_eq!(
        GenerationError::ApiStatus { status: 429, body: "rate limited".to_string() }.message(),
        "APIエラー: ステータスコード 429"
    );
    assert_eq!(
        GenerationError::OuterDecode { error: "expected value".to_string(), body: "x".to_string() }
            .message(),
        "expected value"
    );
    assert_eq!(GenerationError::EmptyResponse.message(), "レスポンスにテキストが含まれていません");
    assert_eq!(
        GenerationError::InnerDecode { error: "EOF".to_string(), text: "{".to_string() }.message(),
        "EOF"
    );
    assert_eq!(
        ConfigError::NotFound("environment".to_string()).message(),
        "missing configuration field \"environment\""
    );
}

#[test]
fn generated_html_is_answered_as_a_json_string() {
    assert_eq!(
        generate_reply(Ok("<div class='p-4'>hi</div>".to_string())),
        RouteReply {
            status: 200,
            kind: BodyKind::Json,
            body: "\"<div class='p-4'>hi</div>\"".to_string(),
        }
    );
    assert_eq!(
        generate_reply(Ok("<a href=\"x\">\n\\</a>".to_string())).body,
        "\"<a href=\\\"x\\\">\\n\\\\</a>\""
    );
    assert_eq!(generate_reply(Ok(String::new())).body, "\"\"");
}

#[test]
fn control_characters_are_escaped_and_nothing_else() {
    assert_eq!(
        generate_reply(Ok("\u{0}\u{1}\u{7}\u{8}\t\n\u{b}\u{c}\r\u{e}\u{1a}\u{1f} !\u{7f}\u{80}/'<&>é風".to_string())).body,
        "\"\\u0000\\u0001\\u0007\\b\\t\\n\\u000b\\f\\r\\u000e\\u001a\\u001f !\u{7f}\u{80}/'<&>é風\""
    );
}

#[test]
fn an_error_is_answered_with_status_500_and_its_text() {
    assert_eq!(
        generate_reply(Err(GenerationError::ApiStatus { status: 503, body: "down".to_string() })),
        RouteReply {
            status: 500,
            kind: BodyKind::Text,
            body: "APIエラー: ステータスコード 503".to_string(),
        }
    );
    assert_eq!(
        generate_reply(Err(GenerationError::EmptyResponse)),
        RouteReply {
            status: 500,
            kind: BodyKind::Text,
            body: "レスポンスにテキストが含まれていません".to_string(),
        }
    );
    assert_eq!(
        generate_reply(Err(GenerationError::InnerDecode {
            error: "expected value at line 1 column 1".to_string(),
            text: "<div>".to_string(),
        }))
        .body,
        "expected value at line 1 column 1"
    );
}

#[test]
fn each_kind_of_body_has_its_content_type() {
    assert_eq!(BodyKind::Html.content_type(), "text/html");
    assert_eq!(BodyKind::Json.content_type(), "application/json");
    assert_eq!(BodyKind::Text.content_type(), "text/plain; charset=utf-8");
}

#[test]
fn the_page_is_answered_as_html() {
    assert_eq!(
        index_reply(Some("<html></html>".to_string())),
        RouteReply { status: 200, kind: BodyKind::Html, body: "<html></html>".to_string() }
    );
    assert_eq!(
        index_reply(None),
        RouteReply { status: 500, kind: BodyKind::Text, body: "Template error".to_string() }
    );
}
