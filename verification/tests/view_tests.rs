use reqtui::api::{Protocol, Request, RequestType};
use reqtui::app::{App, Collection, CollectionStore, CurrentScreen};
use reqtui::config::AppConfig;
use reqtui::history::History;
use reqtui::view::{cursor_column, decimal_string, input_width};

fn app_with(history: Vec<Request>, collections: &[&str]) -> App {
    App::new(
        AppConfig::default(),
        History::from_requests(history),
        CollectionStore { collections: collections.iter().map(|n| Collection { name: n.to_string() }).collect() },
    )
}

#[test]
fn history_and_collection_lines() {
    let r = Request {
        name: "list".to_string(),
        protocol: Protocol::HTTP,
        request_type: RequestType::DELETE,
        url: "a.com".to_string(),
        body: String::new(),
    };
    let app = app_with(vec![r], &["default", "work"]);
    assert_eq!(app.history_lines(), vec!["DELETE| list".to_string()]);
    assert_eq!(app.collection_lines(), vec!["default".to_string(), "work".to_string()]);
}

#[test]
fn url_line_shows_scheme() {
    let mut app = app_with(vec![], &[]);
    app.url = "example.com".to_string();
    assert_eq!(app.url_line(), "http://example.com");
    app.protocol = Protocol::HTTPS;
    assert_eq!(app.url_line(), "https://example.com");
}

#[test]
fn response_is_pretty_printed_when_json() {
    let mut app = app_with(vec![], &[]);
    app.response = "{\"a\":1}".to_string();
    assert_eq!(app.shown_response(), "{\n  \"a\": 1\n}");
    app.response = "plain text".to_string();
    assert_eq!(app.shown_response(), "plain text");
}

#[test]
fn body_preview_formats_or_flags_invalid_json() {
    let mut app = app_with(vec![], &[]);
    assert_eq!(app.body_preview(), "Body:\n\n{}");
    app.body = "[1,2]".to_string();
    assert_eq!(app.body_preview(), "Body:\n\n[\n  1,\n  2\n]");
    app.body = "{oops".to_string();
    assert_eq!(app.body_preview(), "Body:\n\nInvalid json");
}

#[test]
fn status_line_only_after_a_response() {
    let mut app = app_with(vec![], &[]);
    assert_eq!(app.status_line(), "");
    app.status_code = 404;
    app.http_version = "HTTP/2.0".to_string();
    assert_eq!(app.status_line(), "Status 404, Version: HTTP/2.0");
}

#[test]
fn decimal_numbers() {
    assert_eq!(decimal_string(0), "0");
    assert_eq!(decimal_string(7), "7");
    assert_eq!(decimal_string(10), "10");
    assert_eq!(decimal_string(200), "200");
    assert_eq!(decimal_string(65535), "65535");
}

#[test]
fn selections_are_initialised_before_drawing() {
    let mut empty = app_with(vec![], &[]);
    empty.ensure_history_selection();
    assert_eq!(empty.history_state, None);
    empty.ensure_collection_selection();
    assert_eq!(empty.collection_state, Some(0));
    let r = Request {
        name: "n".to_string(),
        protocol: Protocol::HTTP,
        request_type: RequestType::GET,
        url: "a.com".to_string(),
        body: String::new(),
    };
    let mut app = app_with(vec![r], &[]);
    app.ensure_history_selection();
    assert_eq!(app.history_state, Some(0));
    app.history_state = Some(5);
    app.ensure_history_selection();
    assert_eq!(app.history_state, Some(5));
    assert_eq!(app.current_screen, CurrentScreen::Main);
}

#[test]
fn field_width_and_cursor_column() {
    assert_eq!(input_width(0), 0);
    assert_eq!(input_width(3), 0);
    assert_eq!(input_width(40), 37);
    assert_eq!(cursor_column(5, 0, 1), 6);
    assert_eq!(cursor_column(2, 4, 1), 1);
    assert_eq!(cursor_column(10, 4, 2), 8);
}
