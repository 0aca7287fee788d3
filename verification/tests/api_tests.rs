use reqtui::api::{Protocol, Request, RequestType, URL_PATTERN};

fn request(name: &str, protocol: Protocol, request_type: RequestType, url: &str, body: &str) -> Request {
    Request {
        name: name.to_string(),
        protocol,
        request_type,
        url: url.to_string(),
        body: body.to_string(),
    }
}

#[test]
fn request_type_next_cycles_in_order() {
    assert_eq!(RequestType::GET.next(), RequestType::POST);
    assert_eq!(RequestType::POST.next(), RequestType::DELETE);
    assert_eq!(RequestType::DELETE.next(), RequestType::PATCH);
    assert_eq!(RequestType::PATCH.next(), RequestType::PUT);
    assert_eq!(RequestType::PUT.next(), RequestType::GET);
}

#[test]
fn request_type_previous_cycles_backwards() {
    assert_eq!(RequestType::GET.previous(), RequestType::PUT);
    assert_eq!(RequestType::PUT.previous(), RequestType::PATCH);
    assert_eq!(RequestType::PATCH.previous(), RequestType::DELETE);
    assert_eq!(RequestType::DELETE.previous(), RequestType::POST);
    assert_eq!(RequestType::POST.previous(), RequestType::GET);
}

#[test]
fn request_type_next_and_previous_undo_each_other() {
    for t in [RequestType::GET, RequestType::POST, RequestType::DELETE, RequestType::PATCH, RequestType::PUT] {
        assert_eq!(t.next().previous(), t);
        assert_eq!(t.previous().next(), t);
        assert_eq!(t.next().next().next().next().next(), t);
        assert_ne!(t.next(), t);
    }
}

#[test]
fn request_type_names() {
    assert_eq!(RequestType::GET.name(), "GET");
    assert_eq!(RequestType::POST.name(), "POST");
    assert_eq!(RequestType::DELETE.name(), "DELETE");
    assert_eq!(RequestType::PATCH.name(), "PATCH");
    assert_eq!(RequestType::PUT.name(), "PUT");
}

#[test]
fn protocol_scheme_and_toggle() {
    assert_eq!(Protocol::HTTP.scheme(), "http");
    assert_eq!(Protocol::HTTPS.scheme(), "https");
    assert_eq!(Protocol::HTTP.toggled(), Protocol::HTTPS);
    assert_eq!(Protocol::HTTPS.toggled(), Protocol::HTTP);
    assert_eq!(Protocol::HTTP.toggled().toggled(), Protocol::HTTP);
}

#[test]
fn request_full_url_and_label() {
    let r = request("users", Protocol::HTTPS, RequestType::POST, "example.com/api/users", "{}");
    assert_eq!(r.full_url(), "https://example.com/api/users");
    assert_eq!(r.label(), "POST| users");
    let g = request("", Protocol::HTTP, RequestType::GET, "localhost", "");
    assert_eq!(g.full_url(), "http://localhost");
    assert_eq!(g.label(), "GET| ");
}

#[test]
fn request_clone_keeps_fields() {
    let r = request("n", Protocol::HTTPS, RequestType::PATCH, "a.bc", "{\"x\":1}");
    assert_eq!(r.clone(), r);
}

#[test]
fn valid_urls_are_accepted() {
    assert!(request("", Protocol::HTTP, RequestType::GET, "example.com", "").is_valid());
    assert!(request("", Protocol::HTTPS, RequestType::GET, "api.example.com/v1/users", "").is_valid());
    assert!(request("", Protocol::HTTPS, RequestType::GET, "jsonplaceholder.typicode.com/todos/1", "").is_valid());
}

#[test]
fn invalid_urls_are_rejected() {
    assert!(!request("", Protocol::HTTP, RequestType::GET, "", "").is_valid());
    assert!(!request("", Protocol::HTTP, RequestType::GET, "not a url", "").is_valid());
    assert!(!request("", Protocol::HTTP, RequestType::GET, "localhost", "").is_valid());
    assert!(!request("", Protocol::HTTPS, RequestType::GET, "Example.COM", "").is_valid());
}

#[test]
fn url_pattern_compiles_and_acceptance_needs_a_match() {
    assert!(regex::Regex::new(URL_PATTERN).is_ok());
    assert!(reqtui::api::url_accepted(Some(true)));
    assert!(!reqtui::api::url_accepted(Some(false)));
    assert!(!reqtui::api::url_accepted(None));
}

#[test]
fn prepare_attaches_body_only_to_post_put_patch() {
    for (t, carries) in [
        (RequestType::GET, false),
        (RequestType::DELETE, false),
        (RequestType::POST, true),
        (RequestType::PUT, true),
        (RequestType::PATCH, true),
    ] {
        let p = request("n", Protocol::HTTPS, t, "example.com/x", "{\"a\": 1}").prepare(7);
        assert_eq!(p.method, t);
        assert_eq!(p.url, "https://example.com/x");
        assert_eq!(p.timeout_secs, 7);
        if carries {
            assert_eq!(p.body.as_deref(), Some("{\"a\": 1}"));
            assert_eq!(p.content_type.as_deref(), Some("application/json"));
        } else {
            assert!(p.body.is_none());
            assert!(p.content_type.is_none());
        }
    }
}
