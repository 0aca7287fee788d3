use ratatui::style::Color;
use reqtui::api::{Protocol, RequestType};
use reqtui::app::{ActiveCollectionField, ActiveEditField, CurrentScreen};
use reqtui::theme::Theme;

fn theme() -> Theme {
    Theme {
        primary: Color::Indexed(1),
        secondary: Color::Indexed(2),
        text: Color::Indexed(3),
        background: Color::Indexed(4),
        error: Color::Indexed(5),
        success: Color::Indexed(6),
        accent: Color::Indexed(7),
        get: Color::Indexed(8),
        post: Color::Indexed(9),
        delete: Color::Indexed(10),
        patch: Color::Indexed(11),
        put: Color::Indexed(12),
    }
}

#[test]
fn method_colours() {
    let t = theme();
    assert_eq!(t.derive_request(RequestType::GET), Color::Indexed(8));
    assert_eq!(t.derive_request(RequestType::POST), Color::Indexed(9));
    assert_eq!(t.derive_request(RequestType::DELETE), Color::Indexed(10));
    assert_eq!(t.derive_request(RequestType::PATCH), Color::Indexed(11));
    assert_eq!(t.derive_request(RequestType::PUT), Color::Indexed(12));
}

#[test]
fn body_colour_dims_methods_without_body() {
    let t = theme();
    assert_eq!(t.derive_body(RequestType::GET), t.background);
    assert_eq!(t.derive_body(RequestType::DELETE), t.background);
    assert_eq!(t.derive_body(RequestType::POST), t.text);
    assert_eq!(t.derive_body(RequestType::PUT), t.text);
    assert_eq!(t.derive_body(RequestType::PATCH), t.text);
}

#[test]
fn screen_colours() {
    let t = theme();
    assert_eq!(CurrentScreen::Main.color(&t), t.primary);
    assert_eq!(CurrentScreen::Editing.color(&t), t.error);
    assert_eq!(CurrentScreen::History.color(&t), t.success);
    assert_eq!(CurrentScreen::Collection.color(&t), t.accent);
    assert_eq!(CurrentScreen::Error.color(&t), t.error);
    assert_eq!(CurrentScreen::Testing.color(&t), t.patch);
}

#[test]
fn defaults() {
    assert_eq!(RequestType::default(), RequestType::GET);
    assert_eq!(Protocol::default(), Protocol::HTTP);
    assert_eq!(CurrentScreen::default(), CurrentScreen::Main);
    assert_eq!(ActiveEditField::default(), ActiveEditField::Name);
    assert_eq!(ActiveCollectionField::default(), ActiveCollectionField::CollectionList);
}

#[test]
fn focus_colour() {
    let t = theme();
    assert_eq!(t.focus_color(true), t.text);
    assert_eq!(t.focus_color(false), t.background);
}
