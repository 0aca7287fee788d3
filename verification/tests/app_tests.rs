use reqtui::api::{Protocol, Request, RequestType, ResponseData};
use reqtui::app::{
    select_next, select_previous, ActiveCollectionField, ActiveEditField, App, AppError, Collection,
    CollectionStore, CurrentScreen, RequestOutcome,
};
use reqtui::config::AppConfig;
use reqtui::history::History;

fn request(name: &str, request_type: RequestType, url: &str) -> Request {
    Request {
        name: name.to_string(),
        protocol: Protocol::HTTPS,
        request_type,
        url: url.to_string(),
        body: "{}".to_string(),
    }
}

fn store(names: &[&str]) -> CollectionStore {
    CollectionStore { collections: names.iter().map(|n| Collection { name: n.to_string() }).collect() }
}

fn fresh() -> App {
    App::new(AppConfig::default(), History::new(), store(&["default", "work"]))
}

#[test]
fn screen_names_and_help() {
    assert_eq!(CurrentScreen::Main.name(), "Main");
    assert_eq!(CurrentScreen::Editing.name(), "Editing");
    assert_eq!(CurrentScreen::History.name(), "History");
    assert_eq!(CurrentScreen::Collection.name(), "Collection");
    assert_eq!(CurrentScreen::Error.name(), "Error");
    assert_eq!(CurrentScreen::Testing.name(), "Testing");
    assert_eq!(
        CurrentScreen::Main.help(),
        "(q) / (esc) quit, (e) edit url, (tab) change request type, (p) change protocol, (enter) send request"
    );
    assert_eq!(CurrentScreen::Editing.help(), "(esc) / (alt + s) save value, (tab) switch window");
    assert_eq!(CurrentScreen::History.help(), "(esc) cancel, (q) quit, (enter) select request ");
    assert_eq!(
        CurrentScreen::Collection.help(),
        "(esc) cancel / (q) quit / (enter) add or select collection / (d) delete collection"
    );
    assert_eq!(CurrentScreen::Error.help(), "(esc) back to main screen, (q) quit");
    assert_eq!(CurrentScreen::Testing.help(), "(esc) back to main screen, (q) quit");
}

#[test]
fn tab_target_alternates_address_and_body() {
    assert_eq!(ActiveEditField::Name.tab_target(), ActiveEditField::Url);
    assert_eq!(ActiveEditField::Url.tab_target(), ActiveEditField::Body);
    assert_eq!(ActiveEditField::Body.tab_target(), ActiveEditField::Url);
}

#[test]
fn edit_field_cycles_through_three_fields() {
    assert_eq!(ActiveEditField::Name.next(), ActiveEditField::Url);
    assert_eq!(ActiveEditField::Url.next(), ActiveEditField::Body);
    assert_eq!(ActiveEditField::Body.next(), ActiveEditField::Name);
    assert_eq!(ActiveEditField::Url.next().next().next(), ActiveEditField::Url);
}

#[test]
fn collection_field_toggles() {
    assert_eq!(ActiveCollectionField::CollectionList.toggled(), ActiveCollectionField::AddCollection);
    assert_eq!(ActiveCollectionField::AddCollection.toggled(), ActiveCollectionField::CollectionList);
}

#[test]
fn list_selection_moves_like_ratatui() {
    assert_eq!(select_next(None), Some(0));
    assert_eq!(select_next(Some(3)), Some(4));
    assert_eq!(select_next(Some(usize::MAX)), Some(usize::MAX));
    assert_eq!(select_previous(None), Some(usize::MAX));
    assert_eq!(select_previous(Some(3)), Some(2));
    assert_eq!(select_previous(Some(0)), Some(0));
}

#[test]
fn new_app_starts_on_main_with_json_body() {
    let app = fresh();
    assert_eq!(app.current_screen, CurrentScreen::Main);
    assert_eq!(app.body, "{}");
    assert_eq!(app.request_type, RequestType::GET);
    assert_eq!(app.protocol, Protocol::HTTP);
    assert!(!app.loading && !app.should_quit);
    assert_eq!(app.history_state, None);
    assert_eq!(app.config.collection_name, "default");
}

#[test]
fn quit_sets_flag() {
    let mut app = fresh();
    app.quit();
    assert!(app.should_quit);
}

#[test]
fn send_valid_request_joins_history_once() {
    let mut app = fresh();
    app.url = "example.com/api".to_string();
    app.request_name = "api".to_string();
    let sent = app.send_request().expect("valid address");
    assert_eq!(sent.full_url(), "http://example.com/api");
    assert_eq!(sent.name, "api");
    assert!(app.loading);
    assert_eq!(app.history.len(), 1);
    app.loading = false;
    let again = app.send_request();
    assert!(again.is_some());
    assert_eq!(app.history.len(), 1);
}

#[test]
fn send_invalid_request_shows_error() {
    let mut app = fresh();
    app.url = "nowhere".to_string();
    assert!(app.send_request().is_none());
    assert_eq!(app.current_screen, CurrentScreen::Error);
    assert_eq!(app.error, "Invalid url");
    assert!(!app.loading);
    assert!(app.history.is_empty());
}

#[test]
fn finish_request_records_outcomes() {
    let mut app = fresh();
    app.loading = true;
    app.finish_request(RequestOutcome::Response(ResponseData {
        status: 200,
        body: "{\"ok\":true}".to_string(),
        version: "HTTP/1.1".to_string(),
    }));
    assert!(!app.loading);
    assert_eq!(app.status_code, 200);
    assert_eq!(app.response, "{\"ok\":true}");
    assert_eq!(app.http_version, "HTTP/1.1");
    app.loading = true;
    app.finish_request(RequestOutcome::Failure("timed out".to_string()));
    assert_eq!(app.response, "timed out");
    assert_eq!(app.status_code, 200);
    assert!(!app.loading);
    app.finish_request(RequestOutcome::Aborted);
    assert_eq!(app.response, "Request couldn't be executed");
}

#[test]
fn set_request_loads_selected_entry() {
    let history = History::from_requests(vec![request("a", RequestType::POST, "a.com"), request("b", RequestType::PUT, "b.org/x")]);
    let mut app = App::new(AppConfig::default(), history, store(&[]));
    app.current_screen = CurrentScreen::History;
    app.set_request();
    assert_eq!(app.current_screen, CurrentScreen::History);
    app.history_state = Some(1);
    app.set_request();
    assert_eq!(app.current_screen, CurrentScreen::Main);
    assert_eq!(app.request_name, "b");
    assert_eq!(app.url, "b.org/x");
    assert_eq!(app.request_type, RequestType::PUT);
    assert_eq!(app.protocol, Protocol::HTTPS);
    assert_eq!(app.body, "{}");
}

#[test]
fn delete_request_removes_selected_entry() {
    let history = History::from_requests(vec![
        request("a", RequestType::GET, "a.com"),
        request("b", RequestType::GET, "b.com"),
        request("c", RequestType::GET, "c.com"),
    ]);
    let mut app = App::new(AppConfig::default(), history, store(&[]));
    assert_eq!(app.delete_request(), Err(AppError::NoRequestSelected));
    assert_eq!(AppError::NoRequestSelected.message(), "cannot delete request");
    app.history_state = Some(0);
    assert_eq!(app.delete_request(), Ok(()));
    let names: Vec<String> = app.history.to_vec().into_iter().map(|r| r.name).collect();
    assert_eq!(names, vec!["c".to_string(), "b".to_string()]);
    app.history_state = Some(7);
    assert_eq!(app.delete_request(), Err(AppError::NoRequestSelected));
}

#[test]
fn collections_select_set_add_delete() {
    let mut app = fresh();
    assert_eq!(app.set_collection(), Err(AppError::NoCollectionSelected));
    assert_eq!(AppError::NoCollectionSelected.message(), "Could not set collection");
    assert_eq!(app.delete_collection(), None);
    app.collection_state = Some(1);
    assert_eq!(app.selected_collection().map(|c| c.label()), Some("work".to_string()));
    assert_eq!(app.delete_collection(), Some("work".to_string()));
    assert_eq!(app.set_collection(), Ok(()));
    assert_eq!(app.config.collection_name, "work");
    app.current_screen = CurrentScreen::Collection;
    app.open_collection(History::from_requests(vec![request("w", RequestType::GET, "w.io")]), store(&["work"]));
    assert_eq!(app.current_screen, CurrentScreen::Main);
    assert_eq!(app.history.len(), 1);
    app.collection_name = "new one".to_string();
    app.active_collection_field = ActiveCollectionField::AddCollection;
    assert_eq!(app.add_collection(), "new one");
    assert_eq!(app.collection_name, "");
    assert_eq!(app.active_collection_field, ActiveCollectionField::CollectionList);
    app.set_collections(store(&["a", "b", "c"]));
    assert_eq!(app.collection.collections.len(), 3);
}

#[test]
fn body_lines_are_joined_with_newlines() {
    let mut app = fresh();
    app.set_body_lines(&vec!["{".to_string(), "  \"a\": 1".to_string(), "}".to_string()]);
    assert_eq!(app.body, "{\n  \"a\": 1\n}");
    app.set_body_lines(&vec![]);
    assert_eq!(app.body, "");
    app.set_body_lines(&vec!["one".to_string()]);
    assert_eq!(app.body, "one");
}
