use reqtui::api::{Protocol, Request, RequestType};
use reqtui::history::History;

fn request(name: &str) -> Request {
    Request {
        name: name.to_string(),
        protocol: Protocol::HTTP,
        request_type: RequestType::GET,
        url: format!("{}.com", name),
        body: String::new(),
    }
}

#[test]
fn insert_keeps_first_copy_only() {
    let mut h = History::new();
    assert!(h.is_empty());
    assert!(h.insert(request("a")));
    assert!(h.insert(request("b")));
    assert!(!h.insert(request("a")));
    assert_eq!(h.len(), 2);
    assert_eq!(h.get(0).map(|r| r.name.clone()), Some("a".to_string()));
    assert_eq!(h.get(1).map(|r| r.name.clone()), Some("b".to_string()));
    assert!(h.get(2).is_none());
}

#[test]
fn requests_differing_in_one_field_are_distinct() {
    let mut h = History::new();
    let a = request("a");
    let mut b = request("a");
    b.request_type = RequestType::POST;
    assert!(h.insert(a));
    assert!(h.insert(b));
    assert_eq!(h.len(), 2);
}

#[test]
fn swap_remove_moves_last_into_place() {
    let mut h = History::from_requests(vec![request("a"), request("b"), request("c"), request("d")]);
    assert!(h.swap_remove(&request("b")));
    let names: Vec<String> = h.to_vec().into_iter().map(|r| r.name).collect();
    assert_eq!(names, vec!["a", "d", "c"]);
    assert!(!h.swap_remove(&request("b")));
    assert_eq!(h.len(), 3);
    assert!(h.swap_remove(&request("c")));
    let names: Vec<String> = h.to_vec().into_iter().map(|r| r.name).collect();
    assert_eq!(names, vec!["a", "d"]);
}

#[test]
fn from_requests_drops_later_copies() {
    let h = History::from_requests(vec![request("a"), request("b"), request("a"), request("c"), request("b")]);
    let names: Vec<String> = h.to_vec().into_iter().map(|r| r.name).collect();
    assert_eq!(names, vec!["a", "b", "c"]);
}
