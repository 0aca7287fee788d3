use reqtui::config::{collection_file_name, collections_dir_under, get_collections_dir, AppConfig};

#[test]
fn default_config_is_default_collection_with_five_second_timeout() {
    let c = AppConfig::default();
    assert_eq!(c.collection_name, "default");
    assert_eq!(c.request_timeout, 5);
}

#[test]
fn collection_file_names_end_in_json() {
    assert_eq!(collection_file_name("default"), "default.json");
    assert_eq!(collection_file_name("my api"), "my api.json");
    assert_eq!(collection_file_name(""), ".json");
}

#[test]
fn collections_dir_is_joined_under_config_dir() {
    assert_eq!(collections_dir_under(Some("/home/u/.config/reqtui".to_string())).as_deref(), Some("/home/u/.config/reqtui/collections"));
    assert_eq!(collections_dir_under(Some("/cfg/".to_string())).as_deref(), Some("/cfg/collections"));
    assert_eq!(collections_dir_under(None), None);
}

#[test]
fn collections_dir_ends_in_collections() {
    if let Some(dir) = get_collections_dir() {
        assert!(dir.ends_with("/collections"));
    }
}
