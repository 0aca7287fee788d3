//! The application's settings and where they are kept.
use vstd::prelude::*;

verus! {

/// The persisted settings: which collection is open, and how many seconds a
/// request may take before it is abandoned.
pub struct AppConfig {
    pub collection_name: String,
    pub request_timeout: u8,
}

/// Name of the collection that is open before any other is chosen.
pub const DEFAULT_COLLECTION: &'static str = "default";

/// Seconds a request may take when nothing else was configured.
pub const DEFAULT_TIMEOUT_SECS: u8 = 5;

/// Name of the directory, under the configuration directory, that holds the collections.
pub const COLLECTIONS_DIR: &'static str = "collections";

/// Extension of a collection's file.
pub const COLLECTION_FILE_EXTENSION: &'static str = ".json";

impl Default for AppConfig {
    /// The `default` collection, and a five-second timeout.
    fn default() -> (c: Self)
        ensures
            c.collection_name@ == DEFAULT_COLLECTION@,
            c.request_timeout == DEFAULT_TIMEOUT_SECS,
    {
        AppConfig { collection_name: String::from_str(DEFAULT_COLLECTION), request_timeout: DEFAULT_TIMEOUT_SECS }
    }
}

/// The file name a collection is stored under: its name followed by `.json`.
pub fn collection_file_name(name: &str) -> (r: String)
    ensures
        r@ == name@ + COLLECTION_FILE_EXTENSION@,
{
    let mut s = String::from_str(name);
    s.append(COLLECTION_FILE_EXTENSION);
    s
}

/// What `std::path::Path::join` gives for a base path and a relative segment, as text.
pub uninterp spec fn joined_path(base: Seq<char>, segment: Seq<char>) -> Seq<char>;

/// Joins a path segment onto a base path with `std::path::Path::join`. Both are
/// UTF-8, so the joined path is too and converts back to a `String` unchanged.
/// The contract names the result; how `join` places separators is left to std.
#[verifier::external_body]
fn join_path(base: &str, segment: &str) -> (r: String)
    ensures
        r@ == joined_path(base@, segment@),
{
    std::path::Path::new(base).join(segment).to_string_lossy().into_owned()
}

/// The per-user configuration directory that `directories::ProjectDirs::from`
/// gives for the project, as text. It depends on the platform and the user's
/// environment, so the contract states nothing of it.
#[verifier::external_body]
fn project_config_dir(qualifier: &str, organization: &str, application: &str) -> Option<String> {
    match directories::ProjectDirs::from(qualifier, organization, application) {
        Some(dirs) => Some(dirs.config_dir().to_string_lossy().into_owned()),
        None => None,
    }
}

/// The application's configuration directory, where the platform has one.
pub fn get_config_dir() -> Option<String> {
    project_config_dir("com", "you", "reqtui")
}

/// The collections directory inside a given configuration directory, if there is one.
pub fn collections_dir_under(config_dir: Option<String>) -> (r: Option<String>)
    ensures
        r is Some <==> config_dir is Some,
        r matches Some(p) ==> p@ == joined_path(config_dir.unwrap()@, COLLECTIONS_DIR@),
{
    match config_dir {
        Some(dir) => Some(join_path(dir.as_str(), COLLECTIONS_DIR)),
        None => None,
    }
}

/// The directory that holds the collections: `collections` inside the
/// configuration directory, where the platform has one.
pub fn get_collections_dir() -> (r: Option<String>)
    ensures
        r matches Some(p) ==> exists|dir: Seq<char>| p@ == joined_path(dir, COLLECTIONS_DIR@),
{
    collections_dir_under(get_config_dir())
}

} // verus!
