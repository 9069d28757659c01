use neighborhood_cli::cache::{cache_env_vars, id_from_cache, token_from, CachePaths, IdLookup, Platform, ProjectEntry};
use neighborhood_cli::directories::Directory;
use neighborhood_cli::error::MainError;
use std::collections::HashMap;

fn entry(id: &str, name: &str) -> ProjectEntry {
    ProjectEntry { id: id.to_string(), name: name.to_string() }
}

#[test]
fn cached_identifier_answers_without_request() {
    let paths = CachePaths::new(Some("/c/neighborhood_cli".to_string()));
    let mut cache: HashMap<String, String> = HashMap::new();
    let file = paths.project_token_path("foo").unwrap();
    assert_eq!(file, "/c/neighborhood_cli/project_tokens/foo");
    cache.insert(file.clone(), "abc123".to_string());
    assert_eq!(id_from_cache(cache.get(&file).cloned()), IdLookup::Found("abc123".to_string()));
}

#[test]
fn listing_fills_cache_and_repeat_hits() {
    let paths = CachePaths::new(Some("/c/neighborhood_cli".to_string()));
    let mut cache: HashMap<String, String> = HashMap::new();
    let file = paths.project_token_path("foo").unwrap();
    assert_eq!(id_from_cache(cache.get(&file).cloned()), IdLookup::FetchListing);
    let (writes, id) = paths.id_from_listing("foo", vec![entry("z9", "foo")]);
    assert_eq!(id, Ok("z9".to_string()));
    assert_eq!(writes, vec![("/c/neighborhood_cli/project_tokens/foo".to_string(), "z9".to_string())]);
    for (path, contents) in writes {
        cache.insert(path, contents);
    }
    assert_eq!(id_from_cache(cache.get(&file).cloned()), IdLookup::Found("z9".to_string()));
}

#[test]
fn listing_without_project_is_an_error() {
    let paths = CachePaths::new(Some("/c".to_string()));
    let (writes, id) = paths.id_from_listing("foo", vec![entry("a1", "bar"), entry("b2", "baz")]);
    assert_eq!(writes.len(), 2);
    assert_eq!(writes[1], ("/c/project_tokens/baz".to_string(), "b2".to_string()));
    assert_eq!(id, Err(MainError::NonExistantProject("foo".to_string())));
}

#[test]
fn repeated_name_answers_last_written() {
    let paths = CachePaths::new(Some("/c".to_string()));
    let (_, id) = paths.id_from_listing("foo", vec![entry("a1", "foo"), entry("b2", "foo")]);
    assert_eq!(id, Ok("b2".to_string()));
}

#[test]
fn paths_below_root() {
    let paths = CachePaths::new(Some("/c".to_string()));
    assert_eq!(paths.root(), Ok("/c".to_string()));
    assert_eq!(paths.token_path(), Ok("/c/token".to_string()));
    assert_eq!(paths.project_tokens_dir(), Ok("/c/project_tokens".to_string()));
    assert_eq!(paths.release_dir(), Ok("/c/release".to_string()));
    assert_eq!(paths.release_config_path("my.app"), Ok("/c/release/my.app.toml".to_string()));
}

#[test]
fn no_cache_directory() {
    let paths = CachePaths::new(None);
    assert_eq!(paths.token_path(), Err(MainError::GetCache));
    assert_eq!(paths.release_config_path("p"), Err(MainError::GetCache));
    let (writes, id) = paths.id_from_listing("foo", vec![entry("z9", "foo")]);
    assert!(writes.is_empty());
    assert_eq!(id, Err(MainError::GetCache));
}

#[test]
fn directory_resolution() {
    assert_eq!(
        Directory::Cache.resolve(Some("/home/u/.cache".to_string())),
        Ok("/home/u/.cache/neighborhood_cli".to_string())
    );
    assert_eq!(Directory::Cache.resolve(None), Err(Directory::Cache));
    assert_eq!(Directory::Cache.name(), "cache");
    match Directory::Cache.get() {
        Ok(path) => assert!(path.ends_with("/neighborhood_cli")),
        Err(d) => assert_eq!(d, Directory::Cache),
    }
}

#[test]
fn environment_guidance() {
    assert_eq!(cache_env_vars(Platform::Unix), vec!["XDG_CACHE_HOME", "HOME"]);
    assert_eq!(cache_env_vars(Platform::MacOs), vec!["HOME"]);
    assert_eq!(cache_env_vars(Platform::Windows), vec!["LOCALAPPDATA"]);
    assert!(cache_env_vars(Platform::Other).is_empty());
}

#[test]
fn token_presence() {
    assert_eq!(token_from(Some("t0k".to_string())), Ok("t0k".to_string()));
    assert_eq!(token_from(None), Err(MainError::GetToken));
}
