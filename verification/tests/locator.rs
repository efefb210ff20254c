use kudos_import::repo_url::RepoInfo;

fn parts(url: &str) -> Option<(String, String)> {
    RepoInfo::from_url(url).map(|info| (info.owner, info.name))
}

#[test]
fn full_hosting_url_yields_last_two_segments() {
    assert_eq!(
        parts("https://github.com/foo/bar"),
        Some(("foo".to_string(), "bar".to_string()))
    );
}

#[test]
fn trailing_slash_is_trimmed() {
    assert_eq!(
        parts("https://github.com/foo/bar/"),
        Some(("foo".to_string(), "bar".to_string()))
    );
}

#[test]
fn bare_owner_and_name_parse() {
    assert_eq!(parts("foo/bar"), Some(("foo".to_string(), "bar".to_string())));
}

#[test]
fn repeated_slashes_close_only_empty_segments() {
    assert_eq!(parts("a//b"), Some(("a".to_string(), "b".to_string())));
}

#[test]
fn fewer_than_two_segments_yield_nothing() {
    assert_eq!(parts("nonsense"), None);
    assert_eq!(parts(""), None);
    assert_eq!(parts("/"), None);
    assert_eq!(parts("//only"), None);
}

#[test]
fn deep_paths_keep_the_last_two_segments() {
    assert_eq!(
        parts("https://example.net/org/group/project"),
        Some(("group".to_string(), "project".to_string()))
    );
}
