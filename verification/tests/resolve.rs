use linkhop::resolve::{resolve, ResolveError};

#[test]
fn relative_link_is_resolved_against_the_base() {
    assert_eq!(resolve("http://x/a/", "b/c"), Ok("http://x/a/b/c".to_string()));
}

#[test]
fn absolute_link_comes_back_unchanged() {
    assert_eq!(
        resolve("http://x/a/", "http://eve.com/b"),
        Ok("http://eve.com/b".to_string())
    );
    assert_eq!(
        resolve("https://alice.com/a", "ftp://files.example/pub/f.txt"),
        Ok("ftp://files.example/pub/f.txt".to_string())
    );
}

#[test]
fn rooted_link_replaces_the_path() {
    assert_eq!(resolve("http://site/index", "/a"), Ok("http://site/a".to_string()));
    assert_eq!(
        resolve("https://alice.com/a", "/v1/meta"),
        Ok("https://alice.com/v1/meta".to_string())
    );
}

#[test]
fn a_link_is_normalized_not_echoed() {
    assert_eq!(resolve("HTTP://Example.COM", ""), Ok("http://example.com/".to_string()));
    assert_eq!(resolve("http://x/a/b/", "../c"), Ok("http://x/a/c".to_string()));
    assert_eq!(resolve("http://x/a", "#top"), Ok("http://x/a#top".to_string()));
    assert_eq!(
        resolve("http://x/a", "HTTP://Example.COM"),
        Ok("http://example.com/".to_string())
    );
}

#[test]
fn a_base_that_is_no_absolute_url_is_reported() {
    assert_eq!(resolve("not a url", "b"), Err(ResolveError::Base));
    assert_eq!(resolve("/only/a/path", "http://x/"), Err(ResolveError::Base));
    assert_eq!(resolve("", ""), Err(ResolveError::Base));
}

#[test]
fn a_link_that_is_no_url_is_reported() {
    assert_eq!(resolve("http://x/a/", "http://[::1"), Err(ResolveError::Link));
    assert_eq!(resolve("mailto:someone@example.com", "b/c"), Err(ResolveError::Link));
}
