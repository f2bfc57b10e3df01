use miniserver::static_files::{
    missing_path_body, not_found_body, resolve, rewrite_uri, RequestTarget, StaticDir,
    StaticOutcome,
};

fn demo_dir() -> StaticDir {
    let mut dir = StaticDir::new();
    dir.add_file("/index.html".to_string(), b"<html>home</html>".to_vec());
    dir.add_file("/about.html".to_string(), b"<html>about</html>".to_vec());
    dir.add_file("/app.js".to_string(), b"console.log(1);".to_vec());
    dir
}

#[test]
fn exact_path_is_served() {
    let dir = demo_dir();
    let target = RequestTarget { path: "/app.js".to_string(), query: None };
    let outcome = resolve(&dir, Some(&target));
    match outcome {
        StaticOutcome::Content(bytes) => assert_eq!(bytes, &b"console.log(1);".to_vec()),
        _ => panic!("expected the asset's bytes"),
    }
    assert_eq!(outcome.status_code(), 200);
}

#[test]
fn missing_path_falls_back_to_html() {
    let dir = demo_dir();
    let target = RequestTarget { path: "/about".to_string(), query: None };
    let outcome = resolve(&dir, Some(&target));
    match outcome {
        StaticOutcome::Content(bytes) => assert_eq!(bytes, &b"<html>about</html>".to_vec()),
        _ => panic!("expected the fallback asset's bytes"),
    }
}

#[test]
fn exact_hit_wins_over_fallback() {
    let mut dir = StaticDir::new();
    dir.add_file("/page".to_string(), b"bare".to_vec());
    dir.add_file("/page.html".to_string(), b"suffixed".to_vec());
    let target = RequestTarget { path: "/page".to_string(), query: None };
    match resolve(&dir, Some(&target)) {
        StaticOutcome::Content(bytes) => assert_eq!(bytes, &b"bare".to_vec()),
        _ => panic!("expected the exact asset's bytes"),
    }
}

#[test]
fn total_miss_is_not_found() {
    let dir = demo_dir();
    let target = RequestTarget { path: "/missing".to_string(), query: None };
    let outcome = resolve(&dir, Some(&target));
    assert!(matches!(outcome, StaticOutcome::NotFoundPage));
    assert_eq!(outcome.status_code(), 404);
    assert_eq!(not_found_body(), "Page not found");
}

#[test]
fn uri_without_path_is_server_error() {
    let dir = demo_dir();
    let outcome = resolve(&dir, None);
    assert!(matches!(outcome, StaticOutcome::PathUnavailable));
    assert_eq!(outcome.status_code(), 500);
    assert_eq!(missing_path_body(), "Failed to get path and query");
}

#[test]
fn rewrite_appends_html_suffix() {
    let target = RequestTarget { path: "/about".to_string(), query: None };
    assert_eq!(rewrite_uri(&target), "/about.html");
}

#[test]
fn rewrite_preserves_query_string() {
    let target = RequestTarget {
        path: "/search".to_string(),
        query: Some("q=verus&page=2".to_string()),
    };
    assert_eq!(rewrite_uri(&target), "/search.html?q=verus&page=2");
}

#[test]
fn later_file_replaces_earlier_one() {
    let mut dir = StaticDir::new();
    dir.add_file("/a".to_string(), b"old".to_vec());
    dir.add_file("/a".to_string(), b"new".to_vec());
    let target = RequestTarget { path: "/a".to_string(), query: None };
    match resolve(&dir, Some(&target)) {
        StaticOutcome::Content(bytes) => assert_eq!(bytes, &b"new".to_vec()),
        _ => panic!("expected the replacing bytes"),
    }
}

#[test]
fn empty_dir_finds_nothing() {
    let dir = StaticDir::new();
    assert!(dir.get("/index.html").is_none());
    assert!(dir.get("").is_none());
}
