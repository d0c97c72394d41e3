use axum_sass_template::redirect::{local_path, NextUrl};

fn target(next: Option<&str>) -> String {
    NextUrl { next: next.map(|s| s.to_string()) }.target()
}

fn login_page(next: Option<&str>) -> String {
    NextUrl { next: next.map(|s| s.to_string()) }.login_page()
}

#[test]
fn next_local_path_is_used() {
    assert_eq!(target(Some("/protected")), "/protected");
    assert_eq!(target(Some("/")), "/");
    assert_eq!(target(Some("/a/b?c=d#e")), "/a/b?c=d#e");
}

#[test]
fn next_other_site_falls_back_home() {
    assert_eq!(target(Some("https://evil.example")), "/");
    assert_eq!(target(Some("//evil.example")), "/");
    assert_eq!(target(Some("/\\evil.example")), "/");
    assert_eq!(target(Some("/a\\b")), "/");
    assert_eq!(target(Some("/\t/evil.example")), "/");
    assert_eq!(target(Some("protected")), "/");
    assert_eq!(target(Some("")), "/");
}

#[test]
fn next_missing_is_home() {
    assert_eq!(target(None), "/");
}

#[test]
fn login_page_keeps_usable_next() {
    assert_eq!(login_page(Some("/protected")), "/login?next=/protected");
    assert_eq!(login_page(Some("https://evil.example")), "/login");
    assert_eq!(login_page(None), "/login");
}

#[test]
fn local_path_cases() {
    assert!(local_path("/"));
    assert!(local_path("/x"));
    assert!(!local_path(""));
    assert!(!local_path("x"));
    assert!(!local_path("//"));
    assert!(!local_path("/x\u{7f}"));
    assert!(!local_path("/x\n"));
}
