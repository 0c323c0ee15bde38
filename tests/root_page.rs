use server::config::{after_bind, ServerConfig, Startup, BIND_FAILURE, LISTENING_MESSAGE};
use server::page::{home, HTML_UTF8, INDEX_HTML, STATUS_OK};

#[test]
fn home_answers_ok() {
    let r = home();
    assert_eq!(r.status, 200);
    assert_eq!(STATUS_OK, 200);
}

#[test]
fn home_is_html() {
    let r = home();
    assert_eq!(r.content_type, "text/html; charset=utf-8");
    assert!(r.content_type.starts_with("text/html"));
    assert_eq!(HTML_UTF8, "text/html; charset=utf-8");
}

#[test]
fn home_body_is_embedded_document() {
    let r = home();
    assert_eq!(r.body, INDEX_HTML);
    assert!(r.body.starts_with("<!DOCTYPE html>"));
    assert!(r.body.contains("/static/"));
}

#[test]
fn home_is_identical_across_calls() {
    let a = home();
    let b = home();
    assert_eq!(a.status, b.status);
    assert_eq!(a.content_type, b.content_type);
    assert_eq!(a.body.as_bytes(), b.body.as_bytes());
}

#[test]
fn config_holds_fixed_settings() {
    let c = ServerConfig::new();
    assert_eq!(c.host, "127.0.0.1");
    assert_eq!(c.port, 8083);
    assert_eq!(c.static_mount, "/static");
    assert_eq!(c.static_dir, "static");
    assert!(c.show_listing);
    assert_eq!(LISTENING_MESSAGE, "listening on localhost:8083");
    assert_eq!(BIND_FAILURE, "Error binding to port");
}

#[test]
fn bound_address_is_served() {
    assert!(after_bind(true) == Startup::Serve);
}

#[test]
fn failed_bind_aborts() {
    assert!(after_bind(false) == Startup::Abort);
}
