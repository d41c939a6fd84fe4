use live_server::assets::{AssetResponse, ReadOutcome};
use live_server::config::ServerConfig;
use live_server::snippet::reload_snippet;
use live_server::watcher::{ChangeEvent, Notification, WatchStep};

fn config() -> ServerConfig {
    ServerConfig::new("/srv/www".to_string(), "localhost".to_string(), 8002)
}

#[test]
fn config_keeps_what_it_was_built_with() {
    let config = config();
    assert_eq!(config.root(), "/srv/www");
    assert_eq!(config.host(), "localhost");
    assert_eq!(config.port(), 8002);
}

#[test]
fn config_snippet_is_made_from_host_and_port() {
    let config = config();
    assert_eq!(config.snippet(), reload_snippet("localhost", 8002));
    assert!(config.snippet().contains("ws://localhost:8002/live-server-ws"));
}

#[test]
fn config_url_names_the_bound_port() {
    assert_eq!(config().url(), "http://localhost:8002/");
}

#[test]
fn config_locates_under_its_root() {
    let location = config().locate("/blog/");
    assert_eq!(location.path, "/srv/www/blog/index.html");
    assert_eq!(location.content_type, "text/html");
}

#[test]
fn config_serves_html_with_its_own_snippet() {
    let config = ServerConfig::new("/srv/www".to_string(), "h".to_string(), 9);
    let response =
        config.respond("text/html".to_string(), ReadOutcome::Bytes(b"<html></html>".to_vec()));
    let expected = format!("<html></html>{}", reload_snippet("h", 9)).into_bytes();
    assert_eq!(
        response,
        AssetResponse::Served { content_type: "text/html".to_string(), body: expected }
    );
}

#[test]
fn config_serves_other_files_unmodified() {
    let response = config().respond("text/plain".to_string(), ReadOutcome::Bytes(b"hi".to_vec()));
    assert_eq!(
        response,
        AssetResponse::Served { content_type: "text/plain".to_string(), body: b"hi".to_vec() }
    );
}

#[test]
fn config_answers_a_missing_file_with_not_found() {
    let config = config();
    let location = config.locate("/missing.html");
    let response = config.respond(location.content_type, ReadOutcome::NotFound);
    assert_eq!(response, AssetResponse::NotFound);
    assert_eq!(response.status(), 404);
}

#[test]
fn config_classifies_against_its_root() {
    let config = config();
    assert_eq!(
        config.classify(Notification::Create("/srv/www/a.html".to_string())),
        WatchStep::Reload(ChangeEvent::Created("a.html".to_string()))
    );
    assert_eq!(
        config.classify(Notification::Create("/other/a.html".to_string())),
        WatchStep::Report("Path outside the watched root: /other/a.html".to_string())
    );
}
