use moq_player::backend::Action;
use moq_player::backend::Backend;
use moq_player::catalog::Catalog;
use moq_player::catalog::CatalogError;
use moq_player::catalog::Track;
use moq_player::config::Attributes;
use moq_player::config::Config;
use moq_player::error::Error;
use moq_player::session::Session;

fn config(src: Option<&str>, broadcast: Option<&str>) -> Config {
    Config {
        canvas: Some(1),
        attrs: Attributes {
            src: src.map(|s| s.to_owned()),
            broadcast: broadcast.map(|s| s.to_owned()),
        },
    }
}

fn session(url: &str, handle: u64) -> Session {
    Session { url: url.to_owned(), handle }
}

fn demo_catalog(broadcast: &str) -> Catalog {
    Catalog {
        broadcast: broadcast.to_owned(),
        tracks: vec![
            Track {
                name: "audio0".to_owned(),
                namespace: Some(broadcast.to_owned()),
                width: None,
                height: None,
                samplerate: Some(48000),
                codec: "opus".to_owned(),
                description: Vec::new(),
            },
            Track {
                name: "video0".to_owned(),
                namespace: Some(broadcast.to_owned()),
                width: Some(1280),
                height: Some(720),
                samplerate: None,
                codec: "avc1".to_owned(),
                description: vec![1, 2, 3],
            },
        ],
    }
}

/// Drives a fresh backend through connect and catalog fetch to the run
/// stage.
fn run_to_running(backend: &mut Backend, url: &str, broadcast: &str, handle: u64) {
    match backend.on_config(config(Some(url), Some(broadcast))) {
        Action::Connect(u) => assert_eq!(u, url),
        _ => panic!("expected a connect"),
    }
    match backend.on_session(Ok(session(url, handle))) {
        Action::FetchCatalog(b) => assert_eq!(b, broadcast),
        _ => panic!("expected a catalog fetch"),
    }
    match backend.on_catalog(Ok(demo_catalog(broadcast))) {
        Action::Run => {},
        _ => panic!("expected the run stage"),
    }
}

#[test]
fn idle_config_never_fetches() {
    let mut backend = Backend::new();
    assert!(matches!(
        backend.on_config(config(Some("https://relay"), None)),
        Action::Idle
    ));
    assert!(matches!(
        backend.on_config(config(None, Some("demo"))),
        Action::Idle
    ));
    assert!(matches!(backend.on_config(config(None, None)), Action::Idle));
}

#[test]
fn full_flow_selects_first_tracks() {
    let mut backend = Backend::new();
    run_to_running(&mut backend, "https://relay", "demo", 7);
    assert_eq!(backend.video, Some(1));
    assert_eq!(backend.audio, Some(0));
}

#[test]
fn session_failure_returns_to_awaiting() {
    let mut backend = Backend::new();
    let _ = backend.on_config(config(Some("https://relay"), Some("demo")));
    let err = moq_player::session::SessionError::WebTransport("refused".to_owned());
    assert!(matches!(backend.on_session(Err(err)), Action::Idle));
    assert!(backend.session.is_none());
}

#[test]
fn catalog_failure_keeps_session() {
    let mut backend = Backend::new();
    let _ = backend.on_config(config(Some("https://relay"), Some("demo")));
    let _ = backend.on_session(Ok(session("https://relay", 7)));
    assert!(matches!(
        backend.on_catalog(Err(CatalogError::Missing)),
        Action::Idle
    ));
    assert!(backend.catalog.is_none());
    assert_eq!(backend.session.as_ref().map(|s| s.handle), Some(7));
}

#[test]
fn same_endpoint_reuses_session() {
    let mut backend = Backend::new();
    run_to_running(&mut backend, "https://relay", "demo", 7);
    // Only the broadcast changes: the session object is carried over and no
    // reconnect is asked for.
    match backend.on_config(config(Some("https://relay"), Some("other"))) {
        Action::FetchCatalog(b) => assert_eq!(b, "other"),
        _ => panic!("expected a catalog fetch, not a reconnect"),
    }
    assert_eq!(backend.session.as_ref().map(|s| s.handle), Some(7));
}

#[test]
fn changed_endpoint_reconnects() {
    let mut backend = Backend::new();
    run_to_running(&mut backend, "https://relay", "demo", 7);
    match backend.on_config(config(Some("https://other"), Some("demo"))) {
        Action::Connect(u) => assert_eq!(u, "https://other"),
        _ => panic!("expected a reconnect"),
    }
    assert!(backend.session.is_none());
    assert!(backend.catalog.is_none());
}

#[test]
fn changed_broadcast_tears_down_pipelines() {
    let mut backend = Backend::new();
    run_to_running(&mut backend, "https://relay", "demo", 7);
    let _ = backend.on_config(config(Some("https://relay"), Some("other")));
    assert!(backend.catalog.is_none());
    assert!(backend.video.is_none());
    assert!(backend.audio.is_none());
}

#[test]
fn config_during_run_cancels_immediately() {
    let mut backend = Backend::new();
    run_to_running(&mut backend, "https://relay", "demo", 7);
    // A new configuration arrives while pipelines run: they are dropped and
    // the reactor proceeds with the new configuration at once.
    match backend.on_config(config(Some("https://relay"), Some("late"))) {
        Action::FetchCatalog(b) => assert_eq!(b, "late"),
        _ => panic!("expected an immediate catalog fetch"),
    }
    assert!(backend.video.is_none());
    assert!(backend.audio.is_none());
}

#[test]
fn unchanged_config_reuses_session_and_catalog() {
    let mut backend = Backend::new();
    run_to_running(&mut backend, "https://relay", "demo", 7);
    let _ = backend.on_run_end(Err(Error::Protocol("reset".to_owned())));
    // Re-supplying the same configuration skips connect and fetch entirely.
    match backend.on_config(config(Some("https://relay"), Some("demo"))) {
        Action::Run => {},
        _ => panic!("expected the run stage straight away"),
    }
    assert_eq!(backend.session.as_ref().map(|s| s.handle), Some(7));
}

#[test]
fn run_end_discards_pipelines_keeps_resources() {
    let mut backend = Backend::new();
    run_to_running(&mut backend, "https://relay", "demo", 7);
    assert!(matches!(backend.on_run_end(Ok(())), Action::Idle));
    assert!(backend.video.is_none());
    assert!(backend.audio.is_none());
    assert!(backend.session.is_some());
    assert!(backend.catalog.is_some());
}

#[test]
fn catalog_without_matching_tracks_idles() {
    let mut backend = Backend::new();
    let _ = backend.on_config(config(Some("https://relay"), Some("demo")));
    let _ = backend.on_session(Ok(session("https://relay", 7)));
    let bare = Catalog {
        broadcast: "demo".to_owned(),
        tracks: vec![Track {
            name: "data".to_owned(),
            namespace: Some("demo".to_owned()),
            width: None,
            height: None,
            samplerate: None,
            codec: "none".to_owned(),
            description: Vec::new(),
        }],
    };
    assert!(matches!(backend.on_catalog(Ok(bare)), Action::Idle));
    assert!(backend.video.is_none());
    assert!(backend.audio.is_none());
}
