use moq_player::catalog::Catalog;
use moq_player::catalog::CatalogError;
use moq_player::catalog::CatalogRead;
use moq_player::catalog::Track;

fn track(
    name: &str,
    dims: Option<(u32, u32)>,
    rate: Option<u32>,
) -> Track {
    Track {
        name: name.to_owned(),
        namespace: Some("demo".to_owned()),
        width: dims.map(|d| d.0),
        height: dims.map(|d| d.1),
        samplerate: rate,
        codec: "codec".to_owned(),
        description: Vec::new(),
    }
}

#[test]
fn selection_is_deterministic_first_match() {
    let catalog = Catalog {
        broadcast: "demo".to_owned(),
        tracks: vec![
            track("a", None, Some(48000)),
            track("b", Some((1280, 720)), None),
            track("c", Some((640, 480)), None),
        ],
    };
    assert_eq!(catalog.video(), Some(1));
    assert_eq!(catalog.audio(), Some(0));
}

#[test]
fn selection_finds_nothing_without_parameters() {
    let catalog = Catalog {
        broadcast: "demo".to_owned(),
        tracks: vec![track("a", None, None)],
    };
    assert_eq!(catalog.video(), None);
    assert_eq!(catalog.audio(), None);
}

#[test]
fn fetch_without_group_is_missing() {
    match Catalog::fetch("demo".to_owned(), CatalogRead::NoGroup) {
        Err(CatalogError::Missing) => {},
        _ => panic!("expected a missing catalog"),
    }
}

#[test]
fn fetch_group_without_frame_is_missing() {
    match Catalog::fetch("demo".to_owned(), CatalogRead::NoFrame) {
        Err(CatalogError::Missing) => {},
        _ => panic!("expected a missing catalog, not an empty one"),
    }
}

#[test]
fn fetch_surfaces_read_fault() {
    match Catalog::fetch("demo".to_owned(), CatalogRead::ReadFault("reset".to_owned())) {
        Err(CatalogError::Transport(m)) => assert_eq!(m, "reset"),
        _ => panic!("expected a transport error"),
    }
}

#[test]
fn fetch_surfaces_malformed_payload() {
    match Catalog::fetch("demo".to_owned(), CatalogRead::Malformed("bad json".to_owned())) {
        Err(CatalogError::Parse(m)) => assert_eq!(m, "bad json"),
        _ => panic!("expected a parse error"),
    }
}

#[test]
fn fetch_builds_catalog_from_parsed_tracks() {
    let read = CatalogRead::Parsed(vec![track("a", Some((320, 240)), None)]);
    let catalog = Catalog::fetch("demo".to_owned(), read).expect("a catalog");
    assert_eq!(catalog.broadcast, "demo");
    assert_eq!(catalog.tracks.len(), 1);
    assert_eq!(catalog.tracks[0].name, "a");
    assert_eq!(catalog.tracks[0].width, Some(320));
}
