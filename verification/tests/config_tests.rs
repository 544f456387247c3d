use moq_player::config::AttrName;
use moq_player::config::Attributes;
use moq_player::config::Config;
use moq_player::config::ConfigStore;
use moq_player::config::Observation;
use moq_player::register;

fn config(src: Option<&str>, broadcast: Option<&str>, canvas: Option<u64>) -> Config {
    Config {
        canvas,
        attrs: Attributes {
            src: src.map(|s| s.to_owned()),
            broadcast: broadcast.map(|s| s.to_owned()),
        },
    }
}

#[test]
fn register_names_element_and_attributes() {
    let spec = register();
    assert_eq!(spec.tag, "moq-player");
    assert_eq!(spec.attributes, vec!["src".to_owned(), "broadcast".to_owned()]);
}

#[test]
fn attribute_update_reports_change() {
    let mut attrs = Attributes::new();
    assert!(attrs.update(AttrName::Src, Some("https://a".to_owned())));
    assert!(!attrs.update(AttrName::Src, Some("https://a".to_owned())));
    assert!(attrs.update(AttrName::Src, Some("https://b".to_owned())));
    assert!(attrs.update(AttrName::Broadcast, Some("demo".to_owned())));
    assert!(attrs.update(AttrName::Src, None));
    assert_eq!(attrs.src, None);
    assert_eq!(attrs.broadcast, Some("demo".to_owned()));
}

#[test]
fn config_equality_is_field_wise() {
    let a = config(Some("https://a"), Some("x"), Some(7));
    let b = config(Some("https://a"), Some("x"), Some(7));
    let c = config(Some("https://a"), Some("y"), Some(7));
    let d = config(Some("https://a"), Some("x"), None);
    assert!(a.same_as(&b));
    assert!(!a.same_as(&c));
    assert!(!a.same_as(&d));
}

#[test]
fn store_coalesces_rapid_sets() {
    let mut store = ConfigStore::new();
    store.set(config(Some("https://a"), Some("one"), None));
    store.set(config(Some("https://a"), Some("two"), None));
    store.set(config(Some("https://a"), Some("three"), None));
    match store.observe() {
        Observation::Changed(c) => {
            assert_eq!(c.attrs.broadcast, Some("three".to_owned()));
        },
        _ => panic!("expected the newest configuration"),
    }
    assert!(matches!(store.observe(), Observation::Pending));
}

#[test]
fn store_ignores_identical_set() {
    let mut store = ConfigStore::new();
    let c = config(Some("https://a"), Some("one"), None);
    store.set(c);
    match store.observe() {
        Observation::Changed(_) => {},
        _ => panic!("expected a change"),
    }
    store.set(config(Some("https://a"), Some("one"), None));
    assert!(matches!(store.observe(), Observation::Pending));
}

#[test]
fn store_update_attr_wakes_only_on_change() {
    let mut store = ConfigStore::new();
    store.update_attr(AttrName::Broadcast, Some("demo".to_owned()));
    assert!(matches!(store.observe(), Observation::Changed(_)));
    store.update_attr(AttrName::Broadcast, Some("demo".to_owned()));
    assert!(matches!(store.observe(), Observation::Pending));
}

#[test]
fn store_set_canvas_wakes_on_new_surface() {
    let mut store = ConfigStore::new();
    store.set_canvas(Some(3));
    match store.observe() {
        Observation::Changed(c) => assert_eq!(c.canvas, Some(3)),
        _ => panic!("expected a change"),
    }
    store.set_canvas(Some(3));
    assert!(matches!(store.observe(), Observation::Pending));
}

#[test]
fn store_close_terminates_observer() {
    let mut store = ConfigStore::new();
    store.set(config(Some("https://a"), Some("one"), None));
    store.close();
    assert!(matches!(store.observe(), Observation::Closed));
}
