//! The desired playback configuration: the element attributes (endpoint URL
//! and broadcast name) together with an optional render surface handle, and
//! the coalescing store through which the shell publishes changes and the
//! backend observes them.

use vstd::prelude::*;

verus! {

/// Which observed element attribute an update addresses.
#[derive(Clone, Copy, PartialEq, Eq, Structural)]
pub enum AttrName {
    /// The endpoint URL attribute.
    Src,
    /// The broadcast name attribute.
    Broadcast,
}

/// The attribute strings of the player element.
pub struct Attributes {
    pub src: Option<String>,
    pub broadcast: Option<String>,
}

/// Mathematical model of [`Attributes`].
pub struct AttributesView {
    pub src: Option<Seq<char>>,
    pub broadcast: Option<Seq<char>>,
}

impl View for Attributes {
    type V = AttributesView;

    open spec fn view(&self) -> AttributesView {
        AttributesView { src: self.src.deep_view(), broadcast: self.broadcast.deep_view() }
    }
}

/// The updated attribute set: the named field replaced, the other kept.
pub open spec fn spec_update(a: AttributesView, name: AttrName, value: Option<Seq<char>>) -> AttributesView {
    match name {
        AttrName::Src => AttributesView { src: value, ..a },
        AttrName::Broadcast => AttributesView { broadcast: value, ..a },
    }
}

/// A copy of an optional string with the same contents.
pub fn clone_opt_string(a: &Option<String>) -> (r: Option<String>)
    ensures
        r.deep_view() == a.deep_view(),
{
    match a {
        Option::None => None,
        Option::Some(s) => Some(s.clone()),
    }
}

/// Equality test on optional strings, by contents.
pub fn opt_str_eq(a: &Option<String>, b: &Option<String>) -> (r: bool)
    ensures
        r == (a.deep_view() == b.deep_view()),
{
    match (a, b) {
        (Option::None, Option::None) => true,
        (Option::Some(x), Option::Some(y)) => x.eq(y),
        _ => false,
    }
}

impl Attributes {
    /// An attribute set with neither attribute present.
    pub fn new() -> (r: Attributes)
        ensures
            r@.src is None,
            r@.broadcast is None,
    {
        Attributes { src: None, broadcast: None }
    }

    /// Replaces the named attribute; reports whether the set actually
    /// changed, so that an unchanged write wakes no observer.
    pub fn update(&mut self, name: AttrName, value: Option<String>) -> (changed: bool)
        ensures
            final(self)@ == spec_update(old(self)@, name, value.deep_view()),
            changed == (final(self)@ != old(self)@),
    {
        match name {
            AttrName::Src => {
                let distinct = !opt_str_eq(&self.src, &value);
                self.src = value;
                proof {
                    if !distinct {
                        assert(final(self)@ == old(self)@);
                    } else {
                        assert(final(self)@.src != old(self)@.src);
                    }
                }
                distinct
            },
            AttrName::Broadcast => {
                let distinct = !opt_str_eq(&self.broadcast, &value);
                self.broadcast = value;
                proof {
                    if !distinct {
                        assert(final(self)@ == old(self)@);
                    } else {
                        assert(final(self)@.broadcast != old(self)@.broadcast);
                    }
                }
                distinct
            },
        }
    }
}

/// A configuration snapshot: the attribute strings plus the render surface,
/// carried as an opaque handle chosen by the shell.
pub struct Config {
    pub canvas: Option<u64>,
    pub attrs: Attributes,
}

/// Mathematical model of [`Config`].
pub struct ConfigView {
    pub canvas: Option<u64>,
    pub attrs: AttributesView,
}

impl View for Config {
    type V = ConfigView;

    open spec fn view(&self) -> ConfigView {
        ConfigView { canvas: self.canvas, attrs: self.attrs@ }
    }
}

impl Config {
    /// A configuration with no surface and no attributes.
    pub fn new() -> (r: Config)
        ensures
            r@.canvas is None,
            r@.attrs.src is None,
            r@.attrs.broadcast is None,
    {
        Config { canvas: None, attrs: Attributes::new() }
    }

    /// A copy of the snapshot with the same contents.
    pub fn duplicate(&self) -> (r: Config)
        ensures
            r@ == self@,
    {
        let r = Config {
            canvas: self.canvas,
            attrs: Attributes {
                src: clone_opt_string(&self.attrs.src),
                broadcast: clone_opt_string(&self.attrs.broadcast),
            },
        };
        proof {
            assert(r@.attrs == self@.attrs);
        }
        r
    }

    /// Field-wise equality of configuration snapshots: this is the
    /// distinctness test of the store.
    pub fn same_as(&self, other: &Config) -> (r: bool)
        ensures
            r == (self@ == other@),
    {
        let canvas_eq = match (&self.canvas, &other.canvas) {
            (Option::None, Option::None) => true,
            (Option::Some(x), Option::Some(y)) => *x == *y,
            _ => false,
        };
        canvas_eq && opt_str_eq(&self.attrs.src, &other.attrs.src)
            && opt_str_eq(&self.attrs.broadcast, &other.attrs.broadcast)
    }
}

/// What one observation of the store came to.
pub enum Observation {
    /// A distinct configuration was set since the last observation: its
    /// latest snapshot, intermediate ones coalesced away.
    Changed(Config),
    /// Nothing distinct was set since the last observation.
    Pending,
    /// The store was torn down; the observer terminates.
    Closed,
}

/// Mathematical model of [`Observation`].
pub enum ObservationView {
    Changed(ConfigView),
    Pending,
    Closed,
}

impl View for Observation {
    type V = ObservationView;

    open spec fn view(&self) -> ObservationView {
        match self {
            Observation::Changed(c) => ObservationView::Changed(c@),
            Observation::Pending => ObservationView::Pending,
            Observation::Closed => ObservationView::Closed,
        }
    }
}

/// The configuration store: the latest desired configuration, whether it has
/// been observed yet, and whether the store was torn down. A single writer
/// replaces the snapshot; a single observer takes the latest unobserved one.
/// Nothing between the latest snapshot and the last observed one survives.
pub struct ConfigStore {
    pub current: Config,
    pub changed: bool,
    pub closed: bool,
}

/// Mathematical model of [`ConfigStore`].
pub struct ConfigStoreView {
    pub current: ConfigView,
    pub changed: bool,
    pub closed: bool,
}

impl View for ConfigStore {
    type V = ConfigStoreView;

    open spec fn view(&self) -> ConfigStoreView {
        ConfigStoreView { current: self.current@, changed: self.changed, closed: self.closed }
    }
}

/// The store after a snapshot is set: a distinct snapshot replaces the
/// current one and wakes the observer; an identical one leaves the store as
/// it was.
pub open spec fn spec_set(s: ConfigStoreView, c: ConfigView) -> ConfigStoreView {
    if c == s.current {
        s
    } else {
        ConfigStoreView { current: c, changed: true, closed: s.closed }
    }
}

/// The store and the outcome of one observation: a closed store terminates
/// the observer; an unobserved snapshot is delivered exactly once; otherwise
/// the observer keeps waiting.
pub open spec fn spec_observe(s: ConfigStoreView) -> (ConfigStoreView, ObservationView) {
    if s.closed {
        (s, ObservationView::Closed)
    } else if s.changed {
        (ConfigStoreView { changed: false, ..s }, ObservationView::Changed(s.current))
    } else {
        (s, ObservationView::Pending)
    }
}

impl ConfigStore {
    /// A fresh store: an empty configuration, nothing to observe, open.
    pub fn new() -> (r: ConfigStore)
        ensures
            r@.current.canvas is None,
            r@.current.attrs.src is None,
            r@.current.attrs.broadcast is None,
            !r@.changed,
            !r@.closed,
    {
        ConfigStore { current: Config::new(), changed: false, closed: false }
    }

    /// Replaces the snapshot, coalescing: only a distinct configuration
    /// wakes the observer, and only the newest unobserved one survives.
    pub fn set(&mut self, c: Config)
        ensures
            final(self)@ == spec_set(old(self)@, c@),
    {
        if !self.current.same_as(&c) {
            self.current = c;
            self.changed = true;
        }
    }

    /// Applies one attribute update to the snapshot, waking the observer
    /// exactly when the attribute actually changed.
    pub fn update_attr(&mut self, name: AttrName, value: Option<String>)
        ensures
            final(self)@ == spec_set(
                old(self)@,
                ConfigView {
                    attrs: spec_update(old(self)@.current.attrs, name, value.deep_view()),
                    ..old(self)@.current
                },
            ),
    {
        let changed = self.current.attrs.update(name, value);
        if changed {
            self.changed = true;
        }
    }

    /// Replaces the render surface of the snapshot, waking the observer
    /// exactly when the surface actually changed.
    pub fn set_canvas(&mut self, canvas: Option<u64>)
        ensures
            final(self)@ == spec_set(
                old(self)@,
                ConfigView { canvas, ..old(self)@.current },
            ),
    {
        let distinct = match (&self.current.canvas, &canvas) {
            (Option::None, Option::None) => false,
            (Option::Some(x), Option::Some(y)) => *x != *y,
            _ => true,
        };
        if distinct {
            self.current.canvas = canvas;
            self.changed = true;
        }
    }

    /// Takes the latest unobserved snapshot, if any; delivered at most once
    /// per change.
    pub fn observe(&mut self) -> (r: Observation)
        ensures
            final(self)@ == spec_observe(old(self)@).0,
            r@ == spec_observe(old(self)@).1,
    {
        if self.closed {
            Observation::Closed
        } else if self.changed {
            self.changed = false;
            Observation::Changed(self.current.duplicate())
        } else {
            Observation::Pending
        }
    }

    /// Tears the store down; every later observation terminates the
    /// observer.
    pub fn close(&mut self)
        ensures
            final(self)@ == (ConfigStoreView { closed: true, ..old(self)@ }),
    {
        self.closed = true;
    }
}

/// Coalescing: of configurations set in succession before any observation,
/// only the newest is ever observed — one observation delivers exactly the
/// last one set, and the next observation finds nothing.
pub proof fn lemma_coalescing(
    s: ConfigStoreView,
    c1: ConfigView,
    c2: ConfigView,
    c3: ConfigView,
)
    requires
        !s.closed,
        s.changed || c1 != s.current || c2 != c1 || c3 != c2,
    ensures
        ({
            let after = spec_set(spec_set(spec_set(s, c1), c2), c3);
            &&& spec_observe(after).1 == ObservationView::Changed(c3)
            &&& spec_observe(spec_observe(after).0).1 == ObservationView::Pending
        }),
{
}

} // verus!
