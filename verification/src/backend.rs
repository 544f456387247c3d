//! The reactor: observes configuration changes, decides what to tear down
//! and what to reuse, and tells the shell which step to perform next. A
//! session is reused exactly when the endpoint string is unchanged; a catalog
//! exactly when the broadcast name is unchanged and the session was reused;
//! pipelines never survive a configuration change. Upstream invalidation
//! always discards everything downstream.

use vstd::prelude::*;

use crate::catalog::Catalog;
use crate::catalog::CatalogError;
use crate::catalog::CatalogView;
use crate::catalog::TrackKind;
use crate::catalog::first_index;
use crate::catalog::kind_matches;
use crate::config::Config;
use crate::config::ConfigView;
use crate::config::clone_opt_string;
use crate::error::Error;
use crate::session::Session;
use crate::session::SessionError;
use crate::session::SessionView;

verus! {

/// Where the reactor stands between events.
#[derive(Clone, Copy, PartialEq, Eq, Structural, Debug)]
pub enum Phase {
    /// Nothing runs; the reactor waits for the next configuration.
    Awaiting,
    /// The shell is establishing a session.
    Connecting,
    /// The shell is fetching the catalog over the held session.
    FetchingCatalog,
    /// The selected pipelines run until one ends or a configuration arrives.
    Running,
}

/// What the shell must do next, as decided by the reactor.
pub enum Action {
    /// Nothing: await the next configuration.
    Idle,
    /// Establish a session to this endpoint, then report the outcome.
    Connect(String),
    /// Fetch the catalog of this broadcast over the held session, then
    /// report the outcome.
    FetchCatalog(String),
    /// Run the selected pipelines concurrently, racing them against the next
    /// configuration, then report the first outcome.
    Run,
}

/// Mathematical model of [`Action`].
pub enum ActionView {
    Idle,
    Connect(Seq<char>),
    FetchCatalog(Seq<char>),
    Run,
}

impl View for Action {
    type V = ActionView;

    open spec fn view(&self) -> ActionView {
        match self {
            Action::Idle => ActionView::Idle,
            Action::Connect(u) => ActionView::Connect(u@),
            Action::FetchCatalog(b) => ActionView::FetchCatalog(b@),
            Action::Run => ActionView::Run,
        }
    }
}

/// The reactor state: the configuration in effect, the resources it holds,
/// and the indexes of the selected tracks in the held catalog.
pub struct Backend {
    pub phase: Phase,
    pub config: Config,
    pub session: Option<Session>,
    pub catalog: Option<Catalog>,
    pub video: Option<usize>,
    pub audio: Option<usize>,
}

/// Mathematical model of [`Backend`].
pub struct BackendView {
    pub phase: Phase,
    pub config: ConfigView,
    pub session: Option<SessionView>,
    pub catalog: Option<CatalogView>,
    pub video: Option<int>,
    pub audio: Option<int>,
}

impl View for Backend {
    type V = BackendView;

    open spec fn view(&self) -> BackendView {
        BackendView {
            phase: self.phase,
            config: self.config@,
            session: match self.session {
                Some(s) => Some(s@),
                None => None,
            },
            catalog: match self.catalog {
                Some(k) => Some(k@),
                None => None,
            },
            video: match self.video {
                Some(i) => Some(i as int),
                None => None,
            },
            audio: match self.audio {
                Some(i) => Some(i as int),
                None => None,
            },
        }
    }
}

/// Whether the held session may serve a configuration: it exists and was
/// created for the very same endpoint string.
pub open spec fn session_reusable(b: BackendView, c: ConfigView) -> bool {
    b.session matches Some(s) && c.attrs.src == Some(s.url)
}

/// Whether the held catalog may serve a configuration: the session is
/// reused and the broadcast name is unchanged.
pub open spec fn catalog_reusable(b: BackendView, c: ConfigView) -> bool {
    session_reusable(b, c) && (b.catalog matches Some(k) && c.attrs.broadcast == Some(k.broadcast))
}

/// Well-formedness of the reactor state: held resources belong to the
/// configuration in effect, each phase holds exactly the resources it needs,
/// and selected indexes point at matching tracks of the held catalog.
pub open spec fn wf(b: BackendView) -> bool {
    &&& (b.session matches Some(s) ==> b.config.attrs.src == Some(s.url))
    &&& (b.catalog matches Some(k) ==> b.config.attrs.broadcast == Some(k.broadcast))
    &&& (b.phase == Phase::Awaiting ==> b.video is None && b.audio is None)
    &&& (b.phase == Phase::Connecting ==> b.config.attrs.src is Some && b.config.attrs.broadcast
        is Some && b.session is None && b.catalog is None && b.video is None && b.audio is None)
    &&& (b.phase == Phase::FetchingCatalog ==> b.config.attrs.src is Some
        && b.config.attrs.broadcast is Some && b.session is Some && b.catalog is None && b.video
        is None && b.audio is None)
    &&& (b.phase == Phase::Running ==> b.session is Some && b.catalog is Some && (b.video is Some
        || b.audio is Some))
    &&& (b.video matches Some(i) ==> b.catalog matches Some(k) && 0 <= i < k.tracks.len()
        && kind_matches(k.tracks[i], TrackKind::Video))
    &&& (b.audio matches Some(i) ==> b.catalog matches Some(k) && 0 <= i < k.tracks.len()
        && kind_matches(k.tracks[i], TrackKind::Audio))
}

/// The state and action once a catalog is in hand: the first matching track
/// of each kind is selected; a catalog matching neither kind leaves nothing
/// to run, which is not an error.
pub open spec fn spec_start(b: BackendView) -> (BackendView, ActionView)
    recommends
        b.catalog is Some,
{
    let v = first_index(b.catalog->Some_0.tracks, TrackKind::Video);
    let a = first_index(b.catalog->Some_0.tracks, TrackKind::Audio);
    if v is None && a is None {
        (BackendView { phase: Phase::Awaiting, video: None, audio: None, ..b }, ActionView::Idle)
    } else {
        (BackendView { phase: Phase::Running, video: v, audio: a, ..b }, ActionView::Run)
    }
}

/// The reactor's reaction to a configuration: pipelines are torn down
/// unconditionally; the session survives exactly under an identical endpoint
/// and the catalog exactly under an identical broadcast atop a surviving
/// session; a configuration missing either field is idle, not an error.
pub open spec fn spec_on_config(b: BackendView, c: ConfigView) -> (BackendView, ActionView) {
    let session = if session_reusable(b, c) {
        b.session
    } else {
        Option::<SessionView>::None
    };
    let catalog = if catalog_reusable(b, c) {
        b.catalog
    } else {
        Option::<CatalogView>::None
    };
    let base = BackendView {
        phase: Phase::Awaiting,
        config: c,
        session,
        catalog,
        video: None,
        audio: None,
    };
    if c.attrs.src is None || c.attrs.broadcast is None {
        (base, ActionView::Idle)
    } else if session is None {
        (
            BackendView { phase: Phase::Connecting, catalog: None, ..base },
            ActionView::Connect(c.attrs.src->Some_0),
        )
    } else if catalog is None {
        (
            BackendView { phase: Phase::FetchingCatalog, ..base },
            ActionView::FetchCatalog(c.attrs.broadcast->Some_0),
        )
    } else {
        spec_start(base)
    }
}

/// The reactor's reaction to the session outcome: a session leads on to the
/// catalog fetch; a failure discards state and awaits the next
/// configuration, with no automatic retry.
pub open spec fn spec_on_session(b: BackendView, s: Option<SessionView>) -> (BackendView, ActionView)
    recommends
        b.phase == Phase::Connecting,
{
    match s {
        Some(sv) => (
            BackendView { phase: Phase::FetchingCatalog, session: Some(sv), ..b },
            ActionView::FetchCatalog(b.config.attrs.broadcast->Some_0),
        ),
        None => (BackendView { phase: Phase::Awaiting, session: None, ..b }, ActionView::Idle),
    }
}

/// The reactor's reaction to the catalog outcome: a catalog leads on to
/// track selection and the run stage; a failure discards state and awaits
/// the next configuration, keeping the session.
pub open spec fn spec_on_catalog(b: BackendView, k: Option<CatalogView>) -> (BackendView, ActionView)
    recommends
        b.phase == Phase::FetchingCatalog,
{
    match k {
        Some(kv) => spec_start(BackendView { catalog: Some(kv), ..b }),
        None => (BackendView { phase: Phase::Awaiting, catalog: None, ..b }, ActionView::Idle),
    }
}

/// The reactor's reaction to the end of the run stage: whether a pipeline
/// failed or completed, all pipeline state is discarded and the reactor
/// awaits the next configuration; session and catalog are kept.
pub open spec fn spec_on_run_end(b: BackendView) -> BackendView
    recommends
        b.phase == Phase::Running,
{
    BackendView { phase: Phase::Awaiting, video: None, audio: None, ..b }
}

impl Backend {
    /// A fresh reactor: awaiting, holding nothing.
    pub fn new() -> (r: Backend)
        ensures
            r@.phase == Phase::Awaiting,
            r@.session is None,
            r@.catalog is None,
            r@.video is None,
            r@.audio is None,
            r@.config.attrs.src is None,
            r@.config.attrs.broadcast is None,
            wf(r@),
    {
        Backend {
            phase: Phase::Awaiting,
            config: Config::new(),
            session: None,
            catalog: None,
            video: None,
            audio: None,
        }
    }

    /// Applies a newly observed configuration, at any point: running
    /// pipelines are cancelled, resources reused or discarded by the reuse
    /// rules, and the next step decided.
    pub fn on_config(&mut self, c: Config) -> (a: Action)
        requires
            wf(old(self)@),
        ensures
            final(self)@ == spec_on_config(old(self)@, c@).0,
            a@ == spec_on_config(old(self)@, c@).1,
            wf(final(self)@),
    {
        let reuse_session = match (&self.session, &c.attrs.src) {
            (Option::Some(s), Option::Some(u)) => s.url.eq(u),
            _ => false,
        };
        if !reuse_session {
            self.session = None;
        }
        let reuse_catalog = reuse_session && match (&self.catalog, &c.attrs.broadcast) {
            (Option::Some(k), Option::Some(bn)) => k.broadcast.eq(bn),
            _ => false,
        };
        if !reuse_catalog {
            self.catalog = None;
        }
        self.video = None;
        self.audio = None;
        self.config = c;
        if self.config.attrs.src.is_none() || self.config.attrs.broadcast.is_none() {
            self.phase = Phase::Awaiting;
            Action::Idle
        } else if self.session.is_none() {
            self.catalog = None;
            self.phase = Phase::Connecting;
            let url = match clone_opt_string(&self.config.attrs.src) {
                Some(u) => u,
                None => vstd::pervasive::unreached(),
            };
            Action::Connect(url)
        } else if self.catalog.is_none() {
            self.phase = Phase::FetchingCatalog;
            let broadcast = match clone_opt_string(&self.config.attrs.broadcast) {
                Some(b) => b,
                None => vstd::pervasive::unreached(),
            };
            Action::FetchCatalog(broadcast)
        } else {
            self.start()
        }
    }

    /// Selects the pipelines from the held catalog and starts the run
    /// stage, or finds nothing to run and awaits.
    fn start(&mut self) -> (a: Action)
        requires
            old(self)@.catalog matches Some(k) && old(self)@.config.attrs.broadcast == Some(
                k.broadcast,
            ),
            old(self)@.session matches Some(s) && old(self)@.config.attrs.src == Some(s.url),
        ensures
            final(self)@ == spec_start(old(self)@).0,
            a@ == spec_start(old(self)@).1,
            wf(final(self)@),
    {
        let (v, au) = match &self.catalog {
            Some(k) => (k.video(), k.audio()),
            None => vstd::pervasive::unreached(),
        };
        proof {
            let ts = old(self)@.catalog->Some_0.tracks;
            crate::catalog::lemma_first_index_props(ts, TrackKind::Video);
            crate::catalog::lemma_first_index_props(ts, TrackKind::Audio);
        }
        if v.is_none() && au.is_none() {
            self.video = None;
            self.audio = None;
            self.phase = Phase::Awaiting;
            Action::Idle
        } else {
            self.video = v;
            self.audio = au;
            self.phase = Phase::Running;
            Action::Run
        }
    }

    /// Applies the session outcome reported by the shell. The session must
    /// be the one built for the endpoint this reactor asked for.
    pub fn on_session(&mut self, r: Result<Session, SessionError>) -> (a: Action)
        requires
            wf(old(self)@),
            old(self)@.phase == Phase::Connecting,
            r matches Ok(s) ==> old(self)@.config.attrs.src == Some(s@.url),
        ensures
            r matches Ok(s) ==> final(self)@ == spec_on_session(old(self)@, Some(s@)).0 && a@
                == spec_on_session(old(self)@, Some(s@)).1,
            r is Err ==> final(self)@ == spec_on_session(old(self)@, None).0 && a@
                == spec_on_session(old(self)@, None).1,
            wf(final(self)@),
    {
        match r {
            Ok(s) => {
                self.session = Some(s);
                self.phase = Phase::FetchingCatalog;
                let broadcast = match clone_opt_string(&self.config.attrs.broadcast) {
                    Some(b) => b,
                    None => vstd::pervasive::unreached(),
                };
                Action::FetchCatalog(broadcast)
            },
            Err(_) => {
                self.session = None;
                self.phase = Phase::Awaiting;
                Action::Idle
            },
        }
    }

    /// Applies the catalog outcome reported by the shell. The catalog must
    /// carry the broadcast name this reactor asked for.
    pub fn on_catalog(&mut self, r: Result<Catalog, CatalogError>) -> (a: Action)
        requires
            wf(old(self)@),
            old(self)@.phase == Phase::FetchingCatalog,
            r matches Ok(k) ==> old(self)@.config.attrs.broadcast == Some(k@.broadcast),
        ensures
            r matches Ok(k) ==> final(self)@ == spec_on_catalog(old(self)@, Some(k@)).0 && a@
                == spec_on_catalog(old(self)@, Some(k@)).1,
            r is Err ==> final(self)@ == spec_on_catalog(old(self)@, None).0 && a@
                == spec_on_catalog(old(self)@, None).1,
            wf(final(self)@),
    {
        match r {
            Ok(k) => {
                self.catalog = Some(k);
                self.start()
            },
            Err(_) => {
                self.catalog = None;
                self.phase = Phase::Awaiting;
                Action::Idle
            },
        }
    }

    /// Applies the end of the run stage: whether a pipeline failed or all
    /// completed, every pipeline is discarded and the reactor awaits the
    /// next configuration. Session and catalog are kept for reuse; there is
    /// no automatic retry of the same configuration.
    pub fn on_run_end(&mut self, r: Result<(), Error>) -> (a: Action)
        requires
            wf(old(self)@),
            old(self)@.phase == Phase::Running,
        ensures
            final(self)@ == spec_on_run_end(old(self)@),
            a@ == ActionView::Idle,
            final(self)@.session == old(self)@.session,
            final(self)@.catalog == old(self)@.catalog,
            wf(final(self)@),
    {
        let _ = r;
        self.video = None;
        self.audio = None;
        self.phase = Phase::Awaiting;
        Action::Idle
    }
}

/// Session reuse: a configuration naming the same endpoint string as the
/// one the held session was created for keeps that very session, and the
/// reactor never asks for a reconnect.
pub proof fn lemma_session_reuse(b: BackendView, c: ConfigView, s: SessionView)
    requires
        b.session == Some(s),
        b.config.attrs.src == Some(s.url),
        c.attrs.src == b.config.attrs.src,
    ensures
        spec_on_config(b, c).0.session == Some(s),
        !(spec_on_config(b, c).1 matches ActionView::Connect(_)),
{
}

/// Broadcast invalidation: a configuration whose broadcast name differs
/// from the held catalog's discards that catalog and both pipelines before
/// anything new is selected — the reactor never runs straight on.
pub proof fn lemma_broadcast_invalidation(b: BackendView, c: ConfigView, k: CatalogView)
    requires
        b.catalog == Some(k),
        c.attrs.broadcast != Some(k.broadcast),
    ensures
        spec_on_config(b, c).0.catalog is None,
        spec_on_config(b, c).0.video is None,
        spec_on_config(b, c).0.audio is None,
        spec_on_config(b, c).1 != ActionView::Run,
{
}

/// The reactor state with its run stage abandoned: pipelines dropped,
/// nothing else touched.
pub open spec fn cancelled(b: BackendView) -> BackendView {
    BackendView { phase: Phase::Awaiting, video: None, audio: None, ..b }
}

/// Cancellation precedence: a configuration arriving while pipelines run is
/// handled exactly as if those pipelines had already been torn down — the
/// decision never waits on, or reads, in-flight pipeline state.
pub proof fn lemma_cancellation_precedence(b: BackendView, c: ConfigView)
    ensures
        spec_on_config(b, c) == spec_on_config(cancelled(b), c),
{
}

/// Idle configurations: a configuration missing the endpoint or the
/// broadcast name never attempts a session or catalog fetch and never
/// raises an error — the reactor simply awaits the next configuration.
pub proof fn lemma_idle_config(b: BackendView, c: ConfigView)
    requires
        c.attrs.src is None || c.attrs.broadcast is None,
    ensures
        spec_on_config(b, c).1 == ActionView::Idle,
        spec_on_config(b, c).0.phase == Phase::Awaiting,
{
}

} // verus!
