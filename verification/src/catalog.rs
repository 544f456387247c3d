//! The broadcast catalog: the track descriptors a broadcast publishes, the
//! interpretation of the one-group-one-frame catalog read, and the selection
//! of the first audio and video tracks. Decoding the payload bytes is the
//! catalog format's concern, outside this core; the shell hands the decoded
//! track list in.

use vstd::prelude::*;

verus! {

/// A fault of catalog acquisition.
#[derive(Debug)]
pub enum CatalogError {
    /// The catalog track closed before delivering a group and a frame.
    Missing,
    /// The delivered payload did not decode as a catalog.
    Parse(String),
    /// The subscription itself failed.
    Transport(String),
}

/// A track descriptor: addressing data plus the selection parameters that
/// classify the track. Spatial dimensions mark a video track; a sample rate
/// marks an audio track. There is no explicit kind tag.
pub struct Track {
    pub name: String,
    pub namespace: Option<String>,
    pub width: Option<u32>,
    pub height: Option<u32>,
    pub samplerate: Option<u32>,
    pub codec: String,
    pub description: Vec<u8>,
}

/// Mathematical model of [`Track`].
pub struct TrackView {
    pub name: Seq<char>,
    pub namespace: Option<Seq<char>>,
    pub width: Option<u32>,
    pub height: Option<u32>,
    pub samplerate: Option<u32>,
    pub codec: Seq<char>,
    pub description: Seq<u8>,
}

impl View for Track {
    type V = TrackView;

    open spec fn view(&self) -> TrackView {
        TrackView {
            name: self.name@,
            namespace: self.namespace.deep_view(),
            width: self.width,
            height: self.height,
            samplerate: self.samplerate,
            codec: self.codec@,
            description: self.description@,
        }
    }
}

impl DeepView for Track {
    type V = TrackView;

    open spec fn deep_view(&self) -> TrackView {
        self.view()
    }
}

/// The two pipeline kinds a track can feed.
#[derive(Clone, Copy, PartialEq, Eq, Structural, Debug)]
pub enum TrackKind {
    Video,
    Audio,
}

/// Whether a track's selection parameters mark it for a kind: spatial
/// dimensions for video, a sample rate for audio.
pub open spec fn kind_matches(t: TrackView, kind: TrackKind) -> bool {
    match kind {
        TrackKind::Video => t.width is Some,
        TrackKind::Audio => t.samplerate is Some,
    }
}

/// The index of the first track of a kind, in catalog order.
pub open spec fn first_index(ts: Seq<TrackView>, kind: TrackKind) -> Option<int>
    decreases ts.len(),
{
    if ts.len() == 0 {
        None
    } else if kind_matches(ts[0], kind) {
        Some(0)
    } else {
        match first_index(ts.drop_first(), kind) {
            None => None,
            Some(i) => Some(i + 1),
        }
    }
}

/// The first matching index is exactly the point where a left-to-right scan
/// stops: no earlier track matches, and the track there matches unless the
/// scan ran out.
pub proof fn lemma_first_index_char(ts: Seq<TrackView>, kind: TrackKind, i: int)
    requires
        0 <= i <= ts.len(),
        forall|k: int| 0 <= k < i ==> !kind_matches(#[trigger] ts[k], kind),
        i == ts.len() || kind_matches(ts[i], kind),
    ensures
        first_index(ts, kind) == if i == ts.len() {
            Option::<int>::None
        } else {
            Option::<int>::Some(i)
        },
    decreases ts.len(),
{
    if ts.len() == 0 {
    } else if kind_matches(ts[0], kind) {
        assert(i == 0);
    } else {
        assert(i > 0);
        let t = ts.drop_first();
        assert(forall|k: int| 0 <= k < i - 1 ==> !kind_matches(#[trigger] t[k], kind));
        lemma_first_index_char(t, kind, i - 1);
    }
}

/// Whatever index the first match lands on lies in the list and matches the
/// kind.
pub proof fn lemma_first_index_props(ts: Seq<TrackView>, kind: TrackKind)
    ensures
        first_index(ts, kind) matches Some(i) ==> 0 <= i < ts.len() && kind_matches(
            ts[i],
            kind,
        ),
    decreases ts.len(),
{
    if ts.len() == 0 {
    } else if kind_matches(ts[0], kind) {
    } else {
        lemma_first_index_props(ts.drop_first(), kind);
    }
}

/// The catalog of one broadcast: its name and its ordered track list,
/// immutable once fetched.
pub struct Catalog {
    pub broadcast: String,
    pub tracks: Vec<Track>,
}

/// Mathematical model of [`Catalog`].
pub struct CatalogView {
    pub broadcast: Seq<char>,
    pub tracks: Seq<TrackView>,
}

impl View for Catalog {
    type V = CatalogView;

    open spec fn view(&self) -> CatalogView {
        CatalogView { broadcast: self.broadcast@, tracks: self.tracks.deep_view() }
    }
}

/// What one read of the catalog track came to. The catalog is carried in
/// the first frame of the first group; the shell reads at most that far and
/// reports what it saw, the payload already decoded by the catalog format.
pub enum CatalogRead {
    /// The subscription closed without delivering a group.
    NoGroup,
    /// A group arrived but closed without delivering a frame.
    NoFrame,
    /// Subscribing or reading failed.
    ReadFault(String),
    /// The first frame arrived and decoded into this track list.
    Parsed(Vec<Track>),
    /// The first frame arrived but did not decode as a catalog.
    Malformed(String),
}

impl Catalog {
    /// Interprets one catalog read for a broadcast. A subscription that
    /// closed early is a missing catalog, never a silently empty one; only
    /// a delivered, decoded frame yields a catalog.
    pub fn fetch(broadcast: String, read: CatalogRead) -> (r: Result<Catalog, CatalogError>)
        ensures
            read is NoGroup ==> (r matches Err(e) && e == CatalogError::Missing),
            read is NoFrame ==> (r matches Err(e) && e == CatalogError::Missing),
            read matches CatalogRead::ReadFault(m) ==> (r matches Err(e) && e
                == CatalogError::Transport(m)),
            read matches CatalogRead::Malformed(m) ==> (r matches Err(e) && e
                == CatalogError::Parse(m)),
            read matches CatalogRead::Parsed(ts) ==> (r matches Ok(k) && k@.broadcast == broadcast@
                && k@.tracks == ts.deep_view()),
    {
        match read {
            CatalogRead::NoGroup => Err(CatalogError::Missing),
            CatalogRead::NoFrame => Err(CatalogError::Missing),
            CatalogRead::ReadFault(m) => Err(CatalogError::Transport(m)),
            CatalogRead::Malformed(m) => Err(CatalogError::Parse(m)),
            CatalogRead::Parsed(tracks) => Ok(Catalog { broadcast, tracks }),
        }
    }

    /// The index of the first track of a kind: the first descriptor whose
    /// selection parameters match, in catalog order, or nothing where none
    /// match.
    pub fn select(&self, kind: TrackKind) -> (r: Option<usize>)
        ensures
            r matches Some(i) ==> first_index(self@.tracks, kind) == Some(i as int),
            r is None ==> first_index(self@.tracks, kind) is None,
            r matches Some(i) ==> i < self@.tracks.len() && kind_matches(
                self@.tracks[i as int],
                kind,
            ) && (forall|k: int| 0 <= k < i ==> !kind_matches(#[trigger] self@.tracks[k], kind)),
            r is None ==> forall|k: int|
                0 <= k < self@.tracks.len() ==> !kind_matches(#[trigger] self@.tracks[k], kind),
    {
        let n = self.tracks.len();
        let mut i: usize = 0;
        while i < n
            invariant
                0 <= i <= n,
                n == self@.tracks.len(),
                forall|k: int| 0 <= k < i ==> !kind_matches(#[trigger] self@.tracks[k], kind),
            decreases n - i,
        {
            let hit = match kind {
                TrackKind::Video => self.tracks[i].width.is_some(),
                TrackKind::Audio => self.tracks[i].samplerate.is_some(),
            };
            if hit {
                proof {
                    lemma_first_index_char(self@.tracks, kind, i as int);
                }
                return Some(i);
            }
            i = i + 1;
        }
        proof {
            lemma_first_index_char(self@.tracks, kind, n as int);
        }
        None
    }

    /// The index of the first video track: the first descriptor bearing
    /// spatial dimensions, in catalog order.
    pub fn video(&self) -> (r: Option<usize>)
        ensures
            r matches Some(i) ==> first_index(self@.tracks, TrackKind::Video) == Some(i as int),
            r is None ==> first_index(self@.tracks, TrackKind::Video) is None,
    {
        self.select(TrackKind::Video)
    }

    /// The index of the first audio track: the first descriptor bearing a
    /// sample rate, in catalog order.
    pub fn audio(&self) -> (r: Option<usize>)
        ensures
            r matches Some(i) ==> first_index(self@.tracks, TrackKind::Audio) == Some(i as int),
            r is None ==> first_index(self@.tracks, TrackKind::Audio) is None,
    {
        self.select(TrackKind::Audio)
    }
}

} // verus!
