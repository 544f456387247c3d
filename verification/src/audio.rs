//! The audio runner: drains its track subscription group by group, frame by
//! frame, handing each frame to the audio sink, until the subscription is
//! exhausted. It keeps no cursor beyond the subscription, so the loop is
//! safe to resume across calls.

use vstd::prelude::*;

use crate::catalog::Track;
use crate::error::Error;
use crate::track::ReadEvent;
use crate::track::RunStatus;

verus! {

/// The audio pipeline: the selected track it subscribes to.
pub struct Audio {
    pub track: Track,
}

impl Audio {
    /// An audio runner for the selected track.
    pub fn new(track: Track) -> (r: Audio)
        ensures
            r.track == track,
    {
        Audio { track }
    }

    /// One step of the drain loop: a delivered frame is consumed and the
    /// loop goes on; exhaustion completes the runner; a read fault surfaces
    /// immediately.
    pub fn on_read(&self, ev: ReadEvent) -> (r: RunStatus)
        ensures
            ev is Frame ==> r is Continue,
            ev is Closed ==> r is Done,
            ev matches ReadEvent::Failed(m) ==> (r matches RunStatus::Failed(e) && e
                == Error::Protocol(m)),
    {
        match ev {
            ReadEvent::Frame(_) => RunStatus::Continue,
            ReadEvent::Closed => RunStatus::Done,
            ReadEvent::Failed(m) => RunStatus::Failed(Error::Protocol(m)),
        }
    }
}

} // verus!
