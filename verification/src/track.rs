//! The track subscription boundary: the request a runner subscribes with,
//! the events one read of the subscription can come to, and the priority
//! tier every media track is subscribed under.

use vstd::prelude::*;

use crate::catalog::Track;
use crate::error::Error;

verus! {

/// The fixed, non-zero priority tier, the same for audio and video.
pub const TRACK_PRIORITY: u8 = 1;

/// A subscription request: the track's addressing data under the fixed
/// priority tier. Groups of the subscription may arrive out of order;
/// frames within one group arrive in order.
pub struct SubscribeRequest {
    pub namespace: String,
    pub name: String,
    pub priority: u8,
}

/// Builds the subscription request for a catalog track. A catalog entry
/// without a namespace cannot be subscribed: that is a fatal error of the
/// pipeline, unlike a merely absent track.
pub fn subscribe_request(track: &Track) -> (r: Result<SubscribeRequest, Error>)
    ensures
        track@.namespace matches Some(ns) ==> (r matches Ok(q) && q.namespace@ == ns && q.name@
            == track@.name && q.priority == TRACK_PRIORITY && q.priority != 0),
        track@.namespace is None ==> (r matches Err(e) && e matches Error::Pipeline(_)),
{
    match &track.namespace {
        Some(ns) => Ok(SubscribeRequest {
            namespace: ns.clone(),
            name: track.name.clone(),
            priority: TRACK_PRIORITY,
        }),
        None => Err(Error::Pipeline("catalog entry lacks a namespace".to_owned())),
    }
}

/// One delivered data unit: an opaque payload with its transport timestamp
/// and, for video, the keyframe flag.
pub struct TransportFrame {
    pub payload: Vec<u8>,
    pub timestamp_micros: u64,
    pub keyframe: bool,
}

/// Mathematical model of [`TransportFrame`].
pub struct TransportFrameView {
    pub payload: Seq<u8>,
    pub timestamp_micros: u64,
    pub keyframe: bool,
}

impl View for TransportFrame {
    type V = TransportFrameView;

    open spec fn view(&self) -> TransportFrameView {
        TransportFrameView {
            payload: self.payload@,
            timestamp_micros: self.timestamp_micros,
            keyframe: self.keyframe,
        }
    }
}

/// What one read of a track subscription came to.
pub enum ReadEvent {
    /// The next frame, in order within its group.
    Frame(TransportFrame),
    /// The subscription is exhausted: closed by the remote side or by
    /// session teardown.
    Closed,
    /// The read failed.
    Failed(String),
}

/// What a runner decides after one read.
pub enum RunStatus {
    /// Keep draining.
    Continue,
    /// The subscription ended; the runner completes without error.
    Done,
    /// The read failed; the error surfaces immediately and ends the loop.
    Failed(Error),
}

} // verus!
