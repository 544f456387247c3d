//! The video runner: configures the decoder from the selected track, feeds
//! it encoded frames from the subscription, and drains decoded frames into
//! the renderer. The feed and drain loops run concurrently for the life of
//! the pipeline; the first error of either fails the whole pipeline and
//! cancels the other.

use vstd::prelude::*;

use crate::catalog::Track;
use crate::error::Error;
use crate::track::ReadEvent;
use crate::track::TransportFrame;

verus! {

/// The decoder configuration derived from a video track: its codec
/// identifier, its coded dimensions, tuned for latency over throughput, and
/// the codec-specific description blob exactly when the catalog carries
/// one.
pub struct DecoderConfig {
    pub codec: String,
    pub coded_width: u32,
    pub coded_height: u32,
    pub description: Option<Vec<u8>>,
    pub latency_optimized: bool,
}

/// A decoder submission: the payload and keyframe flag of one delivered
/// frame, its timestamp in the decoder's microsecond unit.
pub struct EncodedFrame {
    pub payload: Vec<u8>,
    pub timestamp_micros: u64,
    pub keyframe: bool,
}

/// What the decode-feed loop decides after one read.
pub enum FeedStep {
    /// Push this into the decoder and keep reading.
    Submit(EncodedFrame),
    /// The subscription is exhausted; the feed loop completes.
    Done,
    /// The read failed; the whole pipeline fails.
    Failed(Error),
}

/// A byte-for-byte copy of a payload.
fn clone_bytes(v: &Vec<u8>) -> (r: Vec<u8>)
    ensures
        r@ == v@,
{
    let mut r: Vec<u8> = Vec::new();
    let n = v.len();
    let mut i: usize = 0;
    while i < n
        invariant
            0 <= i <= n,
            n == v@.len(),
            r@ == v@.subrange(0, i as int),
        decreases n - i,
    {
        r.push(v[i]);
        proof {
            assert(r@ =~= v@.subrange(0, i + 1));
        }
        i = i + 1;
    }
    proof {
        assert(v@.subrange(0, n as int) =~= v@);
    }
    r
}

/// The video pipeline: the selected track and the surface its frames are
/// rendered to.
pub struct Video {
    pub track: Track,
    pub canvas: u64,
}

impl Video {
    /// A video runner for the selected track and surface.
    pub fn new(track: Track, canvas: u64) -> (r: Video)
        ensures
            r.track == track,
            r.canvas == canvas,
    {
        Video { track, canvas }
    }

    /// The decoder configuration for the track: codec and coded dimensions
    /// carried over, latency optimized, the description blob attached
    /// exactly when the catalog entry holds one. A video track without
    /// coded dimensions cannot configure a decoder: a pipeline error.
    pub fn decoder_config(&self) -> (r: Result<DecoderConfig, Error>)
        ensures
            (self.track@.width is Some && self.track@.height is Some) ==> (
            r matches Ok(cfg) && cfg.codec@ == self.track@.codec && cfg.coded_width
                == self.track@.width->Some_0 && cfg.coded_height == self.track@.height->Some_0
                && cfg.latency_optimized && (cfg.description
                matches Some(d) <==> self.track@.description.len() > 0) && (cfg.description
                matches Some(d) ==> d@ == self.track@.description)),
            (self.track@.width is None || self.track@.height is None) ==> (r matches Err(e) && e
                matches Error::Pipeline(_)),
    {
        let (w, h) = match (&self.track.width, &self.track.height) {
            (Option::Some(w), Option::Some(h)) => (*w, *h),
            _ => {
                return Err(Error::Pipeline("video track lacks coded dimensions".to_owned()));
            },
        };
        let description = if self.track.description.len() > 0 {
            Some(clone_bytes(&self.track.description))
        } else {
            None
        };
        Ok(DecoderConfig {
            codec: self.track.codec.clone(),
            coded_width: w,
            coded_height: h,
            description,
            latency_optimized: true,
        })
    }

    /// One step of the decode-feed loop: a delivered frame becomes a
    /// decoder submission, its payload and keyframe flag carried over and
    /// its timestamp in microseconds; exhaustion completes the loop; a read
    /// fault fails the pipeline.
    pub fn on_read(&self, ev: ReadEvent) -> (r: FeedStep)
        ensures
            ev matches ReadEvent::Frame(f) ==> (r matches FeedStep::Submit(s) && s.payload@
                == f@.payload && s.timestamp_micros == f@.timestamp_micros && s.keyframe
                == f@.keyframe),
            ev is Closed ==> r is Done,
            ev matches ReadEvent::Failed(m) ==> (r matches FeedStep::Failed(e) && e
                == Error::Protocol(m)),
    {
        match ev {
            ReadEvent::Frame(f) => FeedStep::Submit(Self::encoded_frame(f)),
            ReadEvent::Closed => FeedStep::Done,
            ReadEvent::Failed(m) => FeedStep::Failed(Error::Protocol(m)),
        }
    }

    /// The decoder submission for one delivered frame.
    fn encoded_frame(f: TransportFrame) -> (r: EncodedFrame)
        ensures
            r.payload@ == f@.payload,
            r.timestamp_micros == f@.timestamp_micros,
            r.keyframe == f@.keyframe,
    {
        EncodedFrame {
            payload: f.payload,
            timestamp_micros: f.timestamp_micros,
            keyframe: f.keyframe,
        }
    }

    /// The outcome of the whole pipeline from the outcomes of its two
    /// loops: the first error wins; the pipeline succeeds only when both
    /// loops completed.
    pub fn pipeline_outcome(first: Result<(), Error>, second: Result<(), Error>) -> (r: Result<
        (),
        Error,
    >)
        ensures
            first is Err ==> r == first,
            (first is Ok && second is Err) ==> r == second,
            (first is Ok && second is Ok) ==> r is Ok,
    {
        match first {
            Err(e) => Err(e),
            Ok(()) => second,
        }
    }
}

} // verus!
