//! The frame presentation scheduler: a FIFO queue of decoded frames drained
//! one per display-refresh tick, with at most one refresh callback
//! outstanding at a time. The shell owns the actual surface; this type
//! decides which frame is shown and when a callback must be requested.

use vstd::prelude::*;

verus! {

/// A decoded, displayable frame: the shell's handle to it plus its
/// intrinsic display dimensions.
#[derive(Clone, Copy, PartialEq, Eq, Structural, Debug)]
pub struct Frame {
    pub handle: u64,
    pub width: u32,
    pub height: u32,
}

/// The renderer state: the surface handle, the queued frames in arrival
/// order, and whether a display-refresh callback is outstanding.
pub struct Renderer {
    pub canvas: u64,
    pub queue: Vec<Frame>,
    pub scheduled: bool,
}

/// Mathematical model of [`Renderer`].
pub struct RendererView {
    pub canvas: u64,
    pub queue: Seq<Frame>,
    pub scheduled: bool,
}

impl View for Renderer {
    type V = RendererView;

    open spec fn view(&self) -> RendererView {
        RendererView { canvas: self.canvas, queue: self.queue@, scheduled: self.scheduled }
    }
}

/// The renderer after a push: the frame appended at the back, a callback
/// now outstanding.
pub open spec fn spec_push(r: RendererView, f: Frame) -> RendererView {
    RendererView { queue: r.queue.push(f), scheduled: true, ..r }
}

/// The renderer and the displayed frame after one refresh tick: the oldest
/// queued frame leaves, in arrival order, never skipped or repeated; an
/// empty queue shows nothing. The callback is spent either way and is only
/// re-armed by the next push.
pub open spec fn spec_render(r: RendererView) -> (RendererView, Option<Frame>) {
    if r.queue.len() == 0 {
        (RendererView { scheduled: false, ..r }, None)
    } else {
        (
            RendererView { scheduled: false, queue: r.queue.drop_first(), ..r },
            Some(r.queue[0]),
        )
    }
}

impl Renderer {
    /// A fresh renderer for a surface: empty queue, no callback
    /// outstanding.
    pub fn new(canvas: u64) -> (r: Renderer)
        ensures
            r@.canvas == canvas,
            r@.queue.len() == 0,
            !r@.scheduled,
    {
        Renderer { canvas, queue: Vec::new(), scheduled: false }
    }

    /// Appends a decoded frame. The result says whether the shell must
    /// request one display-refresh callback: exactly when none was
    /// outstanding, so at most one ever is.
    pub fn push(&mut self, f: Frame) -> (request: bool)
        ensures
            final(self)@ == spec_push(old(self)@, f),
            request == !old(self)@.scheduled,
    {
        self.queue.push(f);
        let request = !self.scheduled;
        self.scheduled = true;
        request
    }

    /// One display-refresh tick: spends the outstanding callback and yields
    /// the oldest queued frame, which the shell blits after resizing the
    /// surface to the frame's dimensions. Does not re-arm a callback
    /// itself; only the next push does.
    pub fn render(&mut self) -> (shown: Option<Frame>)
        ensures
            final(self)@ == spec_render(old(self)@).0,
            shown == spec_render(old(self)@).1,
    {
        self.scheduled = false;
        if self.queue.len() == 0 {
            None
        } else {
            let f = self.queue.remove(0);
            proof {
                assert(old(self)@.queue.remove(0) =~= old(self)@.queue.drop_first());
            }
            Some(f)
        }
    }
}

/// Presentation order: frames pushed in some order, with one refresh tick
/// taken between pushes, are shown in exactly that order — none skipped,
/// none repeated — and the queue is drained.
pub proof fn lemma_renderer_fifo(r0: RendererView, f1: Frame, f2: Frame, f3: Frame)
    requires
        r0.queue.len() == 0,
    ensures
        ({
            let r1 = spec_push(r0, f1);
            let s1 = spec_render(r1);
            let r3 = spec_push(s1.0, f2);
            let s2 = spec_render(r3);
            let r5 = spec_push(s2.0, f3);
            let s3 = spec_render(r5);
            &&& s1.1 == Some(f1)
            &&& s2.1 == Some(f2)
            &&& s3.1 == Some(f3)
            &&& s3.0.queue.len() == 0
        }),
{
    let r1 = spec_push(r0, f1);
    assert(r1.queue =~= seq![f1]);
    let s1 = spec_render(r1);
    assert(s1.0.queue =~= Seq::<Frame>::empty());
    let r3 = spec_push(s1.0, f2);
    assert(r3.queue =~= seq![f2]);
    let s2 = spec_render(r3);
    assert(s2.0.queue =~= Seq::<Frame>::empty());
    let r5 = spec_push(s2.0, f3);
    assert(r5.queue =~= seq![f3]);
    let s3 = spec_render(r5);
    assert(s3.0.queue =~= Seq::<Frame>::empty());
}

} // verus!
