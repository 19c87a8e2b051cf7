use vstd::prelude::*;

verus! {

/// Width and height of a drawable area or of the presentable images, in pixels.
#[derive(Clone, Copy, Debug, PartialEq, Eq, Structural)]
pub struct Extent {
    pub width: u32,
    pub height: u32,
}

/// Side of the square of pixels that one compute workgroup covers.
pub const WORKGROUP_SIDE: u32 = 8;

/// Number of compute workgroups in each direction of one dispatch.
#[derive(Clone, Copy, Debug, PartialEq, Eq, Structural)]
pub struct Workgroups {
    pub x: u32,
    pub y: u32,
    pub z: u32,
}

pub open spec fn workgroups_for(e: Extent) -> Workgroups {
    Workgroups { x: e.width / WORKGROUP_SIDE, y: e.height / WORKGROUP_SIDE, z: 1 }
}

/// The workgroups dispatched over an image of `extent`: whole 8 by 8 tiles
/// only, so a right or bottom margin narrower than a tile is not covered.
pub fn dispatch_size(extent: Extent) -> (r: Workgroups)
    ensures
        r == workgroups_for(extent),
{
    Workgroups { x: extent.width / WORKGROUP_SIDE, y: extent.height / WORKGROUP_SIDE, z: 1 }
}

/// The rolling completion token: GPU work for the first `frames` frames is
/// behind it. `pending` where it waits on submitted work, false where it is
/// already signalled.
#[derive(Clone, Copy, Debug, PartialEq, Eq, Structural)]
pub struct Token {
    pub frames: u64,
    pub pending: bool,
}

/// The handle of one acquired frame: the index of its presentable image, the
/// extent of that image, and its place in the order of frames.
#[derive(Clone, Copy, Debug, PartialEq, Eq, Structural)]
pub struct Frame {
    pub idx: usize,
    pub extent: Extent,
    pub serial: u64,
}

impl Frame {
    /// The workgroups that cover this frame's image.
    pub fn workgroups(&self) -> (r: Workgroups)
        ensures
            r == workgroups_for(self.extent),
    {
        dispatch_size(self.extent)
    }
}

/// Where the engine stands in the life of a frame.
#[derive(Clone, Copy, Debug, PartialEq, Eq, Structural)]
pub enum Phase {
    /// No frame is being prepared.
    Idle,
    /// An image is being asked for.
    Acquiring,
    /// `frame` was handed out and not yet submitted.
    Acquired { frame: Frame },
    /// `frame` was submitted and its flush has not been reported.
    Submitted { frame: Frame },
}

/// What the backend answered when asked for the next presentable image.
#[derive(Clone, Copy, Debug, PartialEq, Eq, Structural)]
pub enum AcquireOutcome {
    Ready { index: usize },
    Stale,
}

/// What the backend answered to the flush that ends a submission.
#[derive(Clone, Copy, Debug, PartialEq, Eq, Structural)]
pub enum FlushOutcome {
    Flushed,
    Stale,
    Failed,
}

/// What the caller must do next to obtain an image: rebuild the image ring at
/// `extent` and then ask for an image, or ask for one straight away.
#[derive(Clone, Copy, Debug, PartialEq, Eq, Structural)]
pub enum Request {
    Rebuild { extent: Extent },
    Acquire,
}

/// The work to issue for one frame: it waits on `after` and on the frame's
/// own acquisition, then runs, then presents `frame.idx`.
#[derive(Clone, Copy, Debug, PartialEq, Eq, Structural)]
pub struct Submission {
    pub after: Token,
    pub frame: Frame,
}

/// What the engine holds, as mathematical values.
pub struct VkView {
    pub rebuild: bool,
    pub extent: Extent,
    pub token: Token,
    pub submitted: nat,
    pub phase: Phase,
}

/// The state of the presentation engine: whether the image ring must be
/// rebuilt, the extent of its images, the rolling completion token, the
/// number of frames submitted so far and the phase of the current frame.
pub struct Vk {
    rebuild: bool,
    extent: Extent,
    end_of_frame: Token,
    submitted: u64,
    phase: Phase,
}

pub open spec fn view_wf(v: VkView) -> bool {
    &&& v.token.frames == v.submitted
    &&& match v.phase {
        Phase::Acquired { frame } => frame.serial == v.submitted && frame.extent == v.extent,
        Phase::Submitted { frame } => frame.serial == v.submitted,
        _ => true,
    }
}

/// The state after a resize notification.
pub open spec fn resized(v: VkView) -> VkView {
    VkView { rebuild: true, ..v }
}

/// The state after starting or restarting an acquisition with the window's
/// drawable area at `drawable`, and the request that goes with it.
pub open spec fn begun(v: VkView, drawable: Extent) -> (VkView, Request) {
    if v.rebuild {
        (VkView { rebuild: false, extent: drawable, phase: Phase::Acquiring, ..v }, Request::Rebuild { extent: drawable })
    } else {
        (VkView { phase: Phase::Acquiring, ..v }, Request::Acquire)
    }
}

/// The handle that an acquisition of image `index` yields in state `v`.
pub open spec fn handle(v: VkView, index: usize) -> Frame {
    Frame { idx: index, extent: v.extent, serial: v.submitted as u64 }
}

/// The state after the backend answered an acquisition.
pub open spec fn answered(v: VkView, outcome: AcquireOutcome) -> VkView {
    match outcome {
        AcquireOutcome::Ready { index } => VkView { phase: Phase::Acquired { frame: handle(v, index) }, ..v },
        AcquireOutcome::Stale => VkView { rebuild: true, ..v },
    }
}

/// The state after a frame was submitted.
pub open spec fn submitted(v: VkView, frame: Frame) -> VkView {
    VkView { phase: Phase::Submitted { frame }, ..v }
}

/// The state after the flush of the submitted frame was reported. The token
/// now covers one more frame; it waits on GPU work only where the flush went
/// through. A stale surface also asks for a rebuild.
pub open spec fn flushed(v: VkView, outcome: FlushOutcome) -> VkView {
    let frames = v.submitted + 1;
    VkView {
        rebuild: v.rebuild || outcome == FlushOutcome::Stale,
        token: Token { frames: frames as u64, pending: outcome == FlushOutcome::Flushed },
        submitted: frames,
        phase: Phase::Idle,
        ..v
    }
}

/// One thing that can happen to the engine.
pub enum Event {
    Resize,
    Begin { drawable: Extent },
    Answer { outcome: AcquireOutcome },
    Submit,
    Flush { outcome: FlushOutcome },
}

/// The state after `e`; an event that the phase does not admit changes nothing.
pub open spec fn step(v: VkView, e: Event) -> VkView {
    match e {
        Event::Resize => resized(v),
        Event::Begin { drawable } => if v.phase == Phase::Idle || v.phase == Phase::Acquiring {
            begun(v, drawable).0
        } else {
            v
        },
        Event::Answer { outcome } => if v.phase == Phase::Acquiring {
            answered(v, outcome)
        } else {
            v
        },
        Event::Submit => match v.phase {
            Phase::Acquired { frame } => submitted(v, frame),
            _ => v,
        },
        Event::Flush { outcome } => if v.phase is Submitted {
            flushed(v, outcome)
        } else {
            v
        },
    }
}

/// The state after a sequence of events.
pub open spec fn run(v: VkView, events: Seq<Event>) -> VkView
    decreases events.len(),
{
    if events.len() == 0 {
        v
    } else {
        step(run(v, events.drop_last()), events.last())
    }
}

/// Whatever resizes, acquisitions, submissions and flushes come and in
/// whatever order, a handed-out frame has the extent of the image ring, so its
/// dispatch covers the ring's images, and the token covers every submitted frame.
pub proof fn lemma_events_keep_wf(v: VkView, events: Seq<Event>)
    requires
        view_wf(v),
        v.submitted + events.len() <= u64::MAX,
    ensures
        view_wf(run(v, events)),
        run(v, events).submitted <= v.submitted + events.len(),
        match run(v, events).phase {
            Phase::Acquired { frame } => workgroups_for(frame.extent) == workgroups_for(run(v, events).extent),
            _ => true,
        },
    decreases events.len(),
{
    if events.len() > 0 {
        lemma_events_keep_wf(v, events.drop_last());
    }
}

/// After a resize, the next frame handed out has the drawable extent seen
/// when its acquisition began, and its dispatch covers that extent.
pub proof fn lemma_resize_reaches_dispatch(v: VkView, drawable: Extent, index: usize)
    requires
        view_wf(v),
        v.phase == Phase::Idle,
    ensures
        ({
            let w = begun(resized(v), drawable).0;
            &&& handle(w, index).extent == drawable
            &&& workgroups_for(handle(w, index).extent) == workgroups_for(drawable)
        }),
{
}

/// Each frame's submission waits on the token of all earlier frames, and its
/// flush, whatever its outcome, leaves a token that the next frame, which
/// comes next in order, waits on in turn.
pub proof fn lemma_frames_chain(v: VkView, frame: Frame, outcome: FlushOutcome, index: usize)
    requires
        view_wf(v),
        v.phase == (Phase::Acquired { frame }),
        v.submitted < u64::MAX,
    ensures
        v.token.frames == frame.serial,
        ({
            let w = flushed(submitted(v, frame), outcome);
            &&& w.token.frames == frame.serial + 1
            &&& handle(w, index).serial == frame.serial + 1
            &&& view_wf(w)
        }),
{
}

/// `k` stale answers and then a ready one.
pub open spec fn stale_then_ready(k: nat, index: usize) -> Seq<AcquireOutcome> {
    Seq::new(k, |i: int| AcquireOutcome::Stale).push(AcquireOutcome::Ready { index })
}

/// Drives an acquisition through `answers` as a caller does: begin, rebuild
/// where asked, take the answer, and begin again after a stale one. Gives the
/// final state, the number of rebuilds asked for and the handle, if one came.
pub open spec fn acquisition(v: VkView, drawable: Extent, answers: Seq<AcquireOutcome>) -> (VkView, nat, Option<Frame>)
    decreases answers.len(),
{
    let (w, req) = begun(v, drawable);
    let rebuilt: nat = if req is Rebuild { 1 } else { 0 };
    if answers.len() == 0 {
        (w, rebuilt, None)
    } else {
        match answers[0] {
            AcquireOutcome::Ready { index } => (answered(w, answers[0]), rebuilt, Some(handle(w, index))),
            AcquireOutcome::Stale => {
                let (u, n, f) = acquisition(answered(w, answers[0]), drawable, answers.drop_first());
                (u, rebuilt + n, f)
            },
        }
    }
}

/// Each stale answer leads to exactly one rebuild before the next attempt,
/// and after `k` stale answers a ready one ends the acquisition with a handle,
/// at the drawable extent where any rebuild took place.
pub proof fn lemma_stale_answers_rebuild_once(v: VkView, drawable: Extent, k: nat, index: usize)
    requires
        view_wf(v),
        v.phase == Phase::Idle || v.phase == Phase::Acquiring,
    ensures
        ({
            let (w, n, f) = acquisition(v, drawable, stale_then_ready(k, index));
            &&& n == k + (if v.rebuild { 1nat } else { 0nat })
            &&& f == Some(handle(w, index))
            &&& w.phase == (Phase::Acquired { frame: f.unwrap() })
            &&& f.unwrap().extent == (if k > 0 || v.rebuild { drawable } else { v.extent })
            &&& f.unwrap().serial == v.submitted
            &&& view_wf(w)
        }),
    decreases k,
{
    let answers = stale_then_ready(k, index);
    if k > 0 {
        let w = answered(begun(v, drawable).0, AcquireOutcome::Stale);
        assert(answers.drop_first() =~= stale_then_ready((k - 1) as nat, index));
        assert(answers[0] == AcquireOutcome::Stale);
        lemma_stale_answers_rebuild_once(w, drawable, (k - 1) as nat, index);
    } else {
        assert(answers[0] == AcquireOutcome::Ready { index });
    }
}

impl Vk {
    pub closed spec fn view(&self) -> VkView {
        VkView {
            rebuild: self.rebuild,
            extent: self.extent,
            token: self.end_of_frame,
            submitted: self.submitted as nat,
            phase: self.phase,
        }
    }

    pub open spec fn wf(&self) -> bool {
        view_wf(self@)
    }

    /// An engine whose image ring was just built at `extent`, with no frame
    /// submitted and an already signalled token.
    pub fn new(extent: Extent) -> (r: Vk)
        ensures
            r.wf(),
            r@ == (VkView {
                rebuild: false,
                extent,
                token: Token { frames: 0, pending: false },
                submitted: 0,
                phase: Phase::Idle,
            }),
    {
        Vk {
            rebuild: false,
            extent,
            end_of_frame: Token { frames: 0, pending: false },
            submitted: 0,
            phase: Phase::Idle,
        }
    }

    pub fn extent(&self) -> (r: Extent)
        ensures
            r == self@.extent,
    {
        self.extent
    }

    pub fn end_of_frame(&self) -> (r: Token)
        ensures
            r == self@.token,
    {
        self.end_of_frame
    }

    pub fn needs_rebuild(&self) -> (r: bool)
        ensures
            r == self@.rebuild,
    {
        self.rebuild
    }

    pub fn phase(&self) -> (r: Phase)
        ensures
            r == self@.phase,
    {
        self.phase
    }

    /// Notes that the window was resized: the ring is rebuilt before the next
    /// image is asked for.
    pub fn mark_for_resize(&mut self)
        requires
            old(self).wf(),
        ensures
            final(self).wf(),
            final(self)@ == resized(old(self)@),
    {
        self.rebuild = true;
    }

    /// Starts, or restarts after a stale answer, the acquisition of the next
    /// image while the window's drawable area is `drawable`. Where a rebuild
    /// is due, the ring takes that extent and the request says to rebuild.
    pub fn next_frame(&mut self, drawable: Extent) -> (r: Request)
        requires
            old(self).wf(),
            old(self)@.phase == Phase::Idle || old(self)@.phase == Phase::Acquiring,
        ensures
            final(self).wf(),
            (final(self)@, r) == begun(old(self)@, drawable),
    {
        self.phase = Phase::Acquiring;
        if self.rebuild {
            self.rebuild = false;
            self.extent = drawable;
            Request::Rebuild { extent: drawable }
        } else {
            Request::Acquire
        }
    }

    /// Takes the backend's answer to an acquisition. A ready image gives the
    /// frame's handle; a stale surface gives none and asks for a rebuild,
    /// after which the caller starts again with `next_frame`.
    pub fn on_acquire(&mut self, outcome: AcquireOutcome) -> (r: Option<Frame>)
        requires
            old(self).wf(),
            old(self)@.phase == Phase::Acquiring,
        ensures
            final(self).wf(),
            final(self)@ == answered(old(self)@, outcome),
            r == (match outcome {
                AcquireOutcome::Ready { index } => Some(handle(old(self)@, index)),
                AcquireOutcome::Stale => None,
            }),
    {
        match outcome {
            AcquireOutcome::Ready { index } => {
                let frame = Frame { idx: index, extent: self.extent, serial: self.submitted };
                self.phase = Phase::Acquired { frame };
                Some(frame)
            },
            AcquireOutcome::Stale => {
                self.rebuild = true;
                None
            },
        }
    }

    /// Submits the frame that was handed out: its work waits on the current
    /// token, which covers every earlier frame, and on its own acquisition.
    pub fn submit(&mut self, frame: Frame) -> (r: Submission)
        requires
            old(self).wf(),
            old(self)@.phase == (Phase::Acquired { frame }),
        ensures
            final(self).wf(),
            final(self)@ == submitted(old(self)@, frame),
            r == (Submission { after: old(self)@.token, frame }),
            r.after.frames == frame.serial,
    {
        self.phase = Phase::Submitted { frame };
        Submission { after: self.end_of_frame, frame }
    }

    /// Takes the outcome of the flush that ends a submission. The token is
    /// replaced by one that covers the submitted frame: the frame's own where
    /// the flush went through, an already signalled one where the frame was
    /// dropped, so that no later frame waits on work that will never finish.
    pub fn on_flush(&mut self, outcome: FlushOutcome)
        requires
            old(self).wf(),
            old(self)@.phase is Submitted,
            old(self)@.submitted < u64::MAX,
        ensures
            final(self).wf(),
            final(self)@ == flushed(old(self)@, outcome),
    {
        let frames: u64 = self.submitted + 1;
        let pending = match outcome {
            FlushOutcome::Flushed => true,
            _ => false,
        };
        if let FlushOutcome::Stale = outcome {
            self.rebuild = true;
        }
        self.end_of_frame = Token { frames, pending };
        self.submitted = frames;
        self.phase = Phase::Idle;
    }
}

} // verus!
