//! The presenter: the frame-in-flight synchronizer and the recreation flags
//! it shares with the resize controller.
//!
//! The presenter decides and never touches the device. Its caller performs
//! each action on the device and hands the outcome back as the next event.

use vstd::prelude::*;
use crate::swapchain::Extent;

verus! {

/// The completion signal of one submission: the rotation step it was made
/// at and the image it drew to.
#[derive(Clone, Copy, Debug, PartialEq, Eq, Structural)]
pub struct SubmissionTicket {
    pub rotation: usize,
    pub image: usize,
}

/// Synchronization state of one presentable image: the fence of the last
/// submission against it, until that fence has been waited on.
#[derive(Clone, Copy, Debug, PartialEq, Eq)]
pub struct InFlightSlot {
    pub index: usize,
    pub fence: Option<SubmissionTicket>,
}

/// Where the presenter stands within a frame.
#[derive(Clone, Copy, Debug, PartialEq, Eq, Structural)]
pub enum Phase {
    /// No frame is under way.
    Idle,
    /// The next image has been asked for.
    Acquiring,
    /// The image's earlier fence is being waited on.
    WaitingOnImage { image: usize },
    /// The frame's work has been handed to the queue.
    Submitted { image: usize },
    /// The present of the image has been chained to the submission.
    PresentRequested { image: usize },
}

/// What the device answered to the last action.
#[derive(Clone, Copy, Debug, PartialEq, Eq, Structural)]
pub enum PresentEvent {
    /// A frame is to be presented.
    FrameRequested,
    /// The chain handed out `image`; `suboptimal` where it no longer fits the surface.
    ImageAcquired { image: usize, suboptimal: bool },
    /// The chain no longer matches the surface and hands out nothing.
    OutOfDate,
    /// The fence that was waited on has signaled.
    FenceSignaled,
    /// The queue took the submission.
    WorkSubmitted,
    /// The present was queued; `out_of_date` where it found the chain stale.
    PresentQueued { out_of_date: bool },
    /// The device or the surface is gone.
    DeviceLost,
}

/// What the caller is to do next.
#[derive(Clone, Copy, Debug, PartialEq, Eq)]
pub enum PresentAction {
    /// Ask the chain for its next image, waiting as long as it takes.
    AcquireImage,
    /// Wait, without a timeout, for `fence`, which guards `image`.
    WaitFence { image: usize, fence: SubmissionTicket },
    /// Submit the frame's stream for `image`, ordered after the acquire and
    /// after the submission `after`; its completion signals `signal`.
    Submit { image: usize, after: Option<SubmissionTicket>, signal: SubmissionTicket },
    /// Chain the present of `image` to the submission that signals `signal`.
    Present { image: usize, signal: SubmissionTicket },
    /// The frame is on its way to the screen.
    FrameDone,
    /// The frame was given up; nothing was submitted or presented.
    FrameDropped,
}

/// Why an event was not acted on.
#[derive(Clone, Copy, Debug, PartialEq, Eq, Structural)]
pub enum PresentError {
    /// The event answers no action that is outstanding.
    UnexpectedEvent,
    /// The acquired image has no slot.
    ImageOutOfRange,
    /// The device or the surface is gone: the frame loop must end.
    DeviceLost,
}

/// One piece of rebuilding after a resize.
#[derive(Clone, Copy, Debug, PartialEq, Eq, Structural)]
pub enum RecreateStep {
    Swapchain,
    Targets,
    Viewport,
}

/// What a trigger asks to be rebuilt: the chain at `extent`, then the frame
/// targets, then, where `viewport` is set, the pipeline's viewport state.
#[derive(Clone, Copy, Debug, PartialEq, Eq, Structural)]
pub struct RecreatePlan {
    pub extent: Extent,
    pub viewport: bool,
}

/// The presenter as a value.
pub struct PresenterState {
    /// One slot per presentable image.
    pub slots: Seq<InFlightSlot>,
    /// The completion of the latest submission, for the next one to be ordered after.
    pub ticket: Option<SubmissionTicket>,
    /// The rotation step of the frame under way, or of the next one.
    pub rotation: usize,
    pub phase: Phase,
    /// The window told of a new size, and the rebuild is still owed.
    pub window_resized: bool,
    /// The chain was found stale or suboptimal, and the rebuild is still owed.
    pub recreate_swapchain: bool,
}

impl SubmissionTicket {
    /// The rotation step before `rotation` among `count` steps, wrapping.
    pub open spec fn step_before(rotation: usize, count: nat) -> int {
        if rotation == 0 {
            count - 1
        } else {
            rotation - 1
        }
    }

    /// The rotation step after `rotation` among `count` steps, wrapping.
    pub open spec fn step_after(rotation: usize, count: nat) -> int {
        if rotation + 1 >= count {
            0
        } else {
            rotation + 1
        }
    }
}

impl PresenterState {
    /// A presenter for `count` images before its first frame.
    pub open spec fn initial(count: nat) -> PresenterState {
        PresenterState {
            slots: Seq::new(count, |i: int| InFlightSlot { index: i as usize, fence: None }),
            ticket: None,
            rotation: 0,
            phase: Phase::Idle,
            window_resized: false,
            recreate_swapchain: false,
        }
    }

    /// The ticket of a submission made now against `image`.
    pub open spec fn ticket_for(self, image: usize) -> SubmissionTicket {
        SubmissionTicket { rotation: self.rotation, image }
    }

    /// Slot `i` holds a fence that has not been waited on.
    pub open spec fn guarded(self, i: int) -> bool {
        0 <= i < self.slots.len() && self.slots[i].fence is Some
    }

    /// The invariant of every presenter: each slot knows its index, the
    /// rotation step is one of the slots', the image under way has a slot that
    /// is guarded exactly while it is waited on or presented, and the ticket
    /// is that of the rotation step just before, or of this one once the
    /// frame's work is submitted.
    pub open spec fn wf(self) -> bool {
        &&& self.slots.len() <= usize::MAX
        &&& forall|i: int| 0 <= i < self.slots.len() ==> (#[trigger] self.slots[i]).index == i
        &&& (self.slots.len() == 0 ==> self.rotation == 0)
        &&& (self.slots.len() > 0 ==> self.rotation < self.slots.len())
        &&& match self.phase {
            Phase::Idle | Phase::Acquiring => true,
            Phase::WaitingOnImage { image } => self.guarded(image as int),
            Phase::Submitted { image } => image < self.slots.len() && !self.guarded(image as int),
            Phase::PresentRequested { image } => image < self.slots.len()
                && self.slots[image as int].fence == Some(self.ticket_for(image)),
        }
        &&& match self.phase {
            Phase::PresentRequested { image } => self.ticket == Some(self.ticket_for(image)),
            _ => match self.ticket {
                Some(t) => t.rotation == SubmissionTicket::step_before(
                    self.rotation,
                    self.slots.len(),
                ),
                None => true,
            },
        }
    }

    /// The state with slot `image` holding `fence`.
    pub open spec fn with_fence(self, image: usize, fence: Option<SubmissionTicket>) -> PresenterState {
        PresenterState {
            slots: self.slots.update(image as int, InFlightSlot { index: image, fence }),
            ..self
        }
    }

    /// Handing the frame's work for `image` to the queue.
    pub open spec fn submit(self, image: usize) -> (PresenterState, Result<
        PresentAction,
        PresentError,
    >) {
        (
            PresenterState { phase: Phase::Submitted { image }, ..self },
            Ok(
                PresentAction::Submit {
                    image,
                    after: self.ticket,
                    signal: self.ticket_for(image),
                },
            ),
        )
    }

    /// The transition on one event: the next state and what the caller is
    /// told. An event that answers nothing outstanding changes nothing. The
    /// loss of the device ends the frame and drops the ticket.
    pub open spec fn step(self, event: PresentEvent) -> (PresenterState, Result<
        PresentAction,
        PresentError,
    >) {
        match (self.phase, event) {
            (_, PresentEvent::DeviceLost) => (
                PresenterState { phase: Phase::Idle, ticket: None, ..self },
                Err(PresentError::DeviceLost),
            ),
            (Phase::Idle, PresentEvent::FrameRequested) => (
                PresenterState { phase: Phase::Acquiring, ..self },
                Ok(PresentAction::AcquireImage),
            ),
            (Phase::Acquiring, PresentEvent::OutOfDate) => (
                PresenterState { phase: Phase::Idle, recreate_swapchain: true, ..self },
                Ok(PresentAction::FrameDropped),
            ),
            (Phase::Acquiring, PresentEvent::ImageAcquired { image, suboptimal }) => {
                if image >= self.slots.len() {
                    (self, Err(PresentError::ImageOutOfRange))
                } else {
                    let flagged = PresenterState {
                        recreate_swapchain: self.recreate_swapchain || suboptimal,
                        ..self
                    };
                    match self.slots[image as int].fence {
                        Some(fence) => (
                            PresenterState { phase: Phase::WaitingOnImage { image }, ..flagged },
                            Ok(PresentAction::WaitFence { image, fence }),
                        ),
                        None => flagged.submit(image),
                    }
                }
            },
            (Phase::WaitingOnImage { image }, PresentEvent::FenceSignaled) => self.with_fence(
                image,
                None,
            ).submit(image),
            (Phase::Submitted { image }, PresentEvent::WorkSubmitted) => {
                let ticket = self.ticket_for(image);
                (
                    PresenterState {
                        ticket: Some(ticket),
                        phase: Phase::PresentRequested { image },
                        ..self.with_fence(image, Some(ticket))
                    },
                    Ok(PresentAction::Present { image, signal: ticket }),
                )
            },
            (Phase::PresentRequested { image }, PresentEvent::PresentQueued { out_of_date }) => (
                PresenterState {
                    rotation: SubmissionTicket::step_after(self.rotation, self.slots.len()) as usize,
                    phase: Phase::Idle,
                    recreate_swapchain: self.recreate_swapchain || out_of_date,
                    ..self
                },
                Ok(PresentAction::FrameDone),
            ),
            _ => (self, Err(PresentError::UnexpectedEvent)),
        }
    }

    /// The state after a run of events, each answered by [`Self::step`].
    pub open spec fn run(self, events: Seq<PresentEvent>) -> PresenterState
        decreases events.len(),
    {
        if events.len() == 0 {
            self
        } else {
            self.run(events.drop_last()).step(events.last()).0
        }
    }

    /// What a rebuild trigger asks for at `extent`: nothing unless a flag is
    /// raised, and nothing while the window has a zero dimension.
    pub open spec fn plan(self, extent: Extent) -> Option<RecreatePlan> {
        if (self.window_resized || self.recreate_swapchain) && extent.nonzero() {
            Some(RecreatePlan { extent, viewport: self.window_resized })
        } else {
            None
        }
    }

    /// The state after the flags were looked at: a plan consumes both.
    pub open spec fn planned(self, extent: Extent) -> PresenterState {
        if self.plan(extent) is Some {
            PresenterState { window_resized: false, recreate_swapchain: false, ..self }
        } else {
            self
        }
    }

    /// The state for a chain of `count` images. Between frames a changed
    /// count keeps the slots that remain, adds empty ones, drops the ticket
    /// and starts the rotation over; otherwise nothing changes.
    pub open spec fn resized(self, count: nat) -> PresenterState {
        if self.phase == Phase::Idle && count != self.slots.len() {
            PresenterState {
                slots: Seq::new(
                    count,
                    |i: int|
                        if i < self.slots.len() {
                            self.slots[i]
                        } else {
                            InFlightSlot { index: i as usize, fence: None }
                        },
                ),
                ticket: None,
                rotation: 0,
                ..self
            }
        } else {
            self
        }
    }
}

impl RecreatePlan {
    /// The steps of the plan, in the order they must be performed.
    pub open spec fn step_seq(self) -> Seq<RecreateStep> {
        if self.viewport {
            seq![RecreateStep::Swapchain, RecreateStep::Targets, RecreateStep::Viewport]
        } else {
            seq![RecreateStep::Swapchain, RecreateStep::Targets]
        }
    }

    /// Lists the steps in the order they must be performed: the pipeline's
    /// viewport state refers to the new targets' formats and comes last.
    pub fn steps(&self) -> (steps: Vec<RecreateStep>)
        ensures
            steps@ == self.step_seq(),
    {
        let mut steps: Vec<RecreateStep> = Vec::new();
        steps.push(RecreateStep::Swapchain);
        steps.push(RecreateStep::Targets);
        if self.viewport {
            steps.push(RecreateStep::Viewport);
        }
        assert(steps@ =~= self.step_seq());
        steps
    }
}

/// Paces frames against the device: one slot per presentable image, the
/// ticket of the latest submission, and the flags that ask for a rebuild.
pub struct Presenter {
    fences: Vec<InFlightSlot>,
    ticket: Option<SubmissionTicket>,
    rotation: usize,
    phase: Phase,
    window_resized: bool,
    recreate_swapchain: bool,
}

impl View for Presenter {
    type V = PresenterState;

    closed spec fn view(&self) -> PresenterState {
        PresenterState {
            slots: self.fences@,
            ticket: self.ticket,
            rotation: self.rotation,
            phase: self.phase,
            window_resized: self.window_resized,
            recreate_swapchain: self.recreate_swapchain,
        }
    }
}

impl Presenter {
    /// A presenter for a chain of `image_count` images: every slot empty.
    pub fn new(image_count: usize) -> (presenter: Presenter)
        ensures
            presenter@ == PresenterState::initial(image_count as nat),
            presenter@.wf(),
    {
        let mut fences: Vec<InFlightSlot> = Vec::new();
        let mut i: usize = 0;
        while i < image_count
            invariant
                i <= image_count,
                fences@.len() == i,
                forall|k: int|
                    0 <= k < i ==> fences@[k] == (InFlightSlot { index: k as usize, fence: None }),
            decreases image_count - i,
        {
            fences.push(InFlightSlot { index: i, fence: None });
            i = i + 1;
        }
        assert(fences@ =~= PresenterState::initial(image_count as nat).slots);
        Presenter {
            fences,
            ticket: None,
            rotation: 0,
            phase: Phase::Idle,
            window_resized: false,
            recreate_swapchain: false,
        }
    }

    /// Notes that the window has a new size. The flag stays up until a
    /// rebuild consumes it.
    pub fn notify_resize(&mut self)
        ensures
            final(self)@ == (PresenterState { window_resized: true, ..old(self)@ }),
            old(self)@.wf() ==> final(self)@.wf(),
    {
        self.window_resized = true;
    }

    /// Whether a rebuild is owed.
    pub fn needs_recreate(&self) -> (b: bool)
        ensures
            b == (self@.window_resized || self@.recreate_swapchain),
    {
        self.window_resized || self.recreate_swapchain
    }

    /// Where the presenter stands within the frame.
    pub fn phase(&self) -> (phase: Phase)
        ensures
            phase == self@.phase,
    {
        self.phase
    }

    /// The rotation step of the frame under way, or of the next one.
    pub fn rotation(&self) -> (rotation: usize)
        ensures
            rotation == self@.rotation,
    {
        self.rotation
    }

    /// The completion that the next submission is ordered after.
    pub fn ticket(&self) -> (ticket: Option<SubmissionTicket>)
        ensures
            ticket == self@.ticket,
    {
        self.ticket
    }

    /// The slots, one per presentable image.
    pub fn slots(&self) -> (slots: &Vec<InFlightSlot>)
        ensures
            slots@ == self@.slots,
    {
        &self.fences
    }

    /// Decides whether to rebuild for a window of size `extent`. A raised
    /// flag yields the plan and is consumed with it; with no flag raised, or
    /// while the window has a zero dimension, nothing is asked and nothing
    /// changes.
    pub fn recreate(&mut self, extent: Extent) -> (plan: Option<RecreatePlan>)
        ensures
            plan == old(self)@.plan(extent),
            final(self)@ == old(self)@.planned(extent),
            old(self)@.wf() ==> final(self)@.wf(),
    {
        if (self.window_resized || self.recreate_swapchain) && extent.is_nonzero() {
            let plan = RecreatePlan { extent, viewport: self.window_resized };
            self.window_resized = false;
            self.recreate_swapchain = false;
            Some(plan)
        } else {
            None
        }
    }

    /// Fits the slots to a chain of `image_count` images and tells whether
    /// anything changed. Has no effect while a frame is under way.
    pub fn resize(&mut self, image_count: usize) -> (changed: bool)
        requires
            old(self)@.wf(),
        ensures
            final(self)@ == old(self)@.resized(image_count as nat),
            changed == (old(self)@.phase == Phase::Idle && image_count != old(self)@.slots.len()),
            final(self)@.wf(),
    {
        let idle = match self.phase {
            Phase::Idle => true,
            _ => false,
        };
        if !idle || image_count == self.fences.len() {
            return false;
        }
        let mut fences: Vec<InFlightSlot> = Vec::new();
        let mut i: usize = 0;
        while i < image_count
            invariant
                i <= image_count,
                fences@.len() == i,
                forall|k: int|
                    0 <= k < i ==> fences@[k] == (if k < self.fences@.len() {
                        self.fences@[k]
                    } else {
                        InFlightSlot { index: k as usize, fence: None }
                    }),
            decreases image_count - i,
        {
            if i < self.fences.len() {
                fences.push(self.fences[i]);
            } else {
                fences.push(InFlightSlot { index: i, fence: None });
            }
            i = i + 1;
        }
        assert(fences@ =~= old(self)@.resized(image_count as nat).slots);
        self.fences = fences;
        self.ticket = None;
        self.rotation = 0;
        true
    }

    /// Takes the outcome of the last action and answers with the next one.
    /// The transition is exactly [`PresenterState::step`].
    pub fn present(&mut self, event: PresentEvent) -> (r: Result<PresentAction, PresentError>)
        requires
            old(self)@.wf(),
        ensures
            final(self)@ == old(self)@.step(event).0,
            r == old(self)@.step(event).1,
            final(self)@.wf(),
    {
        proof {
            lemma_step_wf(self@, event);
        }
        match event {
            PresentEvent::DeviceLost => {
                self.phase = Phase::Idle;
                self.ticket = None;
                Err(PresentError::DeviceLost)
            },
            PresentEvent::FrameRequested => match self.phase {
                Phase::Idle => {
                    self.phase = Phase::Acquiring;
                    Ok(PresentAction::AcquireImage)
                },
                _ => Err(PresentError::UnexpectedEvent),
            },
            PresentEvent::OutOfDate => match self.phase {
                Phase::Acquiring => {
                    self.phase = Phase::Idle;
                    self.recreate_swapchain = true;
                    Ok(PresentAction::FrameDropped)
                },
                _ => Err(PresentError::UnexpectedEvent),
            },
            PresentEvent::ImageAcquired { image, suboptimal } => match self.phase {
                Phase::Acquiring => {
                    if image >= self.fences.len() {
                        return Err(PresentError::ImageOutOfRange);
                    }
                    if suboptimal {
                        self.recreate_swapchain = true;
                    }
                    match self.fences[image].fence {
                        Some(fence) => {
                            self.phase = Phase::WaitingOnImage { image };
                            Ok(PresentAction::WaitFence { image, fence })
                        },
                        None => {
                            self.phase = Phase::Submitted { image };
                            Ok(
                                PresentAction::Submit {
                                    image,
                                    after: self.ticket,
                                    signal: SubmissionTicket { rotation: self.rotation, image },
                                },
                            )
                        },
                    }
                },
                _ => Err(PresentError::UnexpectedEvent),
            },
            PresentEvent::FenceSignaled => match self.phase {
                Phase::WaitingOnImage { image } => {
                    self.fences.set(image, InFlightSlot { index: image, fence: None });
                    self.phase = Phase::Submitted { image };
                    Ok(
                        PresentAction::Submit {
                            image,
                            after: self.ticket,
                            signal: SubmissionTicket { rotation: self.rotation, image },
                        },
                    )
                },
                _ => Err(PresentError::UnexpectedEvent),
            },
            PresentEvent::WorkSubmitted => match self.phase {
                Phase::Submitted { image } => {
                    let ticket = SubmissionTicket { rotation: self.rotation, image };
                    self.fences.set(image, InFlightSlot { index: image, fence: Some(ticket) });
                    self.ticket = Some(ticket);
                    self.phase = Phase::PresentRequested { image };
                    Ok(PresentAction::Present { image, signal: ticket })
                },
                _ => Err(PresentError::UnexpectedEvent),
            },
            PresentEvent::PresentQueued { out_of_date } => match self.phase {
                Phase::PresentRequested { image } => {
                    if out_of_date {
                        self.recreate_swapchain = true;
                    }
                    self.rotation = if self.rotation + 1 >= self.fences.len() {
                        0
                    } else {
                        self.rotation + 1
                    };
                    self.phase = Phase::Idle;
                    Ok(PresentAction::FrameDone)
                },
                _ => Err(PresentError::UnexpectedEvent),
            },
        }
    }
}

/// Every transition keeps the presenter's invariant.
pub proof fn lemma_step_wf(s: PresenterState, event: PresentEvent)
    requires
        s.wf(),
    ensures
        s.step(event).0.wf(),
{
    let next = s.step(event).0;
    match (s.phase, event) {
        (Phase::WaitingOnImage { image }, PresentEvent::FenceSignaled) => {
            assert forall|i: int| 0 <= i < next.slots.len() implies (#[trigger] next.slots[i]).index
                == i by {
                if i != image {
                    assert(next.slots[i] == s.slots[i]);
                }
            }
        },
        (Phase::Submitted { image }, PresentEvent::WorkSubmitted) => {
            assert forall|i: int| 0 <= i < next.slots.len() implies (#[trigger] next.slots[i]).index
                == i by {
                if i != image {
                    assert(next.slots[i] == s.slots[i]);
                }
            }
        },
        _ => {},
    }
}

/// Every run of events keeps the invariant and the number of slots.
pub proof fn lemma_run_wf(s: PresenterState, events: Seq<PresentEvent>)
    requires
        s.wf(),
    ensures
        s.run(events).wf(),
        s.run(events).slots.len() == s.slots.len(),
    decreases events.len(),
{
    if events.len() > 0 {
        lemma_run_wf(s, events.drop_last());
        lemma_step_wf(s.run(events.drop_last()), events.last());
    }
}

/// A run of one more event is a step from the run before it.
pub proof fn lemma_run_step(s: PresenterState, events: Seq<PresentEvent>, k: int)
    requires
        0 <= k < events.len(),
    ensures
        s.run(events.take(k + 1)) == s.run(events.take(k)).step(events[k]).0,
{
    assert(events.take(k + 1).drop_last() =~= events.take(k));
    assert(events.take(k + 1).last() == events[k]);
}

/// Wait before reuse, one step at a time. Work is submitted against an image
/// only while its slot holds no fence. A slot that held a fence loses it
/// only when that fence, having been waited on, signals; and a wait is
/// always for the very fence the slot holds.
pub proof fn lemma_wait_before_reuse(s: PresenterState, event: PresentEvent)
    requires
        s.wf(),
    ensures
        match s.step(event).1 {
            Ok(PresentAction::Submit { image, after, signal }) => {
                &&& image < s.slots.len()
                &&& !s.step(event).0.guarded(image as int)
                &&& s.guarded(image as int) ==> s.phase == (Phase::WaitingOnImage { image })
                    && event == PresentEvent::FenceSignaled
            },
            Ok(PresentAction::WaitFence { image, fence }) => {
                &&& s.guarded(image as int)
                &&& s.slots[image as int].fence == Some(fence)
                &&& s.step(event).0.phase == (Phase::WaitingOnImage { image })
            },
            _ => true,
        },
        forall|i: int|
            s.guarded(i) && !(#[trigger] s.step(event).0.guarded(i)) ==> s.phase
                == (Phase::WaitingOnImage { image: i as usize }) && event
                == PresentEvent::FenceSignaled,
{
    let next = s.step(event).0;
    assert forall|i: int| s.guarded(i) && !(#[trigger] next.guarded(i)) implies s.phase
        == (Phase::WaitingOnImage { image: i as usize }) && event
        == PresentEvent::FenceSignaled by {
        match (s.phase, event) {
            (Phase::WaitingOnImage { image }, PresentEvent::FenceSignaled) => {
                if i != image {
                    assert(next.slots[i] == s.slots[i]);
                }
            },
            (Phase::Submitted { image }, PresentEvent::WorkSubmitted) => {
                if i != image {
                    assert(next.slots[i] == s.slots[i]);
                }
            },
            _ => {},
        }
    }
}

/// While an image is waited on, the wait was asked for: some earlier step of
/// the run answered with the wait for the fence that the image's slot holds,
/// and every event since was turned away.
pub proof fn lemma_wait_was_asked(s: PresenterState, events: Seq<PresentEvent>, image: usize)
    requires
        s.wf(),
        s.phase == Phase::Idle,
        s.run(events).phase == (Phase::WaitingOnImage { image }),
    ensures
        exists|m: int|
            {
                &&& 0 <= m < events.len()
                &&& #[trigger] s.run(events.take(m)).step(events[m]).1 == Ok::<
                    PresentAction,
                    PresentError,
                >(
                    PresentAction::WaitFence {
                        image,
                        fence: s.run(events).slots[image as int].fence->0,
                    },
                )
                &&& forall|j: int|
                    m < j < events.len() ==> (#[trigger] s.run(events.take(j)).step(events[j]).1)
                        is Err
            },
    decreases events.len(),
{
    if events.len() == 0 {
    } else {
        let front = events.drop_last();
        let last = events.last();
        let before = s.run(front);
        let k = events.len() - 1;
        lemma_run_wf(s, front);
        assert(events.take(k) =~= front);
        if before.step(last).1 is Ok {
            assert(s.run(events.take(k)).step(events[k]).1 == Ok::<PresentAction, PresentError>(
                PresentAction::WaitFence {
                    image,
                    fence: s.run(events).slots[image as int].fence->0,
                },
            ));
        } else {
            assert(before.phase == (Phase::WaitingOnImage { image }));
            lemma_wait_was_asked(s, front, image);
            let m = choose|m: int|
                {
                    &&& 0 <= m < front.len()
                    &&& #[trigger] s.run(front.take(m)).step(front[m]).1 == Ok::<
                        PresentAction,
                        PresentError,
                    >(
                        PresentAction::WaitFence {
                            image,
                            fence: s.run(front).slots[image as int].fence->0,
                        },
                    )
                    &&& forall|j: int|
                        m < j < front.len() ==> (#[trigger] s.run(front.take(j)).step(front[j]).1)
                            is Err
                };
            assert(front.take(m) =~= events.take(m));
            assert forall|j: int| m < j < events.len() implies (#[trigger] s.run(
                events.take(j),
            ).step(events[j]).1) is Err by {
                if j < front.len() {
                    assert(front.take(j) =~= events.take(j));
                    assert(s.run(front.take(j)).step(front[j]).1 is Err);
                }
            }
            assert(s.run(events.take(m)).step(events[m]).1 == Ok::<PresentAction, PresentError>(
                PresentAction::WaitFence {
                    image,
                    fence: s.run(events).slots[image as int].fence->0,
                },
            ));
        }
    }
}

/// Wait before reuse, over whole runs. Whatever events a presenter for
/// `count` images has seen, when its next answer is to submit against an
/// image, that image's slot ends up free, and if the slot held a fence
/// just before, then the wait for that very fence was asked for earlier in
/// the run and the event at hand is its signal.
pub proof fn lemma_frames_wait_before_reuse(
    count: nat,
    events: Seq<PresentEvent>,
    k: int,
    image: usize,
)
    requires
        count <= usize::MAX,
        0 <= k < events.len(),
        PresenterState::initial(count).run(events.take(k)).step(events[k]).1 matches Ok(
            PresentAction::Submit { image: i, .. },
        ) && i == image,
    ensures
        image < count,
        !PresenterState::initial(count).run(events.take(k + 1)).guarded(image as int),
        PresenterState::initial(count).run(events.take(k)).guarded(image as int) ==> {
            &&& events[k] == PresentEvent::FenceSignaled
            &&& exists|m: int|
                {
                    &&& 0 <= m < k
                    &&& #[trigger] PresenterState::initial(count).run(events.take(m)).step(
                        events[m],
                    ).1 == Ok::<PresentAction, PresentError>(
                        PresentAction::WaitFence {
                            image,
                            fence: PresenterState::initial(count).run(
                                events.take(k),
                            ).slots[image as int].fence->0,
                        },
                    )
                }
        },
{
    let s = PresenterState::initial(count);
    let prefix = events.take(k);
    let before = s.run(prefix);
    lemma_run_wf(s, prefix);
    lemma_run_step(s, events, k);
    lemma_wait_before_reuse(before, events[k]);
    if before.guarded(image as int) {
        lemma_wait_was_asked(s, prefix, image);
        let m = choose|m: int|
            {
                &&& 0 <= m < prefix.len()
                &&& #[trigger] s.run(prefix.take(m)).step(prefix[m]).1 == Ok::<
                    PresentAction,
                    PresentError,
                >(
                    PresentAction::WaitFence {
                        image,
                        fence: s.run(prefix).slots[image as int].fence->0,
                    },
                )
                &&& forall|j: int|
                    m < j < prefix.len() ==> (#[trigger] s.run(prefix.take(j)).step(prefix[j]).1)
                        is Err
            };
        assert(prefix.take(m) =~= events.take(m));
        assert(s.run(events.take(m)).step(events[m]).1 == Ok::<PresentAction, PresentError>(
            PresentAction::WaitFence { image, fence: before.slots[image as int].fence->0 },
        ));
    }
}

/// The ticket is that of the latest submission, one step at a time. Taking
/// a submission makes its ticket the one to order after; losing the device
/// drops the ticket; nothing else touches it. A submission is ordered after
/// the ticket in force, whose rotation step is the one just before the
/// submission's own.
pub proof fn lemma_ticket_follows_submission(s: PresenterState, event: PresentEvent)
    requires
        s.wf(),
    ensures
        s.step(event).0.ticket == (match (s.phase, event) {
            (_, PresentEvent::DeviceLost) => None,
            (Phase::Submitted { image }, PresentEvent::WorkSubmitted) => Some(s.ticket_for(image)),
            _ => s.ticket,
        }),
        s.step(event).0.rotation == (match (s.phase, event) {
            (_, PresentEvent::DeviceLost) => s.rotation,
            (
                Phase::PresentRequested { image },
                PresentEvent::PresentQueued { out_of_date },
            ) => SubmissionTicket::step_after(s.rotation, s.slots.len()) as usize,
            _ => s.rotation,
        }),
        match s.step(event).1 {
            Ok(PresentAction::Submit { image, after, signal }) => {
                &&& after == s.ticket
                &&& signal == s.ticket_for(image)
                &&& after matches Some(t) ==> t.rotation == SubmissionTicket::step_before(
                    signal.rotation,
                    s.slots.len(),
                )
            },
            _ => true,
        },
{
}

/// Between two submissions nothing changes the ticket: after a step of the
/// run took a submission, and no later step took another or lost the device,
/// the ticket in force is that submission's.
pub proof fn lemma_ticket_is_latest(
    s: PresenterState,
    events: Seq<PresentEvent>,
    m: int,
    image: usize,
)
    requires
        s.wf(),
        0 <= m < events.len(),
        s.run(events.take(m)).phase == (Phase::Submitted { image }),
        events[m] == PresentEvent::WorkSubmitted,
        forall|j: int|
            m < j < events.len() ==> events[j] != PresentEvent::DeviceLost && !(events[j]
                == PresentEvent::WorkSubmitted && (#[trigger] s.run(events.take(j))).phase
                is Submitted),
    ensures
        s.run(events).ticket == Some(s.run(events.take(m)).ticket_for(image)),
    decreases events.len(),
{
    let k = events.len() - 1;
    let front = events.drop_last();
    assert(events.take(k) =~= front);
    assert(events.take(k + 1) =~= events);
    lemma_run_wf(s, front);
    lemma_ticket_follows_submission(s.run(front), events.last());
    if m == k {
    } else {
        assert(front.take(m) =~= events.take(m));
        assert forall|j: int| m < j < front.len() implies front[j] != PresentEvent::DeviceLost && !(
        front[j] == PresentEvent::WorkSubmitted && (#[trigger] s.run(front.take(j))).phase
            is Submitted) by {
            assert(front.take(j) =~= events.take(j));
        }
        lemma_ticket_is_latest(s, front, m, image);
    }
}

/// A submission is ordered after the one just before it, never an older
/// one: where a step of the run took a submission, no later step took
/// another or lost the device, and the next answer is to submit, that
/// submission is ordered after the earlier one's ticket.
pub proof fn lemma_ordered_after_previous(
    s: PresenterState,
    events: Seq<PresentEvent>,
    m: int,
    image: usize,
    event: PresentEvent,
)
    requires
        s.wf(),
        0 <= m < events.len(),
        s.run(events.take(m)).phase == (Phase::Submitted { image }),
        events[m] == PresentEvent::WorkSubmitted,
        forall|j: int|
            m < j < events.len() ==> events[j] != PresentEvent::DeviceLost && !(events[j]
                == PresentEvent::WorkSubmitted && (#[trigger] s.run(events.take(j))).phase
                is Submitted),
        s.run(events).step(event).1 matches Ok(PresentAction::Submit { .. }),
    ensures
        s.run(events).step(event).1 matches Ok(PresentAction::Submit { after, .. }) && after
            == Some(s.run(events.take(m)).ticket_for(image)),
{
    lemma_ticket_is_latest(s, events, m, image);
    lemma_run_wf(s, events);
    lemma_ticket_follows_submission(s.run(events), event);
}

/// Rebuilding is done once per trigger: right after the flags were looked
/// at for an extent, looking again at the same extent asks for nothing and
/// changes nothing.
pub proof fn lemma_recreate_once(s: PresenterState, extent: Extent)
    ensures
        s.planned(extent).plan(extent) is None,
        s.planned(extent).planned(extent) == s.planned(extent),
        s.wf() ==> s.planned(extent).wf(),
{
}

/// A plan rebuilds the chain first and the targets second; the viewport
/// comes third and only for a resize that the window told of.
pub proof fn lemma_plan_order(s: PresenterState, extent: Extent)
    ensures
        match s.plan(extent) {
            Some(plan) => {
                &&& plan.extent == extent
                &&& plan.viewport == s.window_resized
                &&& plan.step_seq()[0] == RecreateStep::Swapchain
                &&& plan.step_seq()[1] == RecreateStep::Targets
                &&& plan.step_seq().len() == (if s.window_resized {
                    3nat
                } else {
                    2nat
                })
                &&& s.window_resized ==> plan.step_seq()[2] == RecreateStep::Viewport
            },
            None => !(s.window_resized || s.recreate_swapchain) || !extent.nonzero(),
        },
{
}

} // verus!
