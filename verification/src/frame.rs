//! The draw cycle over the frames in flight.
//!
//! Each frame in flight owns a command buffer, two semaphores and a fence.
//! Drawing one frame waits for that frame's fence, acquires a swapchain
//! image, and only then resets the fence, records and submits the frame's
//! commands (the submission signals the fence again) and presents the image;
//! then the next frame in flight takes its turn. When no image can be had
//! because the swapchain is out of date, the fence is left signalled, so the
//! next attempt at the frame does not wait for ever. [`DrawLoop`]
//! decides each step from what the previous Vulkan call returned; the caller
//! makes the calls it asks for.

use vstd::prelude::*;
use crate::vulkan::{ERROR_OUT_OF_DATE_KHR, SUBOPTIMAL_KHR};

verus! {

/// How many frames the renderer keeps in flight.
pub const FRAMES_IN_FLIGHT: usize = 2;

/// Where the current frame stands.
#[derive(Clone, Copy, Debug, PartialEq, Eq, Structural)]
pub enum DrawPhase {
    /// No frame is being drawn.
    Idle,
    /// Waiting for the frame's fence.
    WaitingFence,
    /// Acquiring a swapchain image.
    Acquiring,
    /// Resetting the frame's fence, image `image` being acquired.
    ResettingFence { image: u32 },
    /// Recording the frame's commands into the acquired image.
    Recording { image: u32 },
    /// Submitting the recorded commands.
    Submitting { image: u32 },
    /// Presenting the image.
    Presenting { image: u32 },
}

/// What `vkAcquireNextImageKHR` returned.
#[derive(Clone, Copy, Debug, PartialEq, Eq, Structural)]
pub enum AcquireOutcome {
    /// An image index, and whether the swapchain no longer matches the surface.
    Acquired { image: u32, suboptimal: bool },
    /// The raw `VkResult` of a failure.
    Failed { code: i32 },
}

/// What `vkQueuePresentKHR` returned.
#[derive(Clone, Copy, Debug, PartialEq, Eq, Structural)]
pub enum PresentOutcome {
    /// The image was queued; `suboptimal` as the call reported it.
    Presented { suboptimal: bool },
    /// The raw `VkResult` of a failure.
    Failed { code: i32 },
}

/// What the last call asked for by [`DrawLoop::step`] returned, or the
/// request to draw a frame.
#[derive(Clone, Copy, Debug, PartialEq, Eq, Structural)]
pub enum DrawEvent {
    /// A frame is to be drawn.
    Begin,
    /// `vkWaitForFences` returned; `ok` when it succeeded.
    FenceWaited { ok: bool },
    /// `vkResetFences` returned; `ok` when it succeeded.
    FenceReset { ok: bool },
    Acquired { acquire: AcquireOutcome },
    /// The commands were recorded.
    Recorded,
    /// `vkQueueSubmit` returned; `ok` when it succeeded.
    Submitted { ok: bool },
    Presented { present: PresentOutcome },
}

/// Why a frame cannot be drawn; the renderer stops on each of these.
#[derive(Clone, Copy, Debug, PartialEq, Eq, Structural)]
pub enum DrawError {
    FenceWait,
    FenceReset,
    Acquire { code: i32 },
    /// The acquired image index names no image of the swapchain.
    ImageOutOfRange { image: u32 },
    Submit,
    Present { code: i32 },
    /// The event does not answer the call that was asked for.
    OutOfOrder,
}

/// What the caller does next.
#[derive(Clone, Copy, Debug, PartialEq, Eq, Structural)]
pub enum DrawAction {
    /// Wait, without time limit, for the fence of frame `frame`.
    WaitFence { frame: usize },
    /// Acquire the next swapchain image, signalling frame `frame`'s
    /// image-available semaphore.
    AcquireImage { frame: usize },
    /// Reset the fence of frame `frame`.
    ResetFence { frame: usize },
    /// Record frame `frame`'s commands to draw into image `image`.
    Record { frame: usize, image: u32 },
    /// Submit frame `frame`'s commands, signalling its fence.
    Submit { frame: usize },
    /// Present image `image` once frame `frame` has finished rendering.
    Present { frame: usize, image: u32 },
    /// The frame is drawn and the next frame in flight is current.
    Finished,
    /// The swapchain is out of date: nothing is drawn this time and the
    /// same frame in flight stays current.
    Skipped,
    /// The frame cannot be drawn.
    Fail { error: DrawError },
}

/// The draw cycle's state as a value.
#[derive(Clone, Copy, Debug, PartialEq, Eq, Structural)]
pub struct DrawState {
    /// The current frame in flight.
    pub frame: usize,
    /// How many frames are in flight.
    pub frames: usize,
    /// How many images the swapchain has.
    pub images: usize,
    pub phase: DrawPhase,
}

impl DrawState {
    /// The current frame is one of the frames in flight.
    pub open spec fn wf(self) -> bool {
        0 < self.frames && self.frame < self.frames
    }

    /// The same state in phase `phase`.
    pub open spec fn with_phase(self, phase: DrawPhase) -> DrawState {
        DrawState { frame: self.frame, frames: self.frames, images: self.images, phase }
    }

    /// The frame after the current one, wrapping round.
    pub open spec fn next_frame(self) -> usize {
        ((self.frame + 1) % (self.frames as int)) as usize
    }

    /// Idle, with the next frame in flight current.
    pub open spec fn finished(self) -> DrawState {
        DrawState { frame: self.next_frame(), frames: self.frames, images: self.images, phase: DrawPhase::Idle }
    }

    /// Idle, the frame drawn nothing, and `action` is what the caller does.
    pub open spec fn stop(self, action: DrawAction) -> (DrawState, DrawAction) {
        (self.with_phase(DrawPhase::Idle), action)
    }
}

/// A failed present that still counts as presented: the swapchain is out of
/// date or suboptimal, which the renderer does not yet act on.
pub open spec fn present_tolerated(code: i32) -> bool {
    code == ERROR_OUT_OF_DATE_KHR || code == SUBOPTIMAL_KHR
}

/// One step of the draw cycle: the state after `event`, and what the caller
/// does next.
pub open spec fn draw_step(s: DrawState, event: DrawEvent) -> (DrawState, DrawAction) {
    match (s.phase, event) {
        (DrawPhase::Idle, DrawEvent::Begin) => (
            s.with_phase(DrawPhase::WaitingFence),
            DrawAction::WaitFence { frame: s.frame },
        ),
        (DrawPhase::WaitingFence, DrawEvent::FenceWaited { ok }) => if ok {
            (s.with_phase(DrawPhase::Acquiring), DrawAction::AcquireImage { frame: s.frame })
        } else {
            s.stop(DrawAction::Fail { error: DrawError::FenceWait })
        },
        (DrawPhase::Acquiring, DrawEvent::Acquired { acquire }) => match acquire {
            AcquireOutcome::Acquired { image, suboptimal } => if (image as int) < s.images {
                (
                    s.with_phase(DrawPhase::ResettingFence { image }),
                    DrawAction::ResetFence { frame: s.frame },
                )
            } else {
                s.stop(DrawAction::Fail { error: DrawError::ImageOutOfRange { image } })
            },
            AcquireOutcome::Failed { code } => if code == ERROR_OUT_OF_DATE_KHR {
                s.stop(DrawAction::Skipped)
            } else {
                s.stop(DrawAction::Fail { error: DrawError::Acquire { code } })
            },
        },
        (DrawPhase::ResettingFence { image }, DrawEvent::FenceReset { ok }) => if ok {
            (
                s.with_phase(DrawPhase::Recording { image }),
                DrawAction::Record { frame: s.frame, image },
            )
        } else {
            s.stop(DrawAction::Fail { error: DrawError::FenceReset })
        },
        (DrawPhase::Recording { image }, DrawEvent::Recorded) => (
            s.with_phase(DrawPhase::Submitting { image }),
            DrawAction::Submit { frame: s.frame },
        ),
        (DrawPhase::Submitting { image }, DrawEvent::Submitted { ok }) => if ok {
            (
                s.with_phase(DrawPhase::Presenting { image }),
                DrawAction::Present { frame: s.frame, image },
            )
        } else {
            s.stop(DrawAction::Fail { error: DrawError::Submit })
        },
        (DrawPhase::Presenting { image }, DrawEvent::Presented { present }) => match present {
            PresentOutcome::Presented { suboptimal } => (s.finished(), DrawAction::Finished),
            PresentOutcome::Failed { code } => if present_tolerated(code) {
                (s.finished(), DrawAction::Finished)
            } else {
                s.stop(DrawAction::Fail { error: DrawError::Present { code } })
            },
        },
        _ => (s, DrawAction::Fail { error: DrawError::OutOfOrder }),
    }
}

/// The draw cycle of a renderer with a number of frames in flight.
pub struct DrawLoop {
    frame: usize,
    frames: usize,
    images: usize,
    phase: DrawPhase,
}

impl View for DrawLoop {
    type V = DrawState;

    closed spec fn view(&self) -> DrawState {
        DrawState { frame: self.frame, frames: self.frames, images: self.images, phase: self.phase }
    }
}

impl DrawLoop {
    #[verifier::type_invariant]
    spec fn inv(self) -> bool {
        self@.wf()
    }

    /// A cycle over `frames` frames in flight and a swapchain of `images`
    /// images, idle, with the first frame current.
    pub fn new(frames: usize, images: usize) -> (d: DrawLoop)
        requires
            frames > 0,
        ensures
            d@ == (DrawState { frame: 0, frames, images, phase: DrawPhase::Idle }),
    {
        DrawLoop { frame: 0, frames, images, phase: DrawPhase::Idle }
    }

    /// The current frame in flight.
    pub fn frame(&self) -> (f: usize)
        ensures
            f == self@.frame,
            f < self@.frames,
    {
        proof {
            use_type_invariant(self);
        }
        self.frame
    }

    /// Where the current frame stands.
    pub fn phase(&self) -> (p: DrawPhase)
        ensures
            p == self@.phase,
    {
        self.phase
    }

    /// Takes the image count of a recreated swapchain; nothing else changes.
    pub fn set_image_count(&mut self, images: usize)
        ensures
            final(self)@ == (DrawState { images, ..old(self)@ }),
    {
        proof {
            use_type_invariant(&*self);
        }
        self.images = images;
    }

    /// Takes what the last call returned and says what to do next.
    pub fn step(&mut self, event: DrawEvent) -> (a: DrawAction)
        ensures
            old(self)@.wf(),
            final(self)@.wf(),
            (final(self)@, a) == draw_step(old(self)@, event),
    {
        proof {
            use_type_invariant(&*self);
        }
        let frame = self.frame;
        match (self.phase, event) {
            (DrawPhase::Idle, DrawEvent::Begin) => {
                self.phase = DrawPhase::WaitingFence;
                DrawAction::WaitFence { frame }
            },
            (DrawPhase::WaitingFence, DrawEvent::FenceWaited { ok }) => {
                if ok {
                    self.phase = DrawPhase::Acquiring;
                    DrawAction::AcquireImage { frame }
                } else {
                    self.phase = DrawPhase::Idle;
                    DrawAction::Fail { error: DrawError::FenceWait }
                }
            },
            (DrawPhase::Acquiring, DrawEvent::Acquired { acquire }) => {
                match acquire {
                    AcquireOutcome::Acquired { image, suboptimal: _ } => {
                        if (image as usize) < self.images {
                            self.phase = DrawPhase::ResettingFence { image };
                            DrawAction::ResetFence { frame }
                        } else {
                            self.phase = DrawPhase::Idle;
                            DrawAction::Fail { error: DrawError::ImageOutOfRange { image } }
                        }
                    },
                    AcquireOutcome::Failed { code } => {
                        self.phase = DrawPhase::Idle;
                        if code == ERROR_OUT_OF_DATE_KHR {
                            DrawAction::Skipped
                        } else {
                            DrawAction::Fail { error: DrawError::Acquire { code } }
                        }
                    },
                }
            },
            (DrawPhase::ResettingFence { image }, DrawEvent::FenceReset { ok }) => {
                if ok {
                    self.phase = DrawPhase::Recording { image };
                    DrawAction::Record { frame, image }
                } else {
                    self.phase = DrawPhase::Idle;
                    DrawAction::Fail { error: DrawError::FenceReset }
                }
            },
            (DrawPhase::Recording { image }, DrawEvent::Recorded) => {
                self.phase = DrawPhase::Submitting { image };
                DrawAction::Submit { frame }
            },
            (DrawPhase::Submitting { image }, DrawEvent::Submitted { ok }) => {
                if ok {
                    self.phase = DrawPhase::Presenting { image };
                    DrawAction::Present { frame, image }
                } else {
                    self.phase = DrawPhase::Idle;
                    DrawAction::Fail { error: DrawError::Submit }
                }
            },
            (DrawPhase::Presenting { image: _ }, DrawEvent::Presented { present }) => {
                match present {
                    PresentOutcome::Presented { suboptimal: _ } => {
                        self.frame = (self.frame + 1) % self.frames;
                        self.phase = DrawPhase::Idle;
                        DrawAction::Finished
                    },
                    PresentOutcome::Failed { code } => {
                        if code == ERROR_OUT_OF_DATE_KHR || code == SUBOPTIMAL_KHR {
                            self.frame = (self.frame + 1) % self.frames;
                            self.phase = DrawPhase::Idle;
                            DrawAction::Finished
                        } else {
                            self.phase = DrawPhase::Idle;
                            DrawAction::Fail { error: DrawError::Present { code } }
                        }
                    },
                }
            },
            _ => DrawAction::Fail { error: DrawError::OutOfOrder },
        }
    }
}

/// The cycle run through `events` from `s`: the state at the end, and the
/// actions asked for, in order.
pub open spec fn draw_run(s: DrawState, events: Seq<DrawEvent>) -> (DrawState, Seq<DrawAction>)
    decreases events.len(),
{
    if events.len() == 0 {
        (s, Seq::empty())
    } else {
        let (next, action) = draw_step(s, events[0]);
        let (last, actions) = draw_run(next, events.drop_first());
        (last, seq![action] + actions)
    }
}

/// The events of one frame that goes through without trouble, image `image`
/// being acquired.
pub open spec fn frame_events(image: u32, acquire_suboptimal: bool, present_suboptimal: bool) -> Seq<DrawEvent> {
    seq![
        DrawEvent::Begin,
        DrawEvent::FenceWaited { ok: true },
        DrawEvent::Acquired { acquire: AcquireOutcome::Acquired { image, suboptimal: acquire_suboptimal } },
        DrawEvent::FenceReset { ok: true },
        DrawEvent::Recorded,
        DrawEvent::Submitted { ok: true },
        DrawEvent::Presented { present: PresentOutcome::Presented { suboptimal: present_suboptimal } },
    ]
}

/// The events of `count` frames in a row that go through without trouble,
/// image `image` being acquired each time.
pub open spec fn frames_events(count: nat, image: u32) -> Seq<DrawEvent>
    decreases count,
{
    if count == 0 {
        Seq::empty()
    } else {
        frames_events((count - 1) as nat, image) + frame_events(image, false, false)
    }
}

/// The calls one frame asks for, in order, frame `frame` being current and
/// image `image` acquired.
pub open spec fn frame_actions(frame: usize, image: u32) -> Seq<DrawAction> {
    seq![
        DrawAction::WaitFence { frame },
        DrawAction::AcquireImage { frame },
        DrawAction::ResetFence { frame },
        DrawAction::Record { frame, image },
        DrawAction::Submit { frame },
        DrawAction::Present { frame, image },
        DrawAction::Finished,
    ]
}

/// The frame in flight that an action uses, if it uses one.
pub open spec fn action_frame(a: DrawAction) -> Option<usize> {
    match a {
        DrawAction::WaitFence { frame } => Some(frame),
        DrawAction::ResetFence { frame } => Some(frame),
        DrawAction::AcquireImage { frame } => Some(frame),
        DrawAction::Record { frame, image } => Some(frame),
        DrawAction::Submit { frame } => Some(frame),
        DrawAction::Present { frame, image } => Some(frame),
        _ => None,
    }
}

/// Every step keeps the current frame one of the frames in flight, keeps
/// the number of frames and of images, asks only for calls on the current
/// frame's resources, and moves to another frame only when a frame is
/// finished, and then to the next one, wrapping round.
pub proof fn lemma_step_keeps_frame(s: DrawState, event: DrawEvent)
    requires
        s.wf(),
    ensures
        ({
            let (t, a) = draw_step(s, event);
            &&& t.wf()
            &&& t.frames == s.frames
            &&& t.images == s.images
            &&& (action_frame(a) matches Some(f) ==> f == s.frame)
            &&& (a == DrawAction::Finished ==> t.frame == s.next_frame() && t.phase == DrawPhase::Idle)
            &&& (a == DrawAction::Finished ==> t.frame as int == (s.frame + 1) % (s.frames as int))
            &&& (a != DrawAction::Finished ==> t.frame == s.frame)
            &&& (a is Skipped || a is Fail ==> t.phase == DrawPhase::Idle || t == s)
        }),
{
}

/// Whatever is asked and whatever comes back, the current frame stays one
/// of the frames in flight and the cycle's shape is kept.
pub proof fn lemma_run_keeps_frame(s: DrawState, events: Seq<DrawEvent>)
    requires
        s.wf(),
    ensures
        draw_run(s, events).0.wf(),
        draw_run(s, events).0.frames == s.frames,
        draw_run(s, events).0.images == s.images,
        draw_run(s, events).1.len() == events.len(),
    decreases events.len(),
{
    if events.len() > 0 {
        lemma_step_keeps_frame(s, events[0]);
        lemma_run_keeps_frame(draw_step(s, events[0]).0, events.drop_first());
    }
}

/// Running through two lists of events is running through the first, then
/// the second from where the first ended.
pub proof fn lemma_run_concat(s: DrawState, first: Seq<DrawEvent>, second: Seq<DrawEvent>)
    ensures
        draw_run(s, first + second) == ({
            let (mid, actions1) = draw_run(s, first);
            let (last, actions2) = draw_run(mid, second);
            (last, actions1 + actions2)
        }),
    decreases first.len(),
{
    if first.len() == 0 {
        assert(first + second =~= second);
        assert(Seq::<DrawAction>::empty() + draw_run(s, second).1 =~= draw_run(s, second).1);
    } else {
        let (next, action) = draw_step(s, first[0]);
        assert((first + second).drop_first() =~= first.drop_first() + second);
        lemma_run_concat(next, first.drop_first(), second);
        let (mid, rest1) = draw_run(next, first.drop_first());
        let (last, actions2) = draw_run(mid, second);
        assert(seq![action] + (rest1 + actions2) =~= (seq![action] + rest1) + actions2);
    }
}

/// A frame that goes through without trouble asks, in order, for the wait
/// on the current frame's fence, an image, the reset of that fence, the
/// recording, the submission and the presentation of that same image, and
/// then makes the next frame in flight current; nothing else changes.
pub proof fn lemma_frame_drawn(s: DrawState, image: u32, acquire_suboptimal: bool, present_suboptimal: bool)
    requires
        s.wf(),
        s.phase == DrawPhase::Idle,
        (image as int) < s.images,
    ensures
        draw_run(s, frame_events(image, acquire_suboptimal, present_suboptimal)) == (
            s.finished(),
            frame_actions(s.frame, image),
        ),
        ({
            let (t, actions) = draw_run(s, frame_events(image, acquire_suboptimal, present_suboptimal));
            &&& t.phase == DrawPhase::Idle
            &&& t.frame as int == (s.frame + 1) % (s.frames as int)
            &&& t.frames == s.frames && t.images == s.images
            &&& actions == seq![
                DrawAction::WaitFence { frame: s.frame },
                DrawAction::AcquireImage { frame: s.frame },
                DrawAction::ResetFence { frame: s.frame },
                DrawAction::Record { frame: s.frame, image },
                DrawAction::Submit { frame: s.frame },
                DrawAction::Present { frame: s.frame, image },
                DrawAction::Finished,
            ]
        }),
{
    let ev = frame_events(image, acquire_suboptimal, present_suboptimal);
    reveal_with_fuel(draw_run, 8);
    assert(ev.drop_first() =~= ev.subrange(1, 7));
    assert(ev.subrange(1, 7).drop_first() =~= ev.subrange(2, 7));
    assert(ev.subrange(2, 7).drop_first() =~= ev.subrange(3, 7));
    assert(ev.subrange(3, 7).drop_first() =~= ev.subrange(4, 7));
    assert(ev.subrange(4, 7).drop_first() =~= ev.subrange(5, 7));
    assert(ev.subrange(5, 7).drop_first() =~= ev.subrange(6, 7));
    assert(ev.subrange(6, 7).drop_first() =~= Seq::<DrawEvent>::empty());
    assert(draw_run(s, ev).1 =~= frame_actions(s.frame, image));
}

/// When the swapchain is out of date at acquisition, the frame asks for the
/// fence wait and the acquisition, then draws nothing: no reset of the fence
/// is asked for, so it stays signalled, and the cycle is idle again with the
/// same frame in flight current, ready to try again.
pub proof fn lemma_out_of_date_skips(s: DrawState)
    requires
        s.wf(),
        s.phase == DrawPhase::Idle,
    ensures
        ({
            let events = seq![
                DrawEvent::Begin,
                DrawEvent::FenceWaited { ok: true },
                DrawEvent::Acquired { acquire: AcquireOutcome::Failed { code: ERROR_OUT_OF_DATE_KHR } },
            ];
            draw_run(s, events) == (
                s,
                seq![
                    DrawAction::WaitFence { frame: s.frame },
                    DrawAction::AcquireImage { frame: s.frame },
                    DrawAction::Skipped,
                ],
            )
        }),
{
    let ev = seq![
        DrawEvent::Begin,
        DrawEvent::FenceWaited { ok: true },
        DrawEvent::Acquired { acquire: AcquireOutcome::Failed { code: ERROR_OUT_OF_DATE_KHR } },
    ];
    reveal_with_fuel(draw_run, 4);
    assert(ev.drop_first() =~= ev.subrange(1, 3));
    assert(ev.subrange(1, 3).drop_first() =~= ev.subrange(2, 3));
    assert(ev.subrange(2, 3).drop_first() =~= Seq::<DrawEvent>::empty());
    assert(s.with_phase(DrawPhase::Idle) == s);
    assert(draw_run(s, ev).1 =~= seq![
        DrawAction::WaitFence { frame: s.frame },
        DrawAction::AcquireImage { frame: s.frame },
        DrawAction::Skipped,
    ]);
}

/// After `count` frames that go through without trouble, the frame in
/// flight `count` places further on, wrapping round, is current; so after
/// as many frames as are in flight, the first one is current again.
pub proof fn lemma_frames_cycle(s: DrawState, count: nat, image: u32)
    requires
        s.wf(),
        s.phase == DrawPhase::Idle,
        (image as int) < s.images,
    ensures
        draw_run(s, frames_events(count, image)).0 == (DrawState {
            frame: ((s.frame + count) % (s.frames as int)) as usize,
            ..s
        }),
        count == s.frames ==> draw_run(s, frames_events(count, image)).0 == s,
    decreases count,
{
    if count == 0 {
        vstd::arithmetic::div_mod::lemma_small_mod(s.frame as nat, s.frames as nat);
        assert(draw_run(s, frames_events(count, image)).0 == s);
    } else {
        let prev = (count - 1) as nat;
        lemma_frames_cycle(s, prev, image);
        vstd::arithmetic::div_mod::lemma_mod_bound(s.frame + prev, s.frames as int);
        lemma_run_concat(s, frames_events(prev, image), frame_events(image, false, false));
        let mid = draw_run(s, frames_events(prev, image)).0;
        assert(mid.wf());
        lemma_frame_drawn(mid, image, false, false);
        vstd::arithmetic::div_mod::lemma_add_mod_noop_right(1, s.frame + prev, s.frames as int);
        assert(frames_events(count, image) == frames_events(prev, image) + frame_events(
            image,
            false,
            false,
        ));
    }
    if count == s.frames {
        vstd::arithmetic::div_mod::lemma_mod_add_multiples_vanish(s.frame as int, s.frames as int);
        vstd::arithmetic::div_mod::lemma_small_mod(s.frame as nat, s.frames as nat);
    }
}

/// How the answers of the two swapchain calls are read. An acquisition that
/// fails with `VK_ERROR_OUT_OF_DATE_KHR` skips the frame, keeping the same
/// frame current and its fence untouched; any other failed acquisition
/// stops it; an acquired image within the swapchain leads to the reset of
/// the frame's fence. A presentation that succeeds, or fails with
/// `VK_ERROR_OUT_OF_DATE_KHR` or `VK_SUBOPTIMAL_KHR`, finishes the frame and
/// makes the next one current; any other failed presentation stops it.
pub proof fn lemma_swapchain_answers(s: DrawState, code: i32, image: u32, suboptimal: bool)
    requires
        s.wf(),
    ensures
        s.phase == DrawPhase::Acquiring ==> {
            let (t, a) = draw_step(s, DrawEvent::Acquired { acquire: AcquireOutcome::Failed { code } });
            &&& t.phase == DrawPhase::Idle && t.frame == s.frame
            &&& code == -1000001004 ==> a == DrawAction::Skipped
            &&& code != -1000001004 ==> a == (DrawAction::Fail { error: DrawError::Acquire { code } })
        },
        s.phase == DrawPhase::Acquiring && (image as int) < s.images ==> draw_step(
            s,
            DrawEvent::Acquired { acquire: AcquireOutcome::Acquired { image, suboptimal } },
        ) == (s.with_phase(DrawPhase::ResettingFence { image }), DrawAction::ResetFence { frame: s.frame }),
        s.phase is Presenting ==> {
            let (t, a) = draw_step(s, DrawEvent::Presented { present: PresentOutcome::Presented { suboptimal } });
            a == DrawAction::Finished && t.phase == DrawPhase::Idle && t.frame as int == (s.frame + 1) % (s.frames as int)
        },
        s.phase is Presenting ==> {
            let (t, a) = draw_step(s, DrawEvent::Presented { present: PresentOutcome::Failed { code } });
            &&& (code == -1000001004 || code == 1000001003) ==> a == DrawAction::Finished && t.phase
                == DrawPhase::Idle && t.frame as int == (s.frame + 1) % (s.frames as int)
            &&& !(code == -1000001004 || code == 1000001003) ==> a == (DrawAction::Fail {
                error: DrawError::Present { code },
            }) && t.phase == DrawPhase::Idle && t.frame == s.frame
        },
{
}

/// Running one more event moves the state by one step and puts that step's
/// action last.
pub proof fn lemma_run_push(s: DrawState, events: Seq<DrawEvent>, event: DrawEvent)
    ensures
        draw_run(s, events.push(event)) == ({
            let (t, actions) = draw_run(s, events);
            let (u, action) = draw_step(t, event);
            (u, actions.push(action))
        }),
{
    lemma_run_concat(s, events, seq![event]);
    assert(events + seq![event] =~= events.push(event));
    let (t, actions) = draw_run(s, events);
    let (u, action) = draw_step(t, event);
    assert(seq![event].drop_first() =~= Seq::<DrawEvent>::empty());
    reveal_with_fuel(draw_run, 2);
    assert(draw_run(t, seq![event]) == (u, seq![action] + Seq::<DrawAction>::empty()));
    assert(actions + (seq![action] + Seq::<DrawAction>::empty()) =~= actions.push(action));
}

/// The first `i` actions of a run are those of the run through its first
/// `i` events, and action `i` is the step taken on event `i` from there.
pub proof fn lemma_run_prefix(s: DrawState, events: Seq<DrawEvent>, i: int)
    requires
        s.wf(),
        0 <= i < events.len(),
    ensures
        draw_run(s, events).1.take(i) == draw_run(s, events.take(i)).1,
        draw_run(s, events).1[i] == draw_step(draw_run(s, events.take(i)).0, events[i]).1,
{
    assert(events =~= events.take(i) + events.skip(i));
    lemma_run_concat(s, events.take(i), events.skip(i));
    lemma_run_keeps_frame(s, events.take(i));
    let (t, first) = draw_run(s, events.take(i));
    let (u, rest) = draw_run(t, events.skip(i));
    assert(events.skip(i)[0] == events[i]);
    assert(rest[0] == draw_step(t, events[i]).1);
    assert((first + rest).take(i) =~= first);
}

/// The wait on frame `frame`'s fence succeeded at some event before
/// `before`, and the cycle went on to acquire an image for that frame.
pub open spec fn waited(events: Seq<DrawEvent>, actions: Seq<DrawAction>, frame: usize, before: int) -> bool {
    exists|j: int|
        #![trigger actions[j]]
        0 <= j < before && events[j] == (DrawEvent::FenceWaited { ok: true })
            && actions[j] == (DrawAction::AcquireImage { frame })
}

/// As [`waited`], and afterwards, still before `before`, the reset of
/// frame `frame`'s fence was asked for.
pub open spec fn waited_and_reset(events: Seq<DrawEvent>, actions: Seq<DrawAction>, frame: usize, before: int) -> bool {
    exists|j: int, k: int|
        #![trigger actions[j], actions[k]]
        0 <= j < k < before && events[j] == (DrawEvent::FenceWaited { ok: true })
            && actions[j] == (DrawAction::AcquireImage { frame })
            && actions[k] == (DrawAction::ResetFence { frame })
}

/// As [`waited_and_reset`], and afterwards, still before `before`, the reset
/// succeeded and the recording of frame `frame`'s commands was asked for.
pub open spec fn waited_reset_and_recorded(events: Seq<DrawEvent>, actions: Seq<DrawAction>, frame: usize, before: int) -> bool {
    exists|j: int, k: int, r: int|
        #![trigger actions[j], actions[k], actions[r]]
        0 <= j < k < r < before && events[j] == (DrawEvent::FenceWaited { ok: true })
            && actions[j] == (DrawAction::AcquireImage { frame })
            && actions[k] == (DrawAction::ResetFence { frame })
            && events[r] == (DrawEvent::FenceReset { ok: true })
            && actions[r] is Record && action_frame(actions[r]) == Some(frame)
}

/// Action `k` asked for the reset of frame `frame`'s fence, and up to action
/// `before` neither a submission of that frame (which signals the fence
/// again) nor a failure followed.
spec fn reset_pending(actions: Seq<DrawAction>, frame: usize, k: int, before: int) -> bool {
    &&& actions[k] == (DrawAction::ResetFence { frame })
    &&& forall|m: int|
        k < m < before ==> #[trigger] actions[m] != (DrawAction::Submit { frame }) && !(actions[m] is Fail)
}

/// What a run from an idle state has been through, given where it stands.
spec fn run_history_inv(s: DrawState, events: Seq<DrawEvent>) -> bool {
    let (t, actions) = draw_run(s, events);
    let n = events.len() as int;
    &&& t.phase is Acquiring ==> waited(events, actions, t.frame, n)
    &&& t.phase is ResettingFence ==> waited_and_reset(events, actions, t.frame, n)
    &&& (t.phase is Recording || t.phase is Submitting || t.phase is Presenting)
        ==> waited_reset_and_recorded(events, actions, t.frame, n)
    &&& forall|k: int, frame: usize|
        0 <= k < n && #[trigger] reset_pending(actions, frame, k, n) ==> (t.phase is ResettingFence
            || t.phase is Recording) && t.frame == frame
}

proof fn lemma_run_history(s: DrawState, events: Seq<DrawEvent>)
    requires
        s.wf(),
        s.phase == DrawPhase::Idle,
    ensures
        run_history_inv(s, events),
    decreases events.len(),
{
    if events.len() > 0 {
        let pre = events.drop_last();
        let event = events.last();
        assert(events =~= pre.push(event));
        lemma_run_history(s, pre);
        lemma_run_push(s, pre, event);
        lemma_run_keeps_frame(s, pre);
        let (t, a) = draw_run(s, pre);
        let (u, b) = draw_step(t, event);
        lemma_step_keeps_frame(t, event);
        let actions = a.push(b);
        let n = events.len() as int;
        assert(draw_run(s, events) == (u, actions));
        assert forall|m: int| 0 <= m < n - 1 implies events[m] == pre[m] && actions[m] == a[m] by {}
        assert(events[n - 1] == event && actions[n - 1] == b);
        if u.phase is Acquiring {
            if t.phase is Acquiring {
                let j = choose|j: int|
                    #![trigger a[j]]
                    0 <= j < n - 1 && pre[j] == (DrawEvent::FenceWaited { ok: true }) && a[j]
                        == (DrawAction::AcquireImage { frame: t.frame });
                assert(actions[j] == a[j]);
            } else {
                assert(actions[n - 1] == (DrawAction::AcquireImage { frame: u.frame }));
            }
        }
        if u.phase is ResettingFence {
            if t.phase is ResettingFence {
                let (j, k) = choose|j: int, k: int|
                    #![trigger a[j], a[k]]
                    0 <= j < k < n - 1 && pre[j] == (DrawEvent::FenceWaited { ok: true }) && a[j]
                        == (DrawAction::AcquireImage { frame: t.frame }) && a[k]
                        == (DrawAction::ResetFence { frame: t.frame });
                assert(actions[j] == a[j] && actions[k] == a[k]);
            } else {
                let j = choose|j: int|
                    #![trigger a[j]]
                    0 <= j < n - 1 && pre[j] == (DrawEvent::FenceWaited { ok: true }) && a[j]
                        == (DrawAction::AcquireImage { frame: t.frame });
                assert(actions[j] == a[j]);
                assert(actions[n - 1] == (DrawAction::ResetFence { frame: u.frame }));
            }
        }
        if u.phase is Recording || u.phase is Submitting || u.phase is Presenting {
            if t.phase is ResettingFence {
                let (j, k) = choose|j: int, k: int|
                    #![trigger a[j], a[k]]
                    0 <= j < k < n - 1 && pre[j] == (DrawEvent::FenceWaited { ok: true }) && a[j]
                        == (DrawAction::AcquireImage { frame: t.frame }) && a[k]
                        == (DrawAction::ResetFence { frame: t.frame });
                assert(actions[j] == a[j] && actions[k] == a[k]);
                assert(actions[n - 1] is Record && action_frame(actions[n - 1]) == Some(u.frame));
            } else {
                let (j, k, r) = choose|j: int, k: int, r: int|
                    #![trigger a[j], a[k], a[r]]
                    0 <= j < k < r < n - 1 && pre[j] == (DrawEvent::FenceWaited { ok: true })
                        && a[j] == (DrawAction::AcquireImage { frame: t.frame }) && a[k]
                        == (DrawAction::ResetFence { frame: t.frame }) && pre[r]
                        == (DrawEvent::FenceReset { ok: true }) && a[r] is Record && action_frame(a[r])
                        == Some(t.frame);
                assert(actions[j] == a[j] && actions[k] == a[k] && actions[r] == a[r]);
            }
        }
        assert forall|k: int, frame: usize|
            0 <= k < n && #[trigger] reset_pending(actions, frame, k, n) implies (u.phase is ResettingFence
                || u.phase is Recording) && u.frame == frame by {
            if k < n - 1 {
                assert(a[k] == actions[k]);
                assert forall|m: int| k < m < n - 1 implies #[trigger] a[m] != (DrawAction::Submit { frame })
                    && !(a[m] is Fail) by {
                    assert(actions[m] == a[m]);
                }
                assert(reset_pending(a, frame, k, n - 1));
                assert(b != (DrawAction::Submit { frame }) && !(b is Fail));
            } else {
                assert(b == (DrawAction::ResetFence { frame }));
            }
        }
    }
}

/// A frame's commands are recorded only once its fence has been waited on
/// successfully, an image acquired for it, and its fence reset, successfully.
pub proof fn lemma_recorded_after_wait_and_reset(s: DrawState, events: Seq<DrawEvent>, i: int, frame: usize, image: u32)
    requires
        s.wf(),
        s.phase == DrawPhase::Idle,
        0 <= i < events.len(),
        draw_run(s, events).1[i] == (DrawAction::Record { frame, image }),
    ensures
        events[i] == (DrawEvent::FenceReset { ok: true }),
        waited_and_reset(events, draw_run(s, events).1, frame, i),
{
    lemma_run_prefix(s, events, i);
    lemma_run_keeps_frame(s, events);
    lemma_run_history(s, events.take(i));
    lemma_run_keeps_frame(s, events.take(i));
    let (t, a) = draw_run(s, events.take(i));
    let actions = draw_run(s, events).1;
    lemma_step_keeps_frame(t, events[i]);
    assert(t.phase is ResettingFence);
    let (j, k) = choose|j: int, k: int|
        #![trigger a[j], a[k]]
        0 <= j < k < i && events.take(i)[j] == (DrawEvent::FenceWaited { ok: true }) && a[j]
            == (DrawAction::AcquireImage { frame: t.frame }) && a[k]
            == (DrawAction::ResetFence { frame: t.frame });
    assert(actions.take(i)[j] == actions[j] && actions.take(i)[k] == actions[k]);
    assert(events.take(i)[j] == events[j]);
}

/// A frame's commands are submitted only after its fence has been waited on
/// successfully, an image acquired for it, its fence reset successfully and
/// its commands recorded.
pub proof fn lemma_submitted_after_wait_and_reset(s: DrawState, events: Seq<DrawEvent>, i: int, frame: usize)
    requires
        s.wf(),
        s.phase == DrawPhase::Idle,
        0 <= i < events.len(),
        draw_run(s, events).1[i] == (DrawAction::Submit { frame }),
    ensures
        waited_reset_and_recorded(events, draw_run(s, events).1, frame, i),
{
    lemma_run_prefix(s, events, i);
    lemma_run_keeps_frame(s, events);
    lemma_run_history(s, events.take(i));
    lemma_run_keeps_frame(s, events.take(i));
    let (t, a) = draw_run(s, events.take(i));
    let actions = draw_run(s, events).1;
    lemma_step_keeps_frame(t, events[i]);
    assert(t.phase is Recording);
    let (j, k, r) = choose|j: int, k: int, r: int|
        #![trigger a[j], a[k], a[r]]
        0 <= j < k < r < i && events.take(i)[j] == (DrawEvent::FenceWaited { ok: true }) && a[j]
            == (DrawAction::AcquireImage { frame: t.frame }) && a[k]
            == (DrawAction::ResetFence { frame: t.frame }) && events.take(i)[r]
            == (DrawEvent::FenceReset { ok: true }) && a[r] is Record && action_frame(a[r]) == Some(
            t.frame,
        );
    assert(actions.take(i)[j] == actions[j] && actions.take(i)[k] == actions[k] && actions.take(i)[r]
        == actions[r]);
    assert(events.take(i)[j] == events[j] && events.take(i)[r] == events[r]);
}

/// The cycle never waits on a fence that it has reset and not yet had
/// signalled: between asking for the reset of a frame's fence and asking
/// for the next wait on it, the frame's commands are submitted (and the
/// submission signals the fence), unless a failure stopped the frame.
pub proof fn lemma_no_wait_on_reset_fence(s: DrawState, events: Seq<DrawEvent>, k: int, i: int, frame: usize)
    requires
        s.wf(),
        s.phase == DrawPhase::Idle,
        0 <= k < i < events.len(),
        draw_run(s, events).1[k] == (DrawAction::ResetFence { frame }),
        draw_run(s, events).1[i] == (DrawAction::WaitFence { frame }),
    ensures
        exists|m: int|
            k < m < i && (#[trigger] draw_run(s, events).1[m] == (DrawAction::Submit { frame })
                || draw_run(s, events).1[m] is Fail),
{
    lemma_run_prefix(s, events, i);
    lemma_run_keeps_frame(s, events);
    lemma_run_history(s, events.take(i));
    lemma_run_keeps_frame(s, events.take(i));
    let (t, a) = draw_run(s, events.take(i));
    let actions = draw_run(s, events).1;
    assert(t.phase == DrawPhase::Idle);
    if !exists|m: int|
        k < m < i && (#[trigger] actions[m] == (DrawAction::Submit { frame }) || actions[m] is Fail) {
        assert(a[k] == actions.take(i)[k]);
        assert forall|m: int| k < m < i implies #[trigger] a[m] != (DrawAction::Submit { frame })
            && !(a[m] is Fail) by {
            assert(a[m] == actions.take(i)[m]);
        }
        assert(reset_pending(a, frame, k, i));
    }
}

} // verus!
