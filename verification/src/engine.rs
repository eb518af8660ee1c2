//! The frame loop: owns the animation state and the active/terminated
//! flag, classifies input events, and decides what one frame draws.
//! Actually polling events, rasterizing text, presenting frames and
//! sleeping out the frame budget are platform work done by the caller.

use vstd::prelude::*;

use crate::color::Color;
use crate::color::color_for_frame;
use crate::color::color_spec;
use crate::motion::AnimationState;
use crate::motion::SPEED;
use crate::motion::hits_boundary;
use crate::motion::next_angle;
use crate::motion::next_counter;

verus! {

/// A key on the keyboard, as far as the loop tells them apart: only the
/// escape key is recognized.
#[derive(Clone, Copy, PartialEq, Eq, Structural, Debug)]
pub enum Key {
    Escape,
    Other,
}

/// A discrete input event, drained once per frame. The closed set of
/// recognized events: a window-close request, a key press, anything else.
#[derive(Clone, Copy, PartialEq, Eq, Structural, Debug)]
pub enum InputEvent {
    QuitRequested,
    KeyDown(Key),
    Other,
}

/// Whether the loop keeps running or has terminated. `Quit` is terminal.
#[derive(Clone, Copy, PartialEq, Eq, Structural, Debug)]
pub enum LoopState {
    Active,
    Quit,
}

/// Whether an event asks the loop to terminate: a window-close request or
/// an escape key-down. Every other event is ignored.
pub open spec fn terminates(e: InputEvent) -> bool {
    e == InputEvent::QuitRequested || e == InputEvent::KeyDown(Key::Escape)
}

/// Whether any event of a drained batch asks the loop to terminate.
pub open spec fn any_terminating(events: Seq<InputEvent>) -> bool {
    exists|i: int| 0 <= i < events.len() && terminates(events[i])
}

/// Classify one event: does it ask the loop to terminate?
pub fn should_terminate(e: &InputEvent) -> (r: bool)
    ensures
        r == terminates(*e),
{
    match e {
        InputEvent::QuitRequested => true,
        InputEvent::KeyDown(Key::Escape) => true,
        _ => false,
    }
}

/// The label's width: a fixed third of the viewport's width, independent
/// of the rendered text's pixel size.
pub open spec fn label_width(view_w: int) -> int {
    view_w / 3
}

/// The label's height: a fixed sixth of the viewport's height.
pub open spec fn label_height(view_h: int) -> int {
    view_h / 6
}

/// Everything the renderer needs to draw one frame: the label's color,
/// its destination rectangle, and its rotation angle in degrees.
#[derive(Clone, Copy, PartialEq, Eq, Structural, Debug)]
pub struct FrameRender {
    pub color: Color,
    pub text_x: i32,
    pub text_y: i32,
    pub text_w: u32,
    pub text_h: u32,
    pub angle: u32,
}

/// The frame loop's own state: the animation state it owns exclusively,
/// and the lifecycle flag.
#[derive(Clone, Copy, PartialEq, Eq, Structural, Debug)]
pub struct FrameLoop {
    pub state: AnimationState,
    pub mode: LoopState,
}

impl FrameLoop {
    /// The loop's invariant: its animation state is well formed.
    pub open spec fn wf(self) -> bool {
        self.state.wf()
    }

    /// Build the loop as it starts: the initial animation state, active.
    pub fn new() -> (l: FrameLoop)
        ensures
            l.state == AnimationState::initial(),
            l.mode == LoopState::Active,
            l.wf(),
    {
        FrameLoop { state: AnimationState::init(), mode: LoopState::Active }
    }

    /// Drain a batch of pending events: the loop is quit afterwards when
    /// it already was, or when any drained event asks it to terminate.
    /// All events are processed; none depends on another, so the decision
    /// is the same whichever order they are seen in. The animation state
    /// is untouched.
    pub fn handle_events(&mut self, events: &Vec<InputEvent>)
        ensures
            final(self).state == old(self).state,
            final(self).mode == if old(self).mode == LoopState::Quit || any_terminating(
                events@,
            ) {
                LoopState::Quit
            } else {
                old(self).mode
            },
    {
        let n = events.len();
        let mut i: usize = 0;
        while i < n
            invariant
                i <= n,
                n == events@.len(),
                self.state == old(self).state,
                self.mode == if old(self).mode == LoopState::Quit || any_terminating(
                    events@.take(i as int),
                ) {
                    LoopState::Quit
                } else {
                    old(self).mode
                },
            decreases n - i,
        {
            let e = events[i];
            if should_terminate(&e) {
                self.mode = LoopState::Quit;
            }
            proof {
                let pre = events@.take(i as int);
                let post = events@.take(i + 1);
                assert(post[i as int] == events@[i as int]);
                assert forall|j: int| 0 <= j < pre.len() && terminates(pre[j]) implies
                    terminates(post[j]) by {
                    assert(pre[j] == post[j]);
                }
                if any_terminating(pre) || terminates(events@[i as int]) {
                    assert(any_terminating(post));
                }
                if any_terminating(post) {
                    let j = choose|j: int| 0 <= j < post.len() && terminates(post[j]);
                    assert(post[j] == events@[j]);
                    if j < i {
                        assert(pre[j] == post[j]);
                        assert(any_terminating(pre));
                    }
                }
            }
            i = i + 1;
        }
        proof {
            assert(events@.take(n as int) =~= events@);
        }
    }

    /// Run one frame while the loop is active: advance the frame counter,
    /// drain the pending events (which may quit the loop), compute the
    /// frame's color from the new counter, advance the motion against the
    /// viewport and the label's fixed-fraction bounding box, and return
    /// what to draw. The frame that observes a terminating event is still
    /// drawn; once the loop is quit, nothing changes and no frame is
    /// rendered.
    pub fn frame(&mut self, events: &Vec<InputEvent>, view_w: u32, view_h: u32) -> (out: Option<
        FrameRender,
    >)
        requires
            old(self).wf(),
            old(self).state.x + SPEED <= i32::MAX,
            old(self).state.x - SPEED >= i32::MIN,
            old(self).state.y + SPEED <= i32::MAX,
            old(self).state.y - SPEED >= i32::MIN,
        ensures
            final(self).wf(),
            old(self).mode == LoopState::Quit ==> *final(self) == *old(self) && out is None,
            old(self).mode == LoopState::Active ==> {
                let s0 = old(self).state;
                let s1 = final(self).state;
                &&& final(self).mode == if any_terminating(events@) {
                    LoopState::Quit
                } else {
                    LoopState::Active
                }
                &&& s1.counter as int == next_counter(s0.counter as int)
                &&& s1.x == s0.x + s0.dx * SPEED
                &&& s1.y == s0.y + s0.dy * SPEED
                &&& s1.angle as int == next_angle(s0.angle as int)
                &&& s1.dx as int == if hits_boundary(
                    s1.x as int,
                    label_width(view_w as int),
                    view_w as int,
                ) {
                    -(s0.dx as int)
                } else {
                    s0.dx as int
                }
                &&& s1.dy as int == if hits_boundary(
                    s1.y as int,
                    label_height(view_h as int),
                    view_h as int,
                ) {
                    -(s0.dy as int)
                } else {
                    s0.dy as int
                }
                &&& out == Some(
                    FrameRender {
                        color: color_spec(s1.counter as int),
                        text_x: s1.x,
                        text_y: s1.y,
                        text_w: label_width(view_w as int) as u32,
                        text_h: label_height(view_h as int) as u32,
                        angle: s1.angle,
                    },
                )
            },
    {
        if self.mode == LoopState::Quit {
            return None;
        }
        self.state.advance_counter();
        self.handle_events(events);
        let color = color_for_frame(self.state.counter);
        let label_w = view_w / 3;
        let label_h = view_h / 6;
        self.state.step(view_w, view_h, label_w, label_h);
        Some(
            FrameRender {
                color,
                text_x: self.state.x,
                text_y: self.state.y,
                text_w: label_w,
                text_h: label_h,
                angle: self.state.angle,
            },
        )
    }
}

/// One terminating event among the drained batch is enough: if any drained
/// event is a window-close request or an escape key-down, the batch asks
/// the loop to terminate.
pub proof fn lemma_terminating_event_quits(events: Seq<InputEvent>, i: int)
    requires
        0 <= i < events.len(),
        terminates(events[i]),
    ensures
        any_terminating(events),
{
}

} // verus!
