//! The frame loop as a state machine.
//!
//! The loop is either running or closed. Every event that reaches it while it
//! runs is answered with one frame and with the time at which the loop wants
//! to be woken next; the request to close the window is the one event that
//! ends it. The caller owns the window: it hands each event to [`step`],
//! carries out the frame, and waits as the answer says.

use vstd::prelude::*;
use crate::frame::{
    background, cleared_before_each_draw, draw, draw_calls, frame_script,
    lemma_frame_script_shape, Frame, FrameCommandView, Rgba,
};
use crate::triangle::Vertex;

verus! {

/// The time from one frame to the wake-up for the next, in nanoseconds: a
/// sixtieth of a second.
pub const FRAME_INTERVAL_NANOS: u64 = 16_666_667;

/// What can happen to the window.
#[derive(Clone, Copy, Debug, PartialEq, Eq, Structural)]
pub enum WindowEvent {
    /// The user asked for the window to be closed.
    CloseRequested,
    /// Anything else: resizing, focus, keys, the pointer.
    Other,
}

/// What the windowing system can report to the loop.
#[derive(Clone, Copy, Debug, PartialEq, Eq, Structural)]
pub enum Event {
    /// Something happened to the window.
    WindowEvent(WindowEvent),
    /// Anything that is not about the window, such as a timer wake-up.
    Other,
}

/// Where the loop stands.
#[derive(Clone, Copy, Debug, PartialEq, Eq, Structural)]
pub enum LoopState {
    /// Frames are being drawn.
    Running,
    /// The window was asked to close. Nothing is drawn any more.
    Closed,
}

/// What the loop asks of the windowing system once an event is handled.
#[derive(Clone, Copy, Debug, PartialEq, Eq, Structural)]
pub enum ControlFlow {
    /// Sleep until an event arrives or the clock reads this many nanoseconds,
    /// whichever comes first.
    WaitUntil(u64),
    /// Stop delivering events and end the program.
    Exit,
}

/// The answer to one event.
#[derive(Clone, Debug, PartialEq, Eq)]
pub struct Step {
    /// The state in which the next event finds the loop.
    pub state: LoopState,
    /// The frame to render now, if any.
    pub frame: Option<Frame>,
    /// What to do after the frame.
    pub control_flow: ControlFlow,
}

/// The mathematical content of a [`Step`].
pub struct StepView {
    pub state: LoopState,
    pub frame: Option<Seq<FrameCommandView>>,
    pub control_flow: ControlFlow,
}

impl View for Step {
    type V = StepView;

    open spec fn view(&self) -> StepView {
        StepView {
            state: self.state,
            frame: match self.frame {
                Some(frame) => Some(frame@),
                None => None,
            },
            control_flow: self.control_flow,
        }
    }
}

impl Event {
    /// Whether this event is the request to close the window.
    pub open spec fn requests_close(self) -> bool {
        self == Event::WindowEvent(WindowEvent::CloseRequested)
    }

    /// Tells the request to close the window from every other event.
    pub fn is_close_request(&self) -> (close: bool)
        ensures
            close == self.requests_close(),
    {
        match self {
            Event::WindowEvent(event) => match event {
                WindowEvent::CloseRequested => true,
                _ => false,
            },
            _ => false,
        }
    }
}

/// The state that follows `state` when `event` arrives.
pub open spec fn next_state(state: LoopState, event: Event) -> LoopState {
    if state is Running && !event.requests_close() {
        LoopState::Running
    } else {
        LoopState::Closed
    }
}

/// The clock reading at which the frame after the one drawn at `now` is due.
/// It is counted from `now`, not from the time at which the frame at `now`
/// had been due, so a late frame delays all that follow.
pub open spec fn frame_deadline(now: u64) -> int {
    now + FRAME_INTERVAL_NANOS
}

/// The answer of the loop in `state` to `event`, when the clock reads `now`.
pub open spec fn transition(state: LoopState, event: Event, now: u64) -> StepView
    recommends
        next_state(state, event) is Running ==> frame_deadline(now) <= u64::MAX,
{
    StepView {
        state: next_state(state, event),
        frame: if state is Running {
            Some(frame_script())
        } else {
            None
        },
        control_flow: if next_state(state, event) is Running {
            ControlFlow::WaitUntil(frame_deadline(now) as u64)
        } else {
            ControlFlow::Exit
        },
    }
}

/// The state of a loop that started running and has since handled `events`,
/// oldest first.
pub open spec fn state_after(events: Seq<Event>) -> LoopState
    decreases events.len(),
{
    if events.len() == 0 {
        LoopState::Running
    } else {
        next_state(state_after(events.drop_last()), events.last())
    }
}

/// The time at which the loop wants to be woken for the next frame.
pub fn next_frame_time(now: u64) -> (deadline: u64)
    requires
        frame_deadline(now) <= u64::MAX,
    ensures
        deadline == frame_deadline(now),
{
    now + FRAME_INTERVAL_NANOS
}

/// Handles one event.
///
/// A running loop draws a frame for every event, the closing one included,
/// and then either schedules the next frame or, on a close request, exits.
/// A closed loop draws nothing and exits.
pub fn step(state: LoopState, event: Event, now: u64) -> (next: Step)
    requires
        next_state(state, event) is Running ==> frame_deadline(now) <= u64::MAX,
    ensures
        next@ == transition(state, event, now),
{
    match state {
        LoopState::Closed => Step {
            state: LoopState::Closed,
            frame: None,
            control_flow: ControlFlow::Exit,
        },
        LoopState::Running => {
            let frame = draw();
            if event.is_close_request() {
                Step { state: LoopState::Closed, frame: Some(frame), control_flow: ControlFlow::Exit }
            } else {
                Step {
                    state: LoopState::Running,
                    frame: Some(frame),
                    control_flow: ControlFlow::WaitUntil(next_frame_time(now)),
                }
            }
        },
    }
}

/// Every frame that the loop renders, in whatever state, for whatever event
/// and at whatever time, makes one draw call, and that call submits exactly
/// the three vertices (-0.5, -0.5), (0.0, 0.5) and (0.5, -0.25), in this
/// order.
pub proof fn lemma_every_frame_submits_the_triangle(state: LoopState, event: Event, now: u64)
    requires
        transition(state, event, now).frame is Some,
    ensures
        draw_calls(transition(state, event, now).frame->0).len() == 1,
        draw_calls(transition(state, event, now).frame->0)[0].vertices == seq![
            Vertex { x: -500i32, y: -500i32 },
            Vertex { x: 0, y: 500 },
            Vertex { x: 500, y: -250i32 },
        ],
{
    lemma_frame_script_shape();
}

/// In every frame that the loop renders, the target has been cleared to
/// opaque blue, (0, 0, 1, 1), directly before each draw call.
pub proof fn lemma_every_frame_clears_to_blue(state: LoopState, event: Event, now: u64)
    requires
        transition(state, event, now).frame is Some,
    ensures
        cleared_before_each_draw(transition(state, event, now).frame->0, background()),
        background() == (Rgba { red: 0, green: 0, blue: 1000, alpha: 1000 }),
{
    lemma_frame_script_shape();
}

/// Any two frames that the loop renders are the same frame: neither the
/// state, nor the event, nor the time has a part in what is drawn.
pub proof fn lemma_frames_do_not_vary(
    state1: LoopState,
    event1: Event,
    now1: u64,
    state2: LoopState,
    event2: Event,
    now2: u64,
)
    requires
        transition(state1, event1, now1).frame is Some,
        transition(state2, event2, now2).frame is Some,
    ensures
        transition(state1, event1, now1).frame == transition(state2, event2, now2).frame,
{
}

/// A loop that has just started answers its first event with the fixed
/// frame, whatever the event is and whenever it comes.
pub proof fn lemma_first_frame_is_fixed(event: Event, now: u64)
    ensures
        transition(state_after(Seq::empty()), event, now).frame == Some(frame_script()),
{
}

/// While it runs, the loop answers every event that is not a close request
/// with a frame, stays running, and asks to be woken exactly one frame
/// interval after `now`.
pub proof fn lemma_running_loop_paces_frames(event: Event, now: u64)
    requires
        !event.requests_close(),
        frame_deadline(now) <= u64::MAX,
    ensures
        transition(LoopState::Running, event, now).state is Running,
        transition(LoopState::Running, event, now).frame is Some,
        transition(LoopState::Running, event, now).control_flow matches ControlFlow::WaitUntil(
            deadline,
        ) && deadline - now == 16_666_667,
{
}

/// Lateness is not made up for: when a frame is drawn `late` nanoseconds
/// after it was `due`, the deadline of the next frame moves by `late`
/// nanoseconds as well.
pub proof fn lemma_deadlines_drift(due: u64, late: u64)
    requires
        due + late <= u64::MAX,
    ensures
        frame_deadline((due + late) as u64) == frame_deadline(due) + late,
{
}

/// A close request ends the loop at once: the step that handles it asks to
/// exit and leaves the loop closed.
pub proof fn lemma_close_request_exits(state: LoopState, event: Event, now: u64)
    requires
        event.requests_close(),
    ensures
        transition(state, event, now).state is Closed,
        transition(state, event, now).control_flow is Exit,
{
}

/// A closed loop stays closed, renders nothing and asks to exit, whatever
/// reaches it.
pub proof fn lemma_closed_loop_is_idle(event: Event, now: u64)
    ensures
        transition(LoopState::Closed, event, now) == (StepView {
            state: LoopState::Closed,
            frame: None,
            control_flow: ControlFlow::Exit,
        }),
{
}

/// The loop is still running after `events` exactly if none of them was a
/// close request: nothing else ends it.
pub proof fn lemma_only_a_close_request_ends_the_loop(events: Seq<Event>)
    ensures
        state_after(events) is Running <==> forall|k: int|
            0 <= k < events.len() ==> !(#[trigger] events[k]).requests_close(),
    decreases events.len(),
{
    if events.len() > 0 {
        let earlier = events.drop_last();
        lemma_only_a_close_request_ends_the_loop(earlier);
        assert(forall|k: int| 0 <= k < earlier.len() ==> earlier[k] == events[k]);
    }
}

/// Once a close request has been handled, no later event is answered with a
/// frame: if `events[i]` is a close request and `i < j`, the step that
/// handles the event after the first `j` finds the loop closed, renders
/// nothing and asks to exit.
pub proof fn lemma_no_frame_after_close(events: Seq<Event>, i: int, j: int, event: Event, now: u64)
    requires
        0 <= i < j <= events.len(),
        events[i].requests_close(),
    ensures
        state_after(events.take(j)) is Closed,
        transition(state_after(events.take(j)), event, now).frame is None,
        transition(state_after(events.take(j)), event, now).control_flow is Exit,
        transition(state_after(events.take(j)), event, now).state is Closed,
{
    lemma_only_a_close_request_ends_the_loop(events.take(j));
    assert(events.take(j)[i] == events[i]);
}

} // verus!
