//! The frame loop as a state machine. The platform layer does the outside
//! work (draining messages, polling controllers, rendering, presenting,
//! reading the counter) and reports each piece as an event; the machine
//! answers with what is to be done next.

use vstd::prelude::*;
use crate::clock::{ClockReading, Fraction, FrameClock};
use crate::input::{AxisValue, GameInput};
use crate::sampler::{sample, sampled, RawController};

verus! {

/// Whether the loop goes on.
#[derive(Clone, Copy, Debug, PartialEq, Eq, Structural)]
pub enum LoopState {
    /// Frames are being made.
    Running,
    /// The loop has ended and does not start again.
    Stopped,
}

/// A piece of outside work that the platform layer has done.
#[derive(Clone, Copy, Debug, PartialEq, Eq)]
pub enum FrameEvent {
    /// All pending messages were handled; `quit` tells whether a request to
    /// quit was among them.
    Drained { quit: bool },
    /// The four controller slots were polled.
    Polled { controllers: [RawController; 4] },
    /// The frame was rendered and presented; afterwards the counter stood at
    /// `counter`.
    Presented { counter: i64 },
}

/// What the platform layer is to do next.
#[derive(Clone, Copy, Debug, PartialEq, Eq)]
pub enum FrameAction {
    /// Poll the controllers.
    Poll,
    /// Lend the framebuffer to the render callback together with `input`,
    /// then present the framebuffer and read the counter.
    Render { input: GameInput },
    /// Report how long the frame took, then drain the messages for the next
    /// frame.
    Report { elapsed: Fraction },
    /// Leave the loop.
    Exit,
}

/// The frame loop as a mathematical value.
pub struct FrameLoopModel {
    pub state: LoopState,
    /// The snapshot of the frame before: what sampling reads.
    pub previous: GameInput,
    /// The snapshot of this frame: what sampling made.
    pub current: GameInput,
    pub clock: ClockReading,
}

/// The loop after `event`, and what is to be done next.
///
/// A stopped loop stays stopped and answers every event with `Exit`. A
/// running loop stops at once when a request to quit was drained; goes on to
/// polling when none was; samples the polled controllers against the
/// previous snapshot and hands the new one out for rendering; and, once the
/// frame is presented, measures it and makes the new snapshot the previous
/// one.
pub open spec fn step_model(before: FrameLoopModel, event: FrameEvent) -> (
    FrameLoopModel,
    FrameAction,
) {
    match before.state {
        LoopState::Stopped => (before, FrameAction::Exit),
        LoopState::Running => match event {
            FrameEvent::Drained { quit } => if quit {
                (FrameLoopModel { state: LoopState::Stopped, ..before }, FrameAction::Exit)
            } else {
                (before, FrameAction::Poll)
            },
            FrameEvent::Polled { controllers } => {
                let current = sampled(controllers, before.previous);
                (FrameLoopModel { current, ..before }, FrameAction::Render { input: current })
            },
            FrameEvent::Presented { counter } => (
                FrameLoopModel {
                    previous: before.current,
                    clock: before.clock.ticked(counter),
                    ..before
                },
                FrameAction::Report { elapsed: before.clock.elapsed(counter) },
            ),
        },
    }
}

/// The loop after all of `events`, one after the other.
pub open spec fn run(start: FrameLoopModel, events: Seq<FrameEvent>) -> FrameLoopModel
    decreases events.len(),
{
    if events.len() == 0 {
        start
    } else {
        step_model(run(start, events.drop_last()), events.last()).0
    }
}

/// The answer to event number `k` of `events`.
pub open spec fn action_at(start: FrameLoopModel, events: Seq<FrameEvent>, k: int) -> FrameAction
    recommends
        0 <= k < events.len(),
{
    step_model(run(start, events.take(k)), events[k]).1
}

/// Whether `event` reports the work that `action` asked for.
pub open spec fn answers(event: FrameEvent, action: FrameAction) -> bool {
    match action {
        FrameAction::Poll => event is Polled,
        FrameAction::Render { .. } => event is Presented,
        FrameAction::Report { .. } => event is Drained,
        FrameAction::Exit => false,
    }
}

/// Whether the platform layer did as it was told: it began by draining the
/// messages, and then reported, each time, the work that the answer before
/// had asked for.
pub open spec fn follows_the_loop(start: FrameLoopModel, events: Seq<FrameEvent>) -> bool {
    &&& events.len() > 0 ==> events[0] is Drained
    &&& forall|k: int|
        0 <= k < events.len() - 1 ==> answers(
            events[k + 1],
            #[trigger] action_at(start, events, k),
        )
}

/// The frame loop: its state, the two snapshots, and the clock.
#[derive(Debug)]
pub struct FrameLoop {
    state: LoopState,
    previous: GameInput,
    current: GameInput,
    clock: FrameClock,
}

impl View for FrameLoop {
    type V = FrameLoopModel;

    closed spec fn view(&self) -> FrameLoopModel {
        FrameLoopModel {
            state: self.state,
            previous: self.previous,
            current: self.current,
            clock: self.clock@,
        }
    }
}

impl FrameLoop {
    /// A running loop before its first frame: both snapshots are idle.
    pub fn new(clock: FrameClock) -> (frame_loop: FrameLoop)
        ensures
            frame_loop@ == (FrameLoopModel {
                state: LoopState::Running,
                previous: GameInput::idle(),
                current: GameInput::idle(),
                clock: clock@,
            }),
    {
        FrameLoop {
            state: LoopState::Running,
            previous: GameInput::default(),
            current: GameInput::default(),
            clock,
        }
    }

    /// Whether the loop goes on.
    pub fn state(&self) -> (state: LoopState)
        ensures
            state == self@.state,
    {
        self.state
    }

    /// The snapshot that the next sampling reads.
    pub fn previous(&self) -> (input: GameInput)
        ensures
            input == self@.previous,
    {
        self.previous
    }

    /// The snapshot that the last sampling made.
    pub fn current(&self) -> (input: GameInput)
        ensures
            input == self@.current,
    {
        self.current
    }

    /// Takes in one event and says what is to be done next.
    pub fn step(&mut self, event: FrameEvent) -> (action: FrameAction)
        ensures
            (final(self)@, action) == step_model(old(self)@, event),
            old(self)@.state == LoopState::Stopped ==> final(self)@ == old(self)@,
            event == (FrameEvent::Drained { quit: true }) ==> final(self)@.state
                == LoopState::Stopped,
            final(self)@.state == LoopState::Stopped ==> action == FrameAction::Exit,
            action is Render ==> old(self)@.state == LoopState::Running && event is Polled,
    {
        match self.state {
            LoopState::Stopped => FrameAction::Exit,
            LoopState::Running => match event {
                FrameEvent::Drained { quit } => {
                    if quit {
                        self.state = LoopState::Stopped;
                        FrameAction::Exit
                    } else {
                        FrameAction::Poll
                    }
                },
                FrameEvent::Polled { controllers } => {
                    self.current = sample(&controllers, &self.previous);
                    FrameAction::Render { input: self.current }
                },
                FrameEvent::Presented { counter } => {
                    let elapsed = self.clock.tick(counter);
                    self.previous = self.current;
                    FrameAction::Report { elapsed }
                },
            },
        }
    }
}

/// A stopped loop stays as it is, whatever comes.
pub proof fn stopped_is_final(start: FrameLoopModel, events: Seq<FrameEvent>)
    requires
        start.state == LoopState::Stopped,
    ensures
        run(start, events) == start,
    decreases events.len(),
{
    if events.len() > 0 {
        stopped_is_final(start, events.drop_last());
    }
}

/// The loop after `k + 1` events is the loop after `k` events, stepped by
/// event number `k`.
pub proof fn lemma_run_unfolds(start: FrameLoopModel, events: Seq<FrameEvent>, k: int)
    requires
        0 <= k < events.len(),
    ensures
        run(start, events.take(k + 1)) == step_model(run(start, events.take(k)), events[k]).0,
{
    assert(events.take(k + 1).drop_last() =~= events.take(k));
}

/// Once a request to quit was drained, nothing is rendered any more: the
/// loop is stopped from that event on, and that event and every later one is
/// answered with `Exit`.
pub proof fn quit_stops_rendering(
    start: FrameLoopModel,
    events: Seq<FrameEvent>,
    k: int,
    j: int,
)
    requires
        0 <= k <= j < events.len(),
        events[k] == (FrameEvent::Drained { quit: true }),
    ensures
        run(start, events.take(j + 1)).state == LoopState::Stopped,
        action_at(start, events, j) == FrameAction::Exit,
        !(action_at(start, events, j) is Render),
    decreases j - k,
{
    lemma_run_unfolds(start, events, j);
    if j > k {
        quit_stops_rendering(start, events, k, j - 1);
    }
}

/// A running loop keeps running as long as no request to quit is drained.
pub proof fn runs_until_quit(start: FrameLoopModel, events: Seq<FrameEvent>)
    requires
        start.state == LoopState::Running,
        forall|k: int|
            0 <= k < events.len() ==> events[k] != (FrameEvent::Drained { quit: true }),
    ensures
        run(start, events).state == LoopState::Running,
    decreases events.len(),
{
    if events.len() > 0 {
        runs_until_quit(start, events.drop_last());
    }
}

/// While the loop runs and the platform layer does as it is told, the work
/// of every frame comes in one fixed order: the messages are drained, the
/// controllers polled, the frame rendered and presented, its time reported;
/// then the next frame begins.
pub proof fn frames_keep_their_order(start: FrameLoopModel, events: Seq<FrameEvent>, k: int)
    requires
        start.state == LoopState::Running,
        follows_the_loop(start, events),
        0 <= k < events.len(),
        forall|j: int| 0 <= j <= k ==> events[j] != (FrameEvent::Drained { quit: true }),
    ensures
        k % 3 == 0 ==> events[k] is Drained && action_at(start, events, k) == FrameAction::Poll,
        k % 3 == 1 ==> events[k] is Polled && action_at(start, events, k) is Render,
        k % 3 == 2 ==> events[k] is Presented && action_at(start, events, k) is Report,
    decreases k,
{
    let before = run(start, events.take(k));
    assert(before.state == LoopState::Running) by {
        runs_until_quit(start, events.take(k));
    }
    assert(action_at(start, events, k) == step_model(before, events[k]).1);
    if k > 0 {
        frames_keep_their_order(start, events, k - 1);
        assert(answers(events[k], action_at(start, events, k - 1)));
    }
}

/// From one frame to the next, a stick starts where it stopped: when a
/// running loop makes two frames in a row, the second frame's snapshot has
/// the `start` of each axis equal to the `stop` that the first frame's
/// snapshot held for it.
///
/// This is said of every controller but one that went away between the two
/// frames while its stick was off its rest: that stick is reset to rest.
pub proof fn sticks_continue_across_frames(
    start: FrameLoopModel,
    first: [RawController; 4],
    counter: i64,
    second: [RawController; 4],
    c: int,
)
    requires
        start.state == LoopState::Running,
        0 <= c < 4,
        second[c] is Connected || ({
            let stick = sampled(first, start.previous).controllers[c].stick;
            stick.x.stop == AxisValue::rest() && stick.y.stop == AxisValue::rest()
        }),
    ensures
        ({
            let polled = step_model(start, FrameEvent::Polled { controllers: first });
            let presented = step_model(polled.0, FrameEvent::Presented { counter });
            let drained = step_model(presented.0, FrameEvent::Drained { quit: false });
            let next = step_model(drained.0, FrameEvent::Polled { controllers: second });
            &&& polled.1 is Render
            &&& next.1 is Render
            &&& next.1->input.controllers[c].stick.x.start
                == polled.1->input.controllers[c].stick.x.stop
            &&& next.1->input.controllers[c].stick.y.start
                == polled.1->input.controllers[c].stick.y.stop
            &&& next.1->input.controllers[c].stick.x.start.value()
                == polled.1->input.controllers[c].stick.x.stop.value()
            &&& next.1->input.controllers[c].stick.y.start.value()
                == polled.1->input.controllers[c].stick.y.stop.value()
        }),
{
}

} // verus!
