//! Turns the raw state polled from the controllers, together with the
//! previous snapshot, into the next snapshot.

use vstd::prelude::*;
use crate::input::{
    normalized, AxisValue, ButtonState, ControllerInput, GameInput, StickInterval, StickState,
};

verus! {

/// Bit of the A button in a raw button mask.
pub const XINPUT_GAMEPAD_A: u16 = 0x1000;

/// Bit of the B button in a raw button mask.
pub const XINPUT_GAMEPAD_B: u16 = 0x2000;

/// Bit of the X button in a raw button mask.
pub const XINPUT_GAMEPAD_X: u16 = 0x4000;

/// Bit of the Y button in a raw button mask.
pub const XINPUT_GAMEPAD_Y: u16 = 0x8000;

/// Bit of the left shoulder button in a raw button mask.
pub const XINPUT_GAMEPAD_LEFT_SHOULDER: u16 = 0x0100;

/// Bit of the right shoulder button in a raw button mask.
pub const XINPUT_GAMEPAD_RIGHT_SHOULDER: u16 = 0x0200;

/// The status with which a poll reports a connected controller.
pub const ERROR_SUCCESS: u32 = 0;

/// What polling one controller slot gave.
#[derive(Clone, Copy, Debug, PartialEq, Eq, Structural)]
pub enum RawController {
    /// No controller answers in this slot.
    Disconnected,
    /// A controller answered with its button mask and the two axes of its
    /// left stick.
    Connected { buttons: u16, thumb_x: i16, thumb_y: i16 },
}

impl RawController {
    /// Reads the outcome of a poll: the state counts only if `status` reports
    /// success; any other status is a slot without a controller.
    pub fn from_poll(status: u32, buttons: u16, thumb_x: i16, thumb_y: i16) -> (raw: RawController)
        ensures
            raw == (if status == ERROR_SUCCESS {
                RawController::Connected { buttons, thumb_x, thumb_y }
            } else {
                RawController::Disconnected
            }),
    {
        if status == ERROR_SUCCESS {
            RawController::Connected { buttons, thumb_x, thumb_y }
        } else {
            RawController::Disconnected
        }
    }
}

impl Default for RawController {
    /// Where nothing can be polled, every slot is without a controller.
    fn default() -> (raw: RawController)
        ensures
            raw == RawController::Disconnected,
    {
        RawController::Disconnected
    }
}

/// The button after a sample: down if its bit is set in the mask, with one
/// transition if that differs from where `previous` ended.
pub open spec fn sampled_button(buttons: u16, button_bit: u16, previous: ButtonState) -> ButtonState {
    let is_down = buttons & button_bit != 0;
    ButtonState {
        half_transition_count: if is_down != previous.is_down {
            1
        } else {
            0
        },
        is_down,
    }
}

/// The axis after a sample: it starts where `previous` stopped, and the one
/// sample is its least, greatest and last position.
pub open spec fn sampled_axis(sample: i16, previous: StickInterval) -> StickInterval {
    let position = AxisValue { raw: sample };
    StickInterval { min: position, max: position, start: previous.stop, stop: position }
}

/// The controller after a poll. A slot without a controller is idle, whatever
/// it was before; a connected one has each button and axis sampled against
/// `previous`.
pub open spec fn sampled_controller(raw: RawController, previous: ControllerInput) -> ControllerInput {
    match raw {
        RawController::Disconnected => ControllerInput::idle(),
        RawController::Connected { buttons, thumb_x, thumb_y } => ControllerInput {
            stick: StickState {
                x: sampled_axis(thumb_x, previous.stick.x),
                y: sampled_axis(thumb_y, previous.stick.y),
            },
            a_button: sampled_button(buttons, XINPUT_GAMEPAD_A, previous.a_button),
            b_button: sampled_button(buttons, XINPUT_GAMEPAD_B, previous.b_button),
            x_button: sampled_button(buttons, XINPUT_GAMEPAD_X, previous.x_button),
            y_button: sampled_button(buttons, XINPUT_GAMEPAD_Y, previous.y_button),
            left_shoulder: sampled_button(
                buttons,
                XINPUT_GAMEPAD_LEFT_SHOULDER,
                previous.left_shoulder,
            ),
            right_shoulder: sampled_button(
                buttons,
                XINPUT_GAMEPAD_RIGHT_SHOULDER,
                previous.right_shoulder,
            ),
        },
    }
}

/// The snapshot after polling all four slots.
pub open spec fn sampled(raw: [RawController; 4], previous: GameInput) -> GameInput {
    GameInput {
        controllers: [
            sampled_controller(raw[0], previous.controllers[0]),
            sampled_controller(raw[1], previous.controllers[1]),
            sampled_controller(raw[2], previous.controllers[2]),
            sampled_controller(raw[3], previous.controllers[3]),
        ],
    }
}

/// Samples one button.
pub fn process_xinput_button(button_state: u16, button_bit: u16, previous_state: ButtonState) -> (button: ButtonState)
    ensures
        button == sampled_button(button_state, button_bit, previous_state),
        button.is_down == (button_state & button_bit != 0),
        button.counts_edge_from(previous_state),
        0 <= button.half_transition_count <= 1,
{
    let is_down = (button_state & button_bit) != 0;
    ButtonState {
        is_down,
        half_transition_count: if is_down != previous_state.is_down {
            1
        } else {
            0
        },
    }
}

/// Samples one axis.
pub fn sample_axis(sample: i16, previous: &StickInterval) -> (interval: StickInterval)
    ensures
        interval == sampled_axis(sample, *previous),
        interval.start == previous.stop,
        interval.stop.value() == normalized(sample as int),
        interval.min == interval.stop,
        interval.max == interval.stop,
{
    let position = AxisValue::normalize(sample);
    StickInterval { min: position, max: position, start: previous.stop, stop: position }
}

/// Samples one controller slot.
pub fn sample_controller(raw: RawController, previous: &ControllerInput) -> (controller: ControllerInput)
    ensures
        controller == sampled_controller(raw, *previous),
        raw is Disconnected ==> controller == ControllerInput::idle(),
        raw is Connected ==> controller.stick.x.start == previous.stick.x.stop,
        raw is Connected ==> controller.stick.y.start == previous.stick.y.stop,
        forall|b: int|
            0 <= b < 6 ==> 0 <= (#[trigger] controller.buttons()[b]).half_transition_count <= 1,
        forall|b: int|
            0 <= b < 6 && (raw is Connected || !previous.buttons()[b].is_down)
                ==> (#[trigger] controller.buttons()[b]).counts_edge_from(previous.buttons()[b]),
{
    match raw {
        RawController::Disconnected => ControllerInput::default(),
        RawController::Connected { buttons, thumb_x, thumb_y } => ControllerInput {
            stick: StickState {
                x: sample_axis(thumb_x, &previous.stick.x),
                y: sample_axis(thumb_y, &previous.stick.y),
            },
            a_button: process_xinput_button(buttons, XINPUT_GAMEPAD_A, previous.a_button),
            b_button: process_xinput_button(buttons, XINPUT_GAMEPAD_B, previous.b_button),
            x_button: process_xinput_button(buttons, XINPUT_GAMEPAD_X, previous.x_button),
            y_button: process_xinput_button(buttons, XINPUT_GAMEPAD_Y, previous.y_button),
            left_shoulder: process_xinput_button(
                buttons,
                XINPUT_GAMEPAD_LEFT_SHOULDER,
                previous.left_shoulder,
            ),
            right_shoulder: process_xinput_button(
                buttons,
                XINPUT_GAMEPAD_RIGHT_SHOULDER,
                previous.right_shoulder,
            ),
        },
    }
}

/// Samples all four controller slots against the previous snapshot.
pub fn sample(raw: &[RawController; 4], previous: &GameInput) -> (input: GameInput)
    ensures
        input == sampled(*raw, *previous),
        forall|c: int|
            0 <= c < 4 ==> #[trigger] input.controllers[c] == sampled_controller(
                raw[c],
                previous.controllers[c],
            ),
        forall|c: int|
            0 <= c < 4 && raw[c] is Disconnected ==> #[trigger] input.controllers[c]
                == ControllerInput::idle(),
        forall|c: int|
            0 <= c < 4 && raw[c] is Connected ==> (#[trigger] input.controllers[c]).stick.x.start
                == previous.controllers[c].stick.x.stop && input.controllers[c].stick.y.start
                == previous.controllers[c].stick.y.stop,
        forall|c: int, b: int|
            0 <= c < 4 && 0 <= b < 6 ==> 0 <= (#[trigger] input.controllers[c].buttons()[b]).half_transition_count
                <= 1,
        forall|c: int, b: int|
            0 <= c < 4 && 0 <= b < 6 && (raw[c] is Connected
                || !previous.controllers[c].buttons()[b].is_down)
                ==> (#[trigger] input.controllers[c].buttons()[b]).counts_edge_from(
                previous.controllers[c].buttons()[b],
            ),
{
    let mut input = GameInput::default();
    let mut index: usize = 0;
    while index < 4
        invariant
            index <= 4,
            forall|c: int|
                0 <= c < index ==> #[trigger] input.controllers[c] == sampled_controller(
                    raw[c],
                    previous.controllers[c],
                ),
        decreases 4 - index,
    {
        input.controllers[index] = sample_controller(raw[index], &previous.controllers[index]);
        index += 1;
    }
    proof {
        assert(input.controllers =~= sampled(*raw, *previous).controllers);
        assert forall|c: int, b: int| 0 <= c < 4 && 0 <= b < 6 implies 0 <= (
        #[trigger] input.controllers[c].buttons()[b]).half_transition_count <= 1 by {
            half_transitions_are_none_or_one(*raw, *previous, c, b);
        }
        assert forall|c: int, b: int|
            0 <= c < 4 && 0 <= b < 6 && (raw[c] is Connected
                || !previous.controllers[c].buttons()[b].is_down) implies (
        #[trigger] input.controllers[c].buttons()[b]).counts_edge_from(
            previous.controllers[c].buttons()[b],
        ) by {
            half_transitions_count_edges(*raw, *previous, c, b);
        }
    }
    input
}

/// A slot without a controller is idle in the new snapshot, whatever the
/// previous snapshot held for it.
pub proof fn disconnect_resets(raw: [RawController; 4], previous: GameInput, c: int)
    requires
        0 <= c < 4,
        raw[c] is Disconnected,
    ensures
        sampled(raw, previous).controllers[c] == ControllerInput::idle(),
{
}

/// Every tracked button of a snapshot carries no transition or one.
pub proof fn half_transitions_are_none_or_one(
    raw: [RawController; 4],
    previous: GameInput,
    c: int,
    b: int,
)
    requires
        0 <= c < 4,
        0 <= b < 6,
    ensures
        ({
            let now = sampled(raw, previous).controllers[c].buttons()[b];
            now.half_transition_count == 0 || now.half_transition_count == 1
        }),
{
}

/// A tracked button carries one transition exactly when it ended in another
/// state than it had in the previous snapshot.
///
/// This is said of every button but one that was down when its controller
/// went away: that button is reset to up without a transition being counted.
pub proof fn half_transitions_count_edges(
    raw: [RawController; 4],
    previous: GameInput,
    c: int,
    b: int,
)
    requires
        0 <= c < 4,
        0 <= b < 6,
        raw[c] is Connected || !previous.controllers[c].buttons()[b].is_down,
    ensures
        ({
            let now = sampled(raw, previous).controllers[c].buttons()[b];
            let before = previous.controllers[c].buttons()[b];
            &&& now.half_transition_count == 1 <==> now.is_down != before.is_down
            &&& now.half_transition_count == 0 <==> now.is_down == before.is_down
            &&& now.counts_edge_from(before)
        }),
{
}

/// A stick starts, on each axis, where the previous snapshot had it stop.
///
/// This is said of every controller but one that went away while its stick
/// was off its rest: that stick is reset to rest.
pub proof fn stick_starts_where_it_stopped(raw: [RawController; 4], previous: GameInput, c: int)
    requires
        0 <= c < 4,
        raw[c] is Connected || (previous.controllers[c].stick.x.stop == AxisValue::rest()
            && previous.controllers[c].stick.y.stop == AxisValue::rest()),
    ensures
        ({
            let now = sampled(raw, previous).controllers[c].stick;
            let before = previous.controllers[c].stick;
            &&& now.x.start == before.x.stop
            &&& now.y.start == before.y.stop
            &&& now.x.start.value() == before.x.stop.value()
            &&& now.y.start.value() == before.y.stop.value()
        }),
{
}

/// The one sample that a connected controller's stick gave in the interval
/// is, normalized, its least, greatest and last position on each axis.
pub proof fn stick_stops_at_its_sample(raw: [RawController; 4], previous: GameInput, c: int)
    requires
        0 <= c < 4,
        raw[c] is Connected,
    ensures
        ({
            let now = sampled(raw, previous).controllers[c].stick;
            &&& now.x.stop.value() == normalized(raw[c]->thumb_x as int)
            &&& now.y.stop.value() == normalized(raw[c]->thumb_y as int)
            &&& now.x.min == now.x.stop && now.x.max == now.x.stop
            &&& now.y.min == now.y.stop && now.y.max == now.y.stop
        }),
{
}

} // verus!
