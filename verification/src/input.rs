//! The logical input model that the renderer reads: buttons that count their
//! edges, stick trajectories, and a snapshot of four controllers.

use vstd::prelude::*;

verus! {

/// The signal of one button over one sampled interval.
///
/// While the interval lasts the button may go down and up any number of
/// times. The signal is kept as the number of transitions and the state the
/// button ended in: three transitions ending down are
/// `half_transition_count == 3`, `is_down == true`.
#[derive(Clone, Copy, Debug, PartialEq, Eq, Structural)]
pub struct ButtonState {
    pub half_transition_count: i32,
    pub is_down: bool,
}

impl ButtonState {
    /// The button at rest: up, with no transition.
    pub open spec fn idle() -> ButtonState {
        ButtonState { half_transition_count: 0, is_down: false }
    }

    /// The count a button carries when it is sampled once per interval: one
    /// transition if it ended in another state than `previous` did, else none.
    pub open spec fn counts_edge_from(self, previous: ButtonState) -> bool {
        self.half_transition_count == (if self.is_down != previous.is_down {
            1int
        } else {
            0int
        })
    }
}

impl Default for ButtonState {
    fn default() -> (button: ButtonState)
        ensures
            button == ButtonState::idle(),
    {
        ButtonState { half_transition_count: 0, is_down: false }
    }
}

/// The position that a raw axis sample stands for, as a real number.
///
/// The signed 16-bit range is not symmetric, so one divisor cannot serve both
/// signs: a sample at or above zero is measured against the greatest sample,
/// 32767, a sample below zero against the magnitude of the least, 32768.
pub open spec fn normalized(sample: int) -> real {
    if sample >= 0 {
        sample as real / 32767real
    } else {
        sample as real / 32768real
    }
}

/// The whole number nearest to `x` between `x` and zero.
pub open spec fn truncated(x: real) -> int {
    if x >= 0real {
        x.floor()
    } else {
        -((-x).floor())
    }
}

/// One position of an analog axis, in `[-1, 1]`.
///
/// The position is kept exactly, as the raw sample it was normalized from;
/// [`AxisValue::value`] is the number it stands for.
#[derive(Clone, Copy, Debug, PartialEq, Eq, Structural)]
pub struct AxisValue {
    pub raw: i16,
}

impl AxisValue {
    /// The axis at rest.
    pub open spec fn rest() -> AxisValue {
        AxisValue { raw: 0 }
    }

    /// The position as a real number.
    pub open spec fn value(self) -> real {
        normalized(self.raw as int)
    }

    /// Normalizes a raw sample.
    pub fn normalize(sample: i16) -> (axis: AxisValue)
        ensures
            axis.raw == sample,
            axis.value() == normalized(sample as int),
            -1real <= axis.value() <= 1real,
    {
        AxisValue { raw: sample }
    }

    /// Numerator of the position written as a fraction.
    pub fn numerator(&self) -> (n: i32)
        ensures
            n == self.raw,
    {
        self.raw as i32
    }

    /// Denominator of the position written as a fraction: the magnitude of
    /// the end of the raw range on the side of the sample.
    pub fn denominator(&self) -> (d: i32)
        ensures
            d == (if self.raw >= 0 {
                32767int
            } else {
                32768int
            }),
            self.value() == self.raw as real / d as real,
    {
        if self.raw >= 0 {
            32767
        } else {
            32768
        }
    }

    /// The position times `factor`, cut to a whole number towards zero.
    pub fn scaled(&self, factor: i16) -> (n: i32)
        ensures
            n == truncated(factor as real * self.value()),
    {
        assert(-0x4000_0000 <= factor * self.raw <= 0x4000_0000) by (nonlinear_arith)
            requires
                -0x8000 <= factor <= 0x8000,
                -0x8000 <= self.raw <= 0x8000,
        ;
        let product: i32 = (factor as i32) * (self.raw as i32);
        proof {
            lemma_truncated_fraction(factor as int, self.raw as int);
        }
        if self.raw >= 0 {
            product / 32767
        } else {
            product / 32768
        }
    }
}

impl Default for AxisValue {
    fn default() -> (axis: AxisValue)
        ensures
            axis == AxisValue::rest(),
    {
        AxisValue { raw: 0 }
    }
}

/// Cutting `factor * normalized(sample)` towards zero is whole-number
/// division of the product by the divisor of `sample`'s side, rounded
/// towards zero.
pub proof fn lemma_truncated_fraction(factor: int, sample: int)
    ensures
        truncated(factor as real * normalized(sample)) == (if sample >= 0 {
            if factor * sample >= 0 {
                (factor * sample) / 32767
            } else {
                -((-(factor * sample)) / 32767)
            }
        } else {
            if factor * sample >= 0 {
                (factor * sample) / 32768
            } else {
                -((-(factor * sample)) / 32768)
            }
        }),
{
    let f = factor as real;
    let s = sample as real;
    let p = (factor * sample) as real;
    assert(f * s == p) by (nonlinear_arith)
        requires
            f == factor as real,
            s == sample as real,
            p == (factor * sample) as real,
    ;
    assert(f * (s / 32767real) == p / 32767real && f * (s / 32768real) == p / 32768real)
        by (nonlinear_arith)
        requires
            f * s == p,
    ;
}

/// What one axis did over one sampled interval: where it started, where it
/// stopped, and the least and greatest position it took.
#[derive(Clone, Copy, Debug, PartialEq, Eq, Structural)]
pub struct StickInterval {
    pub min: AxisValue,
    pub max: AxisValue,
    pub start: AxisValue,
    pub stop: AxisValue,
}

impl StickInterval {
    /// The axis at rest over the whole interval.
    pub open spec fn idle() -> StickInterval {
        StickInterval {
            min: AxisValue::rest(),
            max: AxisValue::rest(),
            start: AxisValue::rest(),
            stop: AxisValue::rest(),
        }
    }
}

impl Default for StickInterval {
    fn default() -> (interval: StickInterval)
        ensures
            interval == StickInterval::idle(),
    {
        let rest = AxisValue::default();
        StickInterval { min: rest, max: rest, start: rest, stop: rest }
    }
}

/// The two axes of one analog stick.
#[derive(Clone, Copy, Debug, PartialEq, Eq, Structural)]
pub struct StickState {
    pub x: StickInterval,
    pub y: StickInterval,
}

impl StickState {
    /// Both axes at rest.
    pub open spec fn idle() -> StickState {
        StickState { x: StickInterval::idle(), y: StickInterval::idle() }
    }
}

impl Default for StickState {
    fn default() -> (stick: StickState)
        ensures
            stick == StickState::idle(),
    {
        StickState { x: StickInterval::default(), y: StickInterval::default() }
    }
}

/// One controller over one sampled interval.
#[derive(Clone, Copy, Debug, PartialEq, Eq, Structural)]
pub struct ControllerInput {
    pub stick: StickState,
    pub a_button: ButtonState,
    pub b_button: ButtonState,
    pub x_button: ButtonState,
    pub y_button: ButtonState,
    pub left_shoulder: ButtonState,
    pub right_shoulder: ButtonState,
}

impl ControllerInput {
    /// Every button up with no transition, every axis at rest.
    pub open spec fn idle() -> ControllerInput {
        ControllerInput {
            stick: StickState::idle(),
            a_button: ButtonState::idle(),
            b_button: ButtonState::idle(),
            x_button: ButtonState::idle(),
            y_button: ButtonState::idle(),
            left_shoulder: ButtonState::idle(),
            right_shoulder: ButtonState::idle(),
        }
    }

    /// The tracked buttons in their fixed order: A, B, X, Y, left shoulder,
    /// right shoulder.
    pub open spec fn buttons(self) -> Seq<ButtonState> {
        seq![
            self.a_button,
            self.b_button,
            self.x_button,
            self.y_button,
            self.left_shoulder,
            self.right_shoulder,
        ]
    }
}

impl Default for ControllerInput {
    fn default() -> (controller: ControllerInput)
        ensures
            controller == ControllerInput::idle(),
    {
        let up = ButtonState::default();
        ControllerInput {
            stick: StickState::default(),
            a_button: up,
            b_button: up,
            x_button: up,
            y_button: up,
            left_shoulder: up,
            right_shoulder: up,
        }
    }
}

/// The input of one frame: four controllers, in slot order.
#[derive(Clone, Copy, Debug, PartialEq, Eq)]
pub struct GameInput {
    pub controllers: [ControllerInput; 4],
}

impl GameInput {
    /// All four controllers idle.
    pub open spec fn idle() -> GameInput {
        GameInput {
            controllers: [
                ControllerInput::idle(),
                ControllerInput::idle(),
                ControllerInput::idle(),
                ControllerInput::idle(),
            ],
        }
    }
}

impl Default for GameInput {
    fn default() -> (input: GameInput)
        ensures
            input == GameInput::idle(),
    {
        let cid = ControllerInput::default();
        let input = GameInput { controllers: [cid, cid, cid, cid] };
        assert(input.controllers =~= GameInput::idle().controllers);
        input
    }
}

/// Normalization maps the raw range onto `[-1, 1]`, end to end: zero stays
/// zero, the greatest sample becomes 1 and the least becomes -1.
pub proof fn normalization_covers_range(sample: i16)
    ensures
        sample >= 0 ==> normalized(sample as int) == sample as real / 32767real,
        sample < 0 ==> normalized(sample as int) == sample as real / 32768real,
        -1real <= normalized(sample as int) <= 1real,
        normalized(0) == 0real,
        normalized(32767) == 1real,
        normalized(-32768) == -1real,
{
}

/// Normalization keeps the order of samples, so a position determines the
/// sample it came from.
pub proof fn normalization_keeps_order(a: i16, b: i16)
    ensures
        a < b <==> normalized(a as int) < normalized(b as int),
        a == b <==> normalized(a as int) == normalized(b as int),
{
}

} // verus!
