//! The render step: a gradient that the first controller's stick moves
//! across the framebuffer.

use vstd::prelude::*;
use crate::gfx::PixelBuffer;
use crate::input::{lemma_truncated_fraction, truncated, AxisValue, GameInput};

verus! {

/// How many pixels a stick held at the end of its range moves the gradient
/// in one frame.
pub const DRIFT_PER_FRAME: i16 = 10;

/// `v` brought into the signed 32-bit range by a multiple of 2^32.
pub open spec fn wrapped(v: int) -> int {
    let low = v % 0x1_0000_0000;
    if low > 0x7fff_ffff {
        low - 0x1_0000_0000
    } else {
        low
    }
}

/// How far a stick that stopped at `stop` moves the gradient along its axis
/// in one frame.
pub open spec fn drift(stop: AxisValue) -> int {
    truncated(DRIFT_PER_FRAME as real * stop.value())
}

/// In one frame the gradient moves by no more than [`DRIFT_PER_FRAME`]
/// pixels along an axis, and by that much only with the stick at an end of
/// its range.
pub proof fn drift_is_bounded(stop: AxisValue)
    ensures
        -DRIFT_PER_FRAME <= drift(stop) <= DRIFT_PER_FRAME,
        drift(stop) == DRIFT_PER_FRAME <==> stop.raw == 32767,
        drift(stop) == -DRIFT_PER_FRAME <==> stop.raw == -32768,
        drift(AxisValue::rest()) == 0,
{
    lemma_truncated_fraction(DRIFT_PER_FRAME as int, stop.raw as int);
    lemma_truncated_fraction(DRIFT_PER_FRAME as int, 0);
}

/// The packed pixel of the gradient at `(x, y)`: the low byte runs with the
/// column, the byte above it with the row, and both start over every 256
/// pixels; the two high bytes are zero.
pub open spec fn gradient(x: int, y: int, x_offset: int, y_offset: int) -> int {
    256 * ((y + y_offset) % 256) + (x + x_offset) % 256
}

/// What the render step keeps from one frame to the next: how far the
/// gradient has moved.
#[derive(Clone, Copy, Debug, PartialEq, Eq, Structural)]
pub struct GameState {
    pub x_offset: i32,
    pub y_offset: i32,
}

impl Default for GameState {
    fn default() -> (state: GameState)
        ensures
            state.x_offset == 0,
            state.y_offset == 0,
    {
        GameState { x_offset: 0, y_offset: 0 }
    }
}

/// The low byte of `position + offset`.
fn channel(position: i32, offset: i32) -> (value: u8)
    ensures
        value == (position + offset) % 256,
{
    let sum: i32 = position.wrapping_add(offset);
    assert(sum as u8 == sum % 256) by (bit_vector);
    #[verifier::truncate]
    (sum as u8)
}

/// Fills every pixel of the buffer with the gradient moved by the two
/// offsets. Bytes between the end of a row's pixels and the next row stay
/// as they are.
pub fn render_weird_gradient(buffer: &mut PixelBuffer, x_offset: i32, y_offset: i32)
    ensures
        final(buffer)@.wf(),
        final(buffer)@.width == old(buffer)@.width,
        final(buffer)@.height == old(buffer)@.height,
        final(buffer)@.pitch == old(buffer)@.pitch,
        final(buffer)@.memory.len() == old(buffer)@.memory.len(),
        forall|x: int, y: int|
            old(buffer)@.contains(x, y) ==> #[trigger] final(buffer)@.pixel(x, y) == gradient(
                x,
                y,
                x_offset as int,
                y_offset as int,
            ),
        forall|i: int|
            0 <= i < old(buffer)@.memory.len() && old(buffer)@.is_padding(i)
                ==> #[trigger] final(buffer)@.memory[i] == old(buffer)@.memory[i],
{
    let width = buffer.width();
    let height = buffer.height();
    let ghost start = buffer@;
    proof {
        use_type_invariant(&*buffer);
    }
    let mut y: i32 = 0;
    while y < height
        invariant
            0 <= y <= height,
            start.wf(),
            buffer@.wf(),
            buffer@.width == start.width == width,
            buffer@.height == start.height == height,
            buffer@.pitch == start.pitch,
            buffer@.memory.len() == start.memory.len(),
            forall|u: int, v: int|
                start.contains(u, v) && v < y ==> #[trigger] buffer@.pixel(u, v) == gradient(
                    u,
                    v,
                    x_offset as int,
                    y_offset as int,
                ),
            forall|i: int|
                0 <= i < start.memory.len() && start.is_padding(i)
                    ==> #[trigger] buffer@.memory[i] == start.memory[i],
        decreases height - y,
    {
        let green = channel(y, y_offset);
        let mut x: i32 = 0;
        while x < width
            invariant
                0 <= x <= width,
                0 <= y < height,
                green == (y + y_offset) % 256,
                start.wf(),
                buffer@.wf(),
                buffer@.width == start.width == width,
                buffer@.height == start.height == height,
                buffer@.pitch == start.pitch,
                buffer@.memory.len() == start.memory.len(),
                forall|u: int, v: int|
                    start.contains(u, v) && (v < y || (v == y && u < x))
                        ==> #[trigger] buffer@.pixel(u, v) == gradient(
                        u,
                        v,
                        x_offset as int,
                        y_offset as int,
                    ),
                forall|i: int|
                    0 <= i < start.memory.len() && start.is_padding(i)
                        ==> #[trigger] buffer@.memory[i] == start.memory[i],
            decreases width - x,
        {
            let blue = channel(x, x_offset);
            let value: u32 = 256 * (green as u32) + (blue as u32);
            let ghost before = buffer@;
            buffer.set_pixel(x, y, value);
            assert(start.offset(x as int, y as int) == before.offset(x as int, y as int));
            x += 1;
        }
        y += 1;
    }
}

/// One frame of the game: the first controller's stick moves the gradient,
/// by up to [`DRIFT_PER_FRAME`] pixels along each axis, and the gradient is
/// drawn over the whole buffer. The offsets wrap around the 32-bit range.
pub fn update_and_render(state: &mut GameState, buffer: &mut PixelBuffer, input: &GameInput)
    ensures
        final(state).x_offset == wrapped(
            old(state).x_offset + drift(input.controllers[0].stick.x.stop),
        ),
        final(state).y_offset == wrapped(
            old(state).y_offset + drift(input.controllers[0].stick.y.stop),
        ),
        final(buffer)@.wf(),
        final(buffer)@.width == old(buffer)@.width,
        final(buffer)@.height == old(buffer)@.height,
        final(buffer)@.pitch == old(buffer)@.pitch,
        final(buffer)@.memory.len() == old(buffer)@.memory.len(),
        forall|x: int, y: int|
            old(buffer)@.contains(x, y) ==> #[trigger] final(buffer)@.pixel(x, y) == gradient(
                x,
                y,
                final(state).x_offset as int,
                final(state).y_offset as int,
            ),
        forall|i: int|
            0 <= i < old(buffer)@.memory.len() && old(buffer)@.is_padding(i)
                ==> #[trigger] final(buffer)@.memory[i] == old(buffer)@.memory[i],
{
    let pad = &input.controllers[0];
    state.x_offset = state.x_offset.wrapping_add(pad.stick.x.stop.scaled(DRIFT_PER_FRAME));
    state.y_offset = state.y_offset.wrapping_add(pad.stick.y.stop.scaled(DRIFT_PER_FRAME));
    render_weird_gradient(buffer, state.x_offset, state.y_offset);
}

} // verus!
