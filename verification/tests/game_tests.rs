use rustmade_hero::game::{render_weird_gradient, update_and_render, GameState, DRIFT_PER_FRAME};
use rustmade_hero::gfx::PixelBuffer;
use rustmade_hero::input::{AxisValue, GameInput};

fn input_with_stick(x: i16, y: i16) -> GameInput {
    let mut input = GameInput::default();
    input.controllers[0].stick.x.stop = AxisValue { raw: x };
    input.controllers[0].stick.y.stop = AxisValue { raw: y };
    input
}

fn expected_pixel(x: i64, y: i64, x_offset: i64, y_offset: i64) -> u32 {
    let blue = (x + x_offset).rem_euclid(256) as u32;
    let green = (y + y_offset).rem_euclid(256) as u32;
    (green << 8) | blue
}

#[test]
fn default_state_has_not_moved() {
    let state = GameState::default();
    assert_eq!(state, GameState { x_offset: 0, y_offset: 0 });
    assert_eq!(DRIFT_PER_FRAME, 10);
}

#[test]
fn gradient_without_offset() {
    let mut buffer = PixelBuffer::new(4, 3).unwrap();
    render_weird_gradient(&mut buffer, 0, 0);
    assert_eq!(buffer.pixel(0, 0), Some(0x0000));
    assert_eq!(buffer.pixel(1, 0), Some(0x0001));
    assert_eq!(buffer.pixel(3, 0), Some(0x0003));
    assert_eq!(buffer.pixel(0, 1), Some(0x0100));
    assert_eq!(buffer.pixel(2, 1), Some(0x0102));
    assert_eq!(buffer.pixel(3, 2), Some(0x0203));
}

#[test]
fn gradient_bytes_are_blue_green_zero_zero() {
    let mut buffer = PixelBuffer::new(2, 2).unwrap();
    render_weird_gradient(&mut buffer, 5, 9);
    assert_eq!(
        buffer.memory().as_slice(),
        &[5u8, 9, 0, 0, 6, 9, 0, 0, 5, 10, 0, 0, 6, 10, 0, 0][..]
    );
}

#[test]
fn gradient_with_offsets() {
    let mut buffer = PixelBuffer::new(3, 2).unwrap();
    render_weird_gradient(&mut buffer, 10, -10);
    assert_eq!(buffer.pixel(0, 0), Some(246 * 256 + 10));
    assert_eq!(buffer.pixel(2, 1), Some(247 * 256 + 12));
}

#[test]
fn gradient_starts_over_every_256_pixels() {
    let mut buffer = PixelBuffer::new(300, 260).unwrap();
    render_weird_gradient(&mut buffer, 0, 0);
    assert_eq!(buffer.pixel(255, 255), Some(0xffff));
    assert_eq!(buffer.pixel(256, 255), Some(0xff00));
    assert_eq!(buffer.pixel(255, 256), Some(0x00ff));
    assert_eq!(buffer.pixel(299, 259), Some(0x032b));
    let mut moved = PixelBuffer::new(300, 260).unwrap();
    render_weird_gradient(&mut moved, 256, -512);
    assert_eq!(moved.memory(), buffer.memory());
}

#[test]
fn gradient_covers_every_pixel() {
    let mut buffer = PixelBuffer::new(37, 19).unwrap();
    render_weird_gradient(&mut buffer, -300, 1000);
    for y in 0..19 {
        for x in 0..37 {
            assert_eq!(buffer.pixel(x, y), Some(expected_pixel(x as i64, y as i64, -300, 1000)));
        }
    }
}

#[test]
fn gradient_at_the_ends_of_the_offset_range() {
    let mut buffer = PixelBuffer::new(3, 3).unwrap();
    render_weird_gradient(&mut buffer, i32::MAX, i32::MIN);
    for y in 0..3 {
        for x in 0..3 {
            assert_eq!(
                buffer.pixel(x, y),
                Some(expected_pixel(x as i64, y as i64, i32::MAX as i64, i32::MIN as i64))
            );
        }
    }
    assert_eq!(buffer.pixel(0, 0), Some(0x00ff));
    assert_eq!(buffer.pixel(1, 1), Some(0x0100));
}

#[test]
fn gradient_overwrites_what_was_there() {
    let mut buffer = PixelBuffer::new(2, 2).unwrap();
    assert!(buffer.set_pixel(1, 1, 0xffff_ffff));
    render_weird_gradient(&mut buffer, 0, 0);
    assert_eq!(buffer.pixel(1, 1), Some(0x0101));
}

#[test]
fn gradient_on_an_empty_buffer_does_nothing() {
    let mut buffer = PixelBuffer::default();
    render_weird_gradient(&mut buffer, 3, 4);
    assert!(buffer.memory().is_empty());
    assert_eq!(buffer.width(), 0);
    assert_eq!(buffer.height(), 0);
}

#[test]
fn stick_at_rest_moves_nothing() {
    let mut state = GameState::default();
    let mut buffer = PixelBuffer::new(4, 4).unwrap();
    update_and_render(&mut state, &mut buffer, &GameInput::default());
    assert_eq!(state, GameState { x_offset: 0, y_offset: 0 });
    assert_eq!(buffer.pixel(3, 2), Some(0x0203));
}

#[test]
fn stick_at_the_ends_moves_ten_pixels() {
    let mut state = GameState::default();
    let mut buffer = PixelBuffer::new(4, 4).unwrap();
    update_and_render(&mut state, &mut buffer, &input_with_stick(32767, -32768));
    assert_eq!(state, GameState { x_offset: 10, y_offset: -10 });
    assert_eq!(buffer.pixel(0, 0), Some(62986));
    update_and_render(&mut state, &mut buffer, &input_with_stick(32767, -32768));
    assert_eq!(state, GameState { x_offset: 20, y_offset: -20 });
    assert_eq!(buffer.pixel(0, 0), Some(236 * 256 + 20));
}

#[test]
fn stick_half_way_moves_by_the_whole_part() {
    let mut state = GameState { x_offset: 100, y_offset: 100 };
    let mut buffer = PixelBuffer::new(2, 2).unwrap();
    update_and_render(&mut state, &mut buffer, &input_with_stick(16383, -16383));
    assert_eq!(state, GameState { x_offset: 104, y_offset: 96 });
    update_and_render(&mut state, &mut buffer, &input_with_stick(16384, -16384));
    assert_eq!(state, GameState { x_offset: 109, y_offset: 91 });
    update_and_render(&mut state, &mut buffer, &input_with_stick(3276, -3276));
    assert_eq!(state, GameState { x_offset: 109, y_offset: 91 });
}

#[test]
fn only_the_first_controller_moves_the_gradient() {
    let mut input = GameInput::default();
    for slot in 1..4 {
        input.controllers[slot].stick.x.stop = AxisValue { raw: 32767 };
        input.controllers[slot].stick.y.stop = AxisValue { raw: 32767 };
    }
    input.controllers[0].stick.x.start = AxisValue { raw: 32767 };
    input.controllers[0].stick.x.min = AxisValue { raw: 32767 };
    input.controllers[0].stick.x.max = AxisValue { raw: 32767 };
    let mut state = GameState::default();
    let mut buffer = PixelBuffer::new(2, 2).unwrap();
    update_and_render(&mut state, &mut buffer, &input);
    assert_eq!(state, GameState { x_offset: 0, y_offset: 0 });
}

#[test]
fn offsets_wrap_around() {
    let mut state = GameState { x_offset: i32::MAX - 3, y_offset: i32::MIN + 3 };
    let mut buffer = PixelBuffer::new(2, 2).unwrap();
    update_and_render(&mut state, &mut buffer, &input_with_stick(32767, -32768));
    assert_eq!(state, GameState { x_offset: i32::MIN + 6, y_offset: i32::MAX - 6 });
    assert_eq!(buffer.pixel(0, 0), Some(expected_pixel(0, 0, (i32::MIN + 6) as i64, (i32::MAX - 6) as i64)));
    assert_eq!(buffer.pixel(0, 0), Some(0xf906));
}

#[test]
fn rendering_keeps_the_extent() {
    let mut state = GameState::default();
    let mut buffer = PixelBuffer::new(6, 5).unwrap();
    update_and_render(&mut state, &mut buffer, &input_with_stick(1000, 1000));
    assert_eq!(buffer.width(), 6);
    assert_eq!(buffer.height(), 5);
    assert_eq!(buffer.pitch(), 24);
    assert_eq!(buffer.memory().len(), 120);
}

#[test]
fn gradient_leaves_the_tail_of_each_row() {
    let mut buffer = PixelBuffer::with_pitch(2, 2, 11).unwrap();
    render_weird_gradient(&mut buffer, 1, 2);
    assert_eq!(
        buffer.memory().as_slice(),
        &[1u8, 2, 0, 0, 2, 2, 0, 0, 0, 0, 0, 1, 3, 0, 0, 2, 3, 0, 0, 0, 0, 0][..]
    );
    assert_eq!(buffer.pixel(0, 1), Some(0x0301));
    assert_eq!(buffer.pixel(1, 1), Some(0x0302));
}
