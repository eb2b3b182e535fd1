use rustmade_hero::gfx::{PixelBuffer, SurfaceError};

#[test]
fn default_buffer_is_empty() {
    let buffer = PixelBuffer::default();
    assert_eq!(buffer.width(), 0);
    assert_eq!(buffer.height(), 0);
    assert_eq!(buffer.pitch(), 0);
    assert!(buffer.memory().is_empty());
    assert_eq!(buffer.pixel(0, 0), None);
}

#[test]
fn new_buffer_is_zero_filled_with_tight_rows() {
    let buffer = PixelBuffer::new(5, 3).unwrap();
    assert_eq!(buffer.width(), 5);
    assert_eq!(buffer.height(), 3);
    assert_eq!(buffer.pitch(), 20);
    assert_eq!(buffer.memory().len(), 60);
    assert!(buffer.memory().iter().all(|byte| *byte == 0));
}

#[test]
fn new_buffer_of_the_window_extent() {
    let buffer = PixelBuffer::new(1280, 720).unwrap();
    assert_eq!(buffer.pitch(), 5120);
    assert_eq!(buffer.memory().len(), 3686400);
}

#[test]
fn new_buffer_may_have_no_pixels() {
    let flat = PixelBuffer::new(7, 0).unwrap();
    assert_eq!(flat.pitch(), 28);
    assert!(flat.memory().is_empty());
    assert_eq!(flat.pixel(0, 0), None);
    let thin = PixelBuffer::new(0, 7).unwrap();
    assert_eq!(thin.pitch(), 0);
    assert!(thin.memory().is_empty());
    assert_eq!(thin.pixel(0, 0), None);
}

#[test]
fn negative_extent_is_refused() {
    assert_eq!(PixelBuffer::new(-1, 10).unwrap_err(), SurfaceError::NegativeExtent);
    assert_eq!(PixelBuffer::new(10, -1).unwrap_err(), SurfaceError::NegativeExtent);
    assert_eq!(PixelBuffer::new(-1, -1).unwrap_err(), SurfaceError::NegativeExtent);
    assert_eq!(PixelBuffer::new(i32::MIN, i32::MAX).unwrap_err(), SurfaceError::NegativeExtent);
}

#[test]
fn too_large_extent_is_refused() {
    assert_eq!(PixelBuffer::new(i32::MAX, 1).unwrap_err(), SurfaceError::TooLarge);
    assert_eq!(PixelBuffer::new(536870912, 0).unwrap_err(), SurfaceError::TooLarge);
    assert_eq!(PixelBuffer::new(1, 536870912).unwrap_err(), SurfaceError::TooLarge);
    assert_eq!(PixelBuffer::new(65536, 8192).unwrap_err(), SurfaceError::TooLarge);
    assert_eq!(PixelBuffer::new(i32::MAX, i32::MAX).unwrap_err(), SurfaceError::TooLarge);
}

#[test]
fn widest_row_without_rows_is_accepted() {
    let buffer = PixelBuffer::new(536870911, 0).unwrap();
    assert_eq!(buffer.pitch(), 2147483644);
    assert!(buffer.memory().is_empty());
}

#[test]
fn pixel_is_read_back_as_written() {
    let mut buffer = PixelBuffer::new(4, 3).unwrap();
    assert!(buffer.set_pixel(2, 1, 0xA1B2C3D4));
    assert_eq!(buffer.pixel(2, 1), Some(0xA1B2C3D4));
    assert!(buffer.set_pixel(2, 1, 7));
    assert_eq!(buffer.pixel(2, 1), Some(7));
    assert!(buffer.set_pixel(0, 0, u32::MAX));
    assert_eq!(buffer.pixel(0, 0), Some(u32::MAX));
}

#[test]
fn pixel_is_stored_low_byte_first_at_its_row_and_column() {
    let mut buffer = PixelBuffer::new(4, 3).unwrap();
    assert!(buffer.set_pixel(2, 1, 0xA1B2C3D4));
    let at = 1 * 16 + 2 * 4;
    for (index, byte) in buffer.memory().iter().enumerate() {
        let expected = if index == at {
            0xD4
        } else if index == at + 1 {
            0xC3
        } else if index == at + 2 {
            0xB2
        } else if index == at + 3 {
            0xA1
        } else {
            0
        };
        assert_eq!(*byte, expected);
    }
}

#[test]
fn writing_one_pixel_leaves_the_others() {
    let mut buffer = PixelBuffer::new(3, 2).unwrap();
    for y in 0..2 {
        for x in 0..3 {
            assert!(buffer.set_pixel(x, y, (100 * y + x) as u32));
        }
    }
    assert!(buffer.set_pixel(1, 1, 0xffff_ffff));
    for y in 0..2 {
        for x in 0..3 {
            let expected = if x == 1 && y == 1 { 0xffff_ffff } else { (100 * y + x) as u32 };
            assert_eq!(buffer.pixel(x, y), Some(expected));
        }
    }
}

#[test]
fn write_outside_the_extent_is_refused() {
    let mut buffer = PixelBuffer::new(4, 3).unwrap();
    assert!(!buffer.set_pixel(4, 0, 1));
    assert!(!buffer.set_pixel(0, 3, 1));
    assert!(!buffer.set_pixel(-1, 0, 1));
    assert!(!buffer.set_pixel(0, -1, 1));
    assert!(!buffer.set_pixel(i32::MAX, i32::MAX, 1));
    assert!(!buffer.set_pixel(i32::MIN, i32::MIN, 1));
    assert!(buffer.memory().iter().all(|byte| *byte == 0));
    assert_eq!(buffer.memory().len(), 48);
}

#[test]
fn read_outside_the_extent_gives_nothing() {
    let buffer = PixelBuffer::new(4, 3).unwrap();
    assert_eq!(buffer.pixel(4, 0), None);
    assert_eq!(buffer.pixel(0, 3), None);
    assert_eq!(buffer.pixel(-1, 0), None);
    assert_eq!(buffer.pixel(0, -1), None);
    assert_eq!(buffer.pixel(3, 2), Some(0));
}

#[test]
fn corners_are_inside_the_extent() {
    let mut buffer = PixelBuffer::new(4, 3).unwrap();
    assert!(buffer.set_pixel(0, 0, 1));
    assert!(buffer.set_pixel(3, 0, 2));
    assert!(buffer.set_pixel(0, 2, 3));
    assert!(buffer.set_pixel(3, 2, 4));
    assert_eq!(buffer.memory()[0], 1);
    assert_eq!(buffer.memory()[12], 2);
    assert_eq!(buffer.memory()[32], 3);
    assert_eq!(buffer.memory()[44], 4);
}

#[test]
fn buffer_with_pitch_has_rows_that_far_apart() {
    let mut buffer = PixelBuffer::with_pitch(2, 3, 12).unwrap();
    assert_eq!(buffer.width(), 2);
    assert_eq!(buffer.height(), 3);
    assert_eq!(buffer.pitch(), 12);
    assert_eq!(buffer.memory().len(), 36);
    assert!(buffer.memory().iter().all(|byte| *byte == 0));
    assert!(buffer.set_pixel(1, 2, 0x0403_0201));
    assert_eq!(buffer.memory()[28..32], [1u8, 2, 3, 4]);
    assert_eq!(buffer.pixel(1, 2), Some(0x0403_0201));
    assert!(!buffer.set_pixel(2, 0, 1));
    assert_eq!(buffer.pixel(2, 0), None);
}

#[test]
fn buffer_with_tight_pitch_is_the_plain_buffer() {
    let tight = PixelBuffer::with_pitch(5, 3, 20).unwrap();
    let plain = PixelBuffer::new(5, 3).unwrap();
    assert_eq!(tight.pitch(), plain.pitch());
    assert_eq!(tight.memory(), plain.memory());
}

#[test]
fn pitch_below_the_row_is_refused() {
    assert_eq!(PixelBuffer::with_pitch(2, 3, 7).unwrap_err(), SurfaceError::RowTooShort);
    assert_eq!(PixelBuffer::with_pitch(2, 0, 0).unwrap_err(), SurfaceError::RowTooShort);
    assert_eq!(PixelBuffer::with_pitch(1, 1, -4).unwrap_err(), SurfaceError::RowTooShort);
    assert_eq!(PixelBuffer::with_pitch(0, 1, -1).unwrap_err(), SurfaceError::RowTooShort);
    assert_eq!(PixelBuffer::with_pitch(i32::MAX, 1, i32::MAX).unwrap_err(), SurfaceError::RowTooShort);
    assert!(PixelBuffer::with_pitch(2, 3, 8).is_ok());
}

#[test]
fn pitch_is_checked_after_the_extent_and_before_the_size() {
    assert_eq!(PixelBuffer::with_pitch(-1, 3, -8).unwrap_err(), SurfaceError::NegativeExtent);
    assert_eq!(PixelBuffer::with_pitch(2, -3, 8).unwrap_err(), SurfaceError::NegativeExtent);
    assert_eq!(PixelBuffer::with_pitch(2, i32::MAX, 8).unwrap_err(), SurfaceError::TooLarge);
    assert_eq!(PixelBuffer::with_pitch(0, 2, i32::MAX).unwrap_err(), SurfaceError::TooLarge);
    assert!(PixelBuffer::with_pitch(0, 0, i32::MAX).is_ok());
}
