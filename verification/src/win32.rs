//! What the Windows platform layer decides without a system call: what a
//! window message asks for, and how the back buffer is described to the
//! system.

use vstd::prelude::*;
use crate::gfx::{PixelBuffer, PixelGrid, SurfaceError};

verus! {

/// The window is being destroyed.
pub const WM_DESTROY: u32 = 0x0002;

/// The window has changed its size.
pub const WM_SIZE: u32 = 0x0005;

/// The user asked to close the window.
pub const WM_CLOSE: u32 = 0x0010;

/// The application was asked to quit.
pub const WM_QUIT: u32 = 0x0012;

/// The application gained or lost the foreground.
pub const WM_ACTIVATEAPP: u32 = 0x001C;

/// A key went down.
pub const WM_KEYDOWN: u32 = 0x0100;

/// A key went up.
pub const WM_KEYUP: u32 = 0x0101;

/// A key went down while Alt was held.
pub const WM_SYSKEYDOWN: u32 = 0x0104;

/// A key went up while Alt was held.
pub const WM_SYSKEYUP: u32 = 0x0105;

/// Virtual-key code of Escape.
pub const VK_ESCAPE: u64 = 0x1B;

/// Virtual-key code of the space bar.
pub const VK_SPACE: u64 = 0x20;

/// Virtual-key code of the left arrow.
pub const VK_LEFT: u64 = 0x25;

/// Virtual-key code of the up arrow.
pub const VK_UP: u64 = 0x26;

/// Virtual-key code of the right arrow.
pub const VK_RIGHT: u64 = 0x27;

/// Virtual-key code of the down arrow.
pub const VK_DOWN: u64 = 0x28;

/// Bit of a key message's second parameter that is set if the key was down
/// before the message.
pub const KEY_WAS_DOWN: i64 = 0x4000_0000;

/// Bit of a key message's second parameter that is set if the key is being
/// released.
pub const KEY_IS_UP: i64 = 0x8000_0000;

/// Compression tag of an uncompressed bitmap.
pub const BI_RGB: u32 = 0;

/// Bytes that a bitmap header takes.
pub const BITMAP_INFO_HEADER_SIZE: u32 = 40;

/// A key that the window procedure knows by name.
#[derive(Clone, Copy, Debug, PartialEq, Eq, Structural)]
pub enum Key {
    W,
    A,
    S,
    D,
    Q,
    E,
    Up,
    Left,
    Down,
    Right,
    Escape,
    Space,
}

/// What the window procedure answers to one message.
#[derive(Clone, Copy, Debug, PartialEq, Eq, Structural)]
pub struct Reply {
    /// The message is dealt with and the procedure's result is zero; if not,
    /// the message goes on to the system's default procedure.
    pub handled: bool,
    /// A request to quit is to be posted.
    pub quit: bool,
    /// The named key that the message saw go down or up.
    pub key: Option<Key>,
}

/// Whether `msg` tells of a key going down or up.
pub open spec fn is_key_message(msg: u32) -> bool {
    msg == WM_SYSKEYDOWN || msg == WM_SYSKEYUP || msg == WM_KEYDOWN || msg == WM_KEYUP
}

/// Whether a key message tells of a change: the key is now in another state
/// than before the message. A key that is held and repeats is no change.
pub open spec fn is_key_edge(lparam: i64) -> bool {
    let was_down = lparam & KEY_WAS_DOWN != 0;
    let is_down = lparam & KEY_IS_UP == 0;
    was_down != is_down
}

/// The named key of a key message. The letters go by the low byte of
/// `wparam`, the other keys by all of it.
pub open spec fn key_of(wparam: u64) -> Option<Key> {
    let low = wparam % 256;
    if low == 0x57 {
        Some(Key::W)
    } else if low == 0x41 {
        Some(Key::A)
    } else if low == 0x53 {
        Some(Key::S)
    } else if low == 0x44 {
        Some(Key::D)
    } else if low == 0x51 {
        Some(Key::Q)
    } else if low == 0x45 {
        Some(Key::E)
    } else if wparam == VK_UP {
        Some(Key::Up)
    } else if wparam == VK_LEFT {
        Some(Key::Left)
    } else if wparam == VK_DOWN {
        Some(Key::Down)
    } else if wparam == VK_RIGHT {
        Some(Key::Right)
    } else if wparam == VK_ESCAPE {
        Some(Key::Escape)
    } else if wparam == VK_SPACE {
        Some(Key::Space)
    } else {
        None
    }
}

/// The answer to a message.
///
/// Closing or destroying the window asks to quit, and so does Escape going
/// down or up. Activation, resizing and all key messages are dealt with here;
/// every other message is left to the system.
pub open spec fn reply_to(msg: u32, wparam: u64, lparam: i64) -> Reply {
    if msg == WM_ACTIVATEAPP || msg == WM_SIZE {
        Reply { handled: true, quit: false, key: None }
    } else if msg == WM_CLOSE || msg == WM_DESTROY {
        Reply { handled: true, quit: true, key: None }
    } else if is_key_message(msg) {
        if is_key_edge(lparam) {
            Reply { handled: true, quit: wparam == VK_ESCAPE, key: key_of(wparam) }
        } else {
            Reply { handled: true, quit: false, key: None }
        }
    } else {
        Reply { handled: false, quit: false, key: None }
    }
}

/// Names the key of a key message.
pub fn decode_key(wparam: u64) -> (key: Option<Key>)
    ensures
        key == key_of(wparam),
        key == Some(Key::Escape) <==> wparam == VK_ESCAPE,
{
    let vkcode: u64 = wparam % 256;
    if vkcode == 0x57 {
        Some(Key::W)
    } else if vkcode == 0x41 {
        Some(Key::A)
    } else if vkcode == 0x53 {
        Some(Key::S)
    } else if vkcode == 0x44 {
        Some(Key::D)
    } else if vkcode == 0x51 {
        Some(Key::Q)
    } else if vkcode == 0x45 {
        Some(Key::E)
    } else if wparam == VK_UP {
        Some(Key::Up)
    } else if wparam == VK_LEFT {
        Some(Key::Left)
    } else if wparam == VK_DOWN {
        Some(Key::Down)
    } else if wparam == VK_RIGHT {
        Some(Key::Right)
    } else if wparam == VK_ESCAPE {
        Some(Key::Escape)
    } else if wparam == VK_SPACE {
        Some(Key::Space)
    } else {
        None
    }
}

/// Decides what a window message asks for.
pub fn callback(msg: u32, wparam: u64, lparam: i64) -> (reply: Reply)
    ensures
        reply == reply_to(msg, wparam, lparam),
        reply.handled <==> (msg == WM_ACTIVATEAPP || msg == WM_SIZE || msg == WM_CLOSE || msg
            == WM_DESTROY || is_key_message(msg)),
        reply.quit <==> (msg == WM_CLOSE || msg == WM_DESTROY || (is_key_message(msg)
            && is_key_edge(lparam) && wparam == VK_ESCAPE)),
        reply.key is Some ==> is_key_message(msg) && is_key_edge(lparam),
{
    if msg == WM_ACTIVATEAPP || msg == WM_SIZE {
        Reply { handled: true, quit: false, key: None }
    } else if msg == WM_CLOSE || msg == WM_DESTROY {
        Reply { handled: true, quit: true, key: None }
    } else if msg == WM_SYSKEYDOWN || msg == WM_SYSKEYUP || msg == WM_KEYDOWN || msg == WM_KEYUP {
        let was_down = (lparam & KEY_WAS_DOWN) != 0;
        let is_down = (lparam & KEY_IS_UP) == 0;
        if was_down != is_down {
            Reply { handled: true, quit: wparam == VK_ESCAPE, key: decode_key(wparam) }
        } else {
            Reply { handled: true, quit: false, key: None }
        }
    } else {
        Reply { handled: false, quit: false, key: None }
    }
}

/// Whether a message taken from the queue is the request to quit.
pub fn is_quit_message(msg: u32) -> (quit: bool)
    ensures
        quit == (msg == WM_QUIT),
{
    msg == WM_QUIT
}

/// How a bitmap is laid out, as the system wants it told.
#[derive(Clone, Copy, Debug, PartialEq, Eq, Structural)]
pub struct BitmapInfoHeader {
    pub size: u32,
    pub width: i32,
    pub height: i32,
    pub planes: u16,
    pub bit_count: u16,
    pub compression: u32,
    pub size_image: u32,
    pub x_pels_per_meter: i32,
    pub y_pels_per_meter: i32,
    pub clr_used: u32,
    pub clr_important: u32,
}

impl BitmapInfoHeader {
    /// The header of no bitmap: one plane, all else zero.
    pub open spec fn blank() -> BitmapInfoHeader {
        BitmapInfoHeader {
            size: 0,
            width: 0,
            height: 0,
            planes: 1,
            bit_count: 0,
            compression: 0,
            size_image: 0,
            x_pels_per_meter: 0,
            y_pels_per_meter: 0,
            clr_used: 0,
            clr_important: 0,
        }
    }

    /// The header of an uncompressed bitmap of `width` by `height` pixels of
    /// 32 bits.
    pub open spec fn of_extent(width: i32, height: i32) -> BitmapInfoHeader {
        BitmapInfoHeader {
            size: BITMAP_INFO_HEADER_SIZE,
            width,
            height,
            bit_count: 32,
            compression: BI_RGB,
            ..BitmapInfoHeader::blank()
        }
    }

    /// Whether the header tells the layout of `grid`: its extent, in rows
    /// of 32-bit pixels without a gap.
    pub open spec fn describes(self, grid: PixelGrid) -> bool {
        &&& self.size == BITMAP_INFO_HEADER_SIZE
        &&& self.width == grid.width
        &&& self.height == grid.height
        &&& self.planes == 1
        &&& self.bit_count == 32
        &&& self.compression == BI_RGB
        &&& grid.pitch == 4 * grid.width
    }
}

impl Default for BitmapInfoHeader {
    fn default() -> (header: BitmapInfoHeader)
        ensures
            header == BitmapInfoHeader::blank(),
    {
        BitmapInfoHeader {
            size: 0,
            width: 0,
            height: 0,
            planes: 1,
            bit_count: 0,
            compression: 0,
            size_image: 0,
            x_pels_per_meter: 0,
            y_pels_per_meter: 0,
            clr_used: 0,
            clr_important: 0,
        }
    }
}

/// The back buffer: the pixels that the renderer draws, and the header that
/// describes them when they are shown.
#[derive(Debug)]
pub struct OffscreenBuffer {
    pub info: BitmapInfoHeader,
    pub buffer: PixelBuffer,
}

impl Default for OffscreenBuffer {
    /// No buffer yet: a blank header and no pixels.
    fn default() -> (offscreen: OffscreenBuffer)
        ensures
            offscreen.info == BitmapInfoHeader::blank(),
            offscreen.buffer@.wf(),
            offscreen.buffer@.width == 0,
            offscreen.buffer@.height == 0,
            offscreen.buffer@.pitch == 0,
            offscreen.buffer@.memory == Seq::<u8>::empty(),
    {
        OffscreenBuffer { info: BitmapInfoHeader::default(), buffer: PixelBuffer::default() }
    }
}

impl OffscreenBuffer {
    /// A zero-filled back buffer of `width` by `height` pixels with the
    /// header that describes it. It fails as [`PixelBuffer::new`] does.
    pub fn new(width: i32, height: i32) -> (made: Result<OffscreenBuffer, SurfaceError>)
        ensures
            (width < 0 || height < 0) <==> made == Err::<OffscreenBuffer, SurfaceError>(
                SurfaceError::NegativeExtent,
            ),
            (0 <= width && 0 <= height && (4 * width > i32::MAX || 4 * width * height > i32::MAX))
                <==> made == Err::<OffscreenBuffer, SurfaceError>(SurfaceError::TooLarge),
            (0 <= width && 0 <= height && 4 * width <= i32::MAX && 4 * width * height <= i32::MAX)
                <==> made is Ok,
            made matches Ok(offscreen) ==> {
                &&& offscreen.info == BitmapInfoHeader::of_extent(width, height)
                &&& offscreen.info.describes(offscreen.buffer@)
                &&& offscreen.buffer@.wf()
                &&& offscreen.buffer@.width == width
                &&& offscreen.buffer@.height == height
                &&& offscreen.buffer@.pitch == 4 * width
                &&& offscreen.buffer@.memory == Seq::new(
                    (4 * width * height) as nat,
                    |i: int| 0u8,
                )
            },
    {
        match PixelBuffer::new(width, height) {
            Err(error) => Err(error),
            Ok(buffer) => {
                let mut osb = OffscreenBuffer::default();
                osb.buffer = buffer;
                osb.info.size = BITMAP_INFO_HEADER_SIZE;
                osb.info.width = width;
                osb.info.height = height;
                osb.info.bit_count = 32;
                osb.info.compression = BI_RGB;
                Ok(osb)
            },
        }
    }
}

} // verus!
