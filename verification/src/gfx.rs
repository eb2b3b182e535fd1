//! The software framebuffer: rows of packed 32-bit pixels in one block of
//! bytes, each row `pitch` bytes after the one before. A pixel takes four
//! bytes, lowest first.

use vstd::prelude::*;

verus! {

/// The value of four bytes read as one little-endian 32-bit number.
pub open spec fn packed(b0: u8, b1: u8, b2: u8, b3: u8) -> int {
    b0 + 256 * b1 + 65536 * b2 + 16777216 * b3
}

/// Byte `k` (0 is the lowest) of a 32-bit number.
pub open spec fn byte_of(value: u32, k: int) -> u8 {
    if k == 0 {
        (value % 256) as u8
    } else if k == 1 {
        (value / 256 % 256) as u8
    } else if k == 2 {
        (value / 65536 % 256) as u8
    } else {
        (value / 16777216 % 256) as u8
    }
}

/// A framebuffer as a mathematical value.
pub struct PixelGrid {
    /// Pixels in a row.
    pub width: int,
    /// Number of rows.
    pub height: int,
    /// Bytes from the start of one row to the start of the next.
    pub pitch: int,
    /// The bytes, row after row.
    pub memory: Seq<u8>,
}

impl PixelGrid {
    /// The extent is not negative, a row has room for its pixels, and the
    /// memory is exactly `height` rows long.
    pub open spec fn wf(self) -> bool {
        &&& 0 <= self.width
        &&& 0 <= self.height
        &&& 4 * self.width <= self.pitch
        &&& self.memory.len() == self.pitch * self.height
    }

    /// Whether `(x, y)` lies in `[0, width) x [0, height)`.
    pub open spec fn contains(self, x: int, y: int) -> bool {
        0 <= x < self.width && 0 <= y < self.height
    }

    /// Where the four bytes of pixel `(x, y)` start.
    pub open spec fn offset(self, x: int, y: int) -> int {
        y * self.pitch + 4 * x
    }

    /// The packed value of pixel `(x, y)`.
    pub open spec fn pixel(self, x: int, y: int) -> int {
        let at = self.offset(x, y);
        packed(self.memory[at], self.memory[at + 1], self.memory[at + 2], self.memory[at + 3])
    }

    /// Whether byte `i` belongs to no pixel: it lies in the unused tail of a
    /// row.
    pub open spec fn is_padding(self, i: int) -> bool {
        forall|x: int, y: int|
            self.contains(x, y) ==> !(#[trigger] self.offset(x, y) <= i < self.offset(x, y) + 4)
    }

    /// The grid with pixel `(x, y)` set to `value`.
    pub open spec fn with_pixel(self, x: int, y: int, value: u32) -> PixelGrid {
        let at = self.offset(x, y);
        PixelGrid {
            memory: self.memory.update(at, byte_of(value, 0)).update(
                at + 1,
                byte_of(value, 1),
            ).update(at + 2, byte_of(value, 2)).update(at + 3, byte_of(value, 3)),
            ..self
        }
    }
}

/// Why a framebuffer of some extent cannot be had.
#[derive(Clone, Copy, Debug, PartialEq, Eq, Structural)]
pub enum SurfaceError {
    /// The width or the height is negative.
    NegativeExtent,
    /// The pitch leaves a row no room for its pixels.
    RowTooShort,
    /// A row, or the whole buffer, takes more bytes than a signed 32-bit
    /// number can count.
    TooLarge,
}

/// The framebuffer that the platform owns and lends to the renderer for the
/// time of one frame.
#[derive(Debug)]
pub struct PixelBuffer {
    memory: Vec<u8>,
    width: i32,
    height: i32,
    pitch: i32,
}

impl View for PixelBuffer {
    type V = PixelGrid;

    closed spec fn view(&self) -> PixelGrid {
        PixelGrid {
            width: self.width as int,
            height: self.height as int,
            pitch: self.pitch as int,
            memory: self.memory@,
        }
    }
}

/// The four bytes of a pixel inside the extent lie inside the memory.
pub proof fn lemma_cell_in_memory(grid: PixelGrid, x: int, y: int)
    requires
        grid.wf(),
        grid.contains(x, y),
    ensures
        0 <= y * grid.pitch,
        0 <= grid.offset(x, y),
        grid.offset(x, y) + 4 <= y * grid.pitch + grid.pitch,
        y * grid.pitch + grid.pitch <= grid.memory.len(),
{
    assert(0 <= y * grid.pitch && y * grid.pitch + grid.pitch <= grid.pitch * grid.height)
        by (nonlinear_arith)
        requires
            0 <= y < grid.height,
            0 <= grid.pitch,
    ;
}

/// Two different pixels inside the extent share no byte.
pub proof fn lemma_cells_apart(grid: PixelGrid, x: int, y: int, u: int, v: int)
    requires
        grid.wf(),
        grid.contains(x, y),
        grid.contains(u, v),
        x != u || y != v,
    ensures
        grid.offset(x, y) + 4 <= grid.offset(u, v) || grid.offset(u, v) + 4 <= grid.offset(x, y),
{
    if y < v {
        assert(y * grid.pitch + grid.pitch <= v * grid.pitch) by (nonlinear_arith)
            requires
                y < v,
                0 <= grid.pitch,
        ;
    } else if v < y {
        assert(v * grid.pitch + grid.pitch <= y * grid.pitch) by (nonlinear_arith)
            requires
                v < y,
                0 <= grid.pitch,
        ;
    }
}

/// The bytes of a number, packed again, give the number.
pub proof fn lemma_packed_bytes(value: u32)
    ensures
        packed(byte_of(value, 0), byte_of(value, 1), byte_of(value, 2), byte_of(value, 3))
            == value,
{
}

/// Setting a pixel inside the extent keeps the grid well formed, is read
/// back as written, and leaves every other pixel and every byte outside the
/// pixel as it was.
pub proof fn lemma_with_pixel(grid: PixelGrid, x: int, y: int, value: u32)
    requires
        grid.wf(),
        grid.contains(x, y),
    ensures
        grid.with_pixel(x, y, value).wf(),
        grid.with_pixel(x, y, value).pixel(x, y) == value,
        forall|u: int, v: int|
            grid.contains(u, v) && (u != x || v != y) ==> #[trigger] grid.with_pixel(
                x,
                y,
                value,
            ).pixel(u, v) == grid.pixel(u, v),
        forall|i: int|
            0 <= i < grid.memory.len() && !(grid.offset(x, y) <= i < grid.offset(x, y) + 4)
                ==> #[trigger] grid.with_pixel(x, y, value).memory[i] == grid.memory[i],
{
    let after = grid.with_pixel(x, y, value);
    lemma_cell_in_memory(grid, x, y);
    lemma_packed_bytes(value);
    assert forall|u: int, v: int| grid.contains(u, v) && (u != x || v != y) implies #[trigger] after.pixel(
        u,
        v,
    ) == grid.pixel(u, v) by {
        lemma_cell_in_memory(grid, u, v);
        lemma_cells_apart(grid, x, y, u, v);
    }
}

impl PixelBuffer {
    /// Every buffer is well formed, whatever was written to it.
    #[verifier::type_invariant]
    pub open spec fn well_formed(self) -> bool {
        self@.wf()
    }

    /// A zero-filled buffer of `width` by `height` pixels whose rows follow
    /// one another without a gap.
    pub fn new(width: i32, height: i32) -> (made: Result<PixelBuffer, SurfaceError>)
        ensures
            (width < 0 || height < 0) <==> made == Err::<PixelBuffer, SurfaceError>(
                SurfaceError::NegativeExtent,
            ),
            (0 <= width && 0 <= height && (4 * width > i32::MAX || 4 * width * height > i32::MAX))
                <==> made == Err::<PixelBuffer, SurfaceError>(SurfaceError::TooLarge),
            (0 <= width && 0 <= height && 4 * width <= i32::MAX && 4 * width * height <= i32::MAX)
                <==> made is Ok,
            made matches Ok(buffer) ==> {
                &&& buffer@.wf()
                &&& buffer@.width == width
                &&& buffer@.height == height
                &&& buffer@.pitch == 4 * width
                &&& buffer@.memory == Seq::new((4 * width * height) as nat, |i: int| 0u8)
            },
    {
        if width < 0 || height < 0 {
            return Err(SurfaceError::NegativeExtent);
        }
        let pitch: i64 = 4 * (width as i64);
        if pitch > i32::MAX as i64 {
            return Err(SurfaceError::TooLarge);
        }
        PixelBuffer::with_pitch(width, height, pitch as i32)
    }

    /// A zero-filled buffer of `width` by `height` pixels whose rows start
    /// `pitch` bytes apart.
    pub fn with_pitch(width: i32, height: i32, pitch: i32) -> (made: Result<
        PixelBuffer,
        SurfaceError,
    >)
        ensures
            (width < 0 || height < 0) <==> made == Err::<PixelBuffer, SurfaceError>(
                SurfaceError::NegativeExtent,
            ),
            (0 <= width && 0 <= height && pitch < 4 * width) <==> made == Err::<
                PixelBuffer,
                SurfaceError,
            >(SurfaceError::RowTooShort),
            (0 <= width && 0 <= height && 4 * width <= pitch && pitch * height > i32::MAX)
                <==> made == Err::<PixelBuffer, SurfaceError>(SurfaceError::TooLarge),
            (0 <= width && 0 <= height && 4 * width <= pitch && pitch * height <= i32::MAX)
                <==> made is Ok,
            made matches Ok(buffer) ==> {
                &&& buffer@.wf()
                &&& buffer@.width == width
                &&& buffer@.height == height
                &&& buffer@.pitch == pitch
                &&& buffer@.memory == Seq::new((pitch * height) as nat, |i: int| 0u8)
            },
    {
        if width < 0 || height < 0 {
            return Err(SurfaceError::NegativeExtent);
        }
        if (pitch as i64) < 4 * (width as i64) {
            return Err(SurfaceError::RowTooShort);
        }
        assert(0 <= pitch * height <= 0x7fff_ffff * 0x7fff_ffff) by (nonlinear_arith)
            requires
                0 <= pitch <= 0x7fff_ffff,
                0 <= height <= 0x7fff_ffff,
        ;
        let size: i64 = (pitch as i64) * (height as i64);
        if size > i32::MAX as i64 {
            return Err(SurfaceError::TooLarge);
        }
        let memory: Vec<u8> = vec![0u8; size as usize];
        assert(memory@ =~= Seq::new((pitch * height) as nat, |i: int| 0u8));
        Ok(PixelBuffer { memory, width, height, pitch })
    }

    /// Pixels in a row.
    pub fn width(&self) -> (width: i32)
        ensures
            width == self@.width,
    {
        self.width
    }

    /// Number of rows.
    pub fn height(&self) -> (height: i32)
        ensures
            height == self@.height,
    {
        self.height
    }

    /// Bytes from the start of one row to the start of the next.
    pub fn pitch(&self) -> (pitch: i32)
        ensures
            pitch == self@.pitch,
    {
        self.pitch
    }

    /// The bytes, row after row.
    pub fn memory(&self) -> (memory: &Vec<u8>)
        ensures
            memory@ == self@.memory,
    {
        &self.memory
    }

    /// Reads pixel `(x, y)`; there is none outside the extent.
    pub fn pixel(&self, x: i32, y: i32) -> (value: Option<u32>)
        ensures
            self@.contains(x as int, y as int) <==> value is Some,
            value matches Some(v) ==> v == self@.pixel(x as int, y as int),
    {
        proof {
            use_type_invariant(self);
        }
        if x < 0 || y < 0 || x >= self.width || y >= self.height {
            return None;
        }
        proof {
            lemma_cell_in_memory(self@, x as int, y as int);
            assert(y * self.pitch + self.pitch <= self.memory.len());
            assert(0 <= y * self.pitch);
        }
        let row: usize = (y as usize) * (self.pitch as usize);
        let at: usize = row + 4 * (x as usize);
        let b0 = self.memory[at] as u32;
        let b1 = self.memory[at + 1] as u32;
        let b2 = self.memory[at + 2] as u32;
        let b3 = self.memory[at + 3] as u32;
        Some(b0 + 256 * b1 + 65536 * b2 + 16777216 * b3)
    }

    /// Writes pixel `(x, y)`. A write outside the extent is refused and
    /// changes nothing.
    pub fn set_pixel(&mut self, x: i32, y: i32, value: u32) -> (written: bool)
        ensures
            written == old(self)@.contains(x as int, y as int),
            written ==> final(self)@ == old(self)@.with_pixel(x as int, y as int, value),
            !written ==> final(self)@ == old(self)@,
            final(self)@.wf(),
            written ==> final(self)@.pixel(x as int, y as int) == value,
            forall|u: int, v: int|
                old(self)@.contains(u, v) && (u != x || v != y) ==> #[trigger] final(self)@.pixel(
                    u,
                    v,
                ) == old(self)@.pixel(u, v),
            forall|i: int|
                0 <= i < old(self)@.memory.len() && !(old(self)@.offset(x as int, y as int) <= i
                    < old(self)@.offset(x as int, y as int) + 4)
                    ==> #[trigger] final(self)@.memory[i] == old(self)@.memory[i],
    {
        proof {
            use_type_invariant(&*self);
        }
        if x < 0 || y < 0 || x >= self.width || y >= self.height {
            return false;
        }
        proof {
            lemma_cell_in_memory(self@, x as int, y as int);
            lemma_with_pixel(self@, x as int, y as int, value);
            assert(y * self.pitch + self.pitch <= self.memory.len());
            assert(0 <= y * self.pitch);
        }
        let row: usize = (y as usize) * (self.pitch as usize);
        let at: usize = row + 4 * (x as usize);
        self.memory[at] = (value % 256) as u8;
        self.memory[at + 1] = (value / 256 % 256) as u8;
        self.memory[at + 2] = (value / 65536 % 256) as u8;
        self.memory[at + 3] = (value / 16777216 % 256) as u8;
        assert(self@.memory =~= old(self)@.with_pixel(x as int, y as int, value).memory);
        true
    }
}

impl Default for PixelBuffer {
    /// The empty buffer: no memory and no extent.
    fn default() -> (buffer: PixelBuffer)
        ensures
            buffer@.wf(),
            buffer@.width == 0,
            buffer@.height == 0,
            buffer@.pitch == 0,
            buffer@.memory == Seq::<u8>::empty(),
    {
        PixelBuffer { memory: Vec::new(), width: 0, height: 0, pitch: 0 }
    }
}

} // verus!
