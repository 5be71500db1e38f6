use vstd::prelude::*;

verus! {

/// Width of the pixel buffer in pixels.
pub const DISPLAY_WIDTH: usize = 64;
/// Height of the pixel buffer in pixels.
pub const DISPLAY_HEIGHT: usize = 32;

/// Pixel `i` (0 = leftmost) of a sprite row byte, most significant bit first.
pub open spec fn sprite_bit(byte: u8, i: int) -> bool {
    (byte / sprite_weight(i)) % 2 == 1
}

/// The place value of pixel `i` inside a sprite row byte.
pub open spec fn sprite_weight(i: int) -> u8 {
    if i == 0 {
        128
    } else if i == 1 {
        64
    } else if i == 2 {
        32
    } else if i == 3 {
        16
    } else if i == 4 {
        8
    } else if i == 5 {
        4
    } else if i == 6 {
        2
    } else {
        1
    }
}

/// The buffer after drawing the row byte at (x, y): each of the byte's eight
/// pixels that lands on a column of row y toggles the pixel it covers when it
/// is lit; columns past the right edge are clipped.
pub open spec fn row_drawn(d: Seq<bool>, byte: u8, x: int, y: int) -> Seq<bool> {
    Seq::new(
        d.len(),
        |k: int|
            if y * 64 <= k < y * 64 + 64 && x <= k - y * 64 < x + 8 {
                d[k] != sprite_bit(byte, k - y * 64 - x)
            } else {
                d[k]
            },
    )
}

/// A 64x32 monochrome pixel buffer with XOR drawing semantics. Its view is
/// the pixels in row-major order: pixel (x, y) is element `y * 64 + x`.
pub struct Display {
    buffer: Vec<bool>,
}

impl View for Display {
    type V = Seq<bool>;

    closed spec fn view(&self) -> Seq<bool> {
        self.buffer@
    }
}

impl Display {
    /// The buffer always holds exactly 64 * 32 pixels.
    pub open spec fn wf(&self) -> bool {
        self@.len() == 2048
    }

    /// An all-dark buffer.
    pub fn new() -> (d: Display)
        ensures
            d.wf(),
            forall|k: int| 0 <= k < 2048 ==> d@[k] == false,
    {
        let mut buffer: Vec<bool> = Vec::new();
        let mut k: usize = 0;
        while k < 2048
            invariant
                k <= 2048,
                buffer@.len() == k,
                forall|j: int| 0 <= j < k ==> buffer@[j] == false,
            decreases 2048 - k,
        {
            buffer.push(false);
            k = k + 1;
        }
        Display { buffer }
    }

    /// Darken every pixel.
    pub fn clear(&mut self)
        requires
            old(self).wf(),
        ensures
            final(self).wf(),
            forall|k: int| 0 <= k < 2048 ==> final(self)@[k] == false,
    {
        let mut k: usize = 0;
        while k < 2048
            invariant
                k <= 2048,
                self@.len() == 2048,
                forall|j: int| 0 <= j < k ==> self@[j] == false,
            decreases 2048 - k,
        {
            self.buffer.set(k, false);
            k = k + 1;
        }
    }

    /// Draw one pixel by XOR: a lit pixel drawn onto a lit pixel darkens it,
    /// and only that case reports a collision. Drawing a dark pixel changes
    /// nothing.
    pub fn set(&mut self, x: u8, y: u8, pixel: bool) -> (collision: bool)
        requires
            old(self).wf(),
            x < 64,
            y < 32,
        ensures
            final(self).wf(),
            collision == (old(self)@[y as int * 64 + x as int] && pixel),
            final(self)@ == old(self)@.update(
                y as int * 64 + x as int,
                old(self)@[y as int * 64 + x as int] != pixel,
            ),
    {
        let idx: usize = y as usize * 64 + x as usize;
        let curr = self.buffer[idx];
        if curr && pixel {
            self.buffer.set(idx, false);
            return curr;
        } else if !curr && pixel {
            self.buffer.set(idx, true);
        } else {
            proof {
                assert(self@ =~= old(self)@.update(idx as int, curr != pixel));
            }
        }
        false
    }

    /// Whether the pixel at (x, y) is lit.
    pub fn get(&self, x: u8, y: u8) -> (lit: bool)
        requires
            self.wf(),
            x < 64,
            y < 32,
        ensures
            lit == self@[y as int * 64 + x as int],
    {
        self.buffer[y as usize * 64 + x as usize]
    }

    /// Draw one 8-pixel sprite row at (x, y), clipping at the right edge.
    pub fn display_row(&mut self, byte: u8, x: u8, y: u8) -> (res: Result<(), &'static str>)
        requires
            old(self).wf(),
            y < 32,
        ensures
            final(self).wf(),
            res is Ok,
            final(self)@ == row_drawn(old(self)@, byte, x as int, y as int),
    {
        let pixels = extract_pixels(byte);
        let ghost d0 = self@;
        let mut i: u8 = 0;
        while i < 8 && x as u16 + (i as u16) <= 63
            invariant
                d0.len() == 2048,
                self.wf(),
                i <= 8,
                pixels@.len() == 8,
                forall|j: int| 0 <= j < 8 ==> pixels@[j] == sprite_bit(byte, j),
                x < 256,
                y < 32,
                self@ == partial_row(d0, byte, x as int, y as int, i as int),
            decreases 8 - i,
        {
            let col: u16 = x as u16 + i as u16;
            self.set(col as u8, y, pixels[i as usize]);
            proof {
                assert(self@ =~= partial_row(d0, byte, x as int, y as int, i as int + 1));
            }
            i = i + 1;
        }
        proof {
            assert(self@ =~= partial_row(d0, byte, x as int, y as int, 8));
            assert(partial_row(d0, byte, x as int, y as int, 8)
                =~= row_drawn(d0, byte, x as int, y as int));
        }
        Ok(())
    }
}

/// The buffer after drawing only the first `cnt` pixels of a sprite row.
pub open spec fn partial_row(d: Seq<bool>, byte: u8, x: int, y: int, cnt: int) -> Seq<bool> {
    Seq::new(
        d.len(),
        |k: int|
            if y * 64 <= k < y * 64 + 64 && x <= k - y * 64 < x + cnt {
                d[k] != sprite_bit(byte, k - y * 64 - x)
            } else {
                d[k]
            },
    )
}

/// Unpack a sprite row byte into its eight pixels, leftmost (most
/// significant) first.
pub fn extract_pixels(byte: u8) -> (pixels: Vec<bool>)
    ensures
        pixels@.len() == 8,
        forall|i: int| 0 <= i < 8 ==> pixels@[i] == sprite_bit(byte, i),
{
    let mut pixels: Vec<bool> = Vec::new();
    pixels.push(byte / 128 % 2 == 1);
    pixels.push(byte / 64 % 2 == 1);
    pixels.push(byte / 32 % 2 == 1);
    pixels.push(byte / 16 % 2 == 1);
    pixels.push(byte / 8 % 2 == 1);
    pixels.push(byte / 4 % 2 == 1);
    pixels.push(byte / 2 % 2 == 1);
    pixels.push(byte % 2 == 1);
    proof {
        assert forall|i: int| 0 <= i < 8 implies pixels@[i] == sprite_bit(byte, i) by {
            assert(byte / 1 == byte);
        }
    }
    pixels
}

} // verus!
