//! Contains the raw screen bytes, and their rendering as text.

use crate::cpu::state::{pixel_mask, toggle_pixel};
use crate::text::{hex_text, push_char, push_hex};
use crate::traits::Grab;
use std::ops::Range;
use vstd::prelude::*;
use vstd::slice::slice_subrange;

verus! {

/// Stores the screen bytes: one bit per pixel, eight pixels per byte, the most significant
/// bit leftmost.
#[derive(Clone, Debug, PartialEq, Eq, PartialOrd, Ord, Hash)]
pub struct Screen {
    /// The screen bytes
    bytes: Vec<u8>,
}

/// The floor of the base-2 logarithm of `n` (0 for `n < 2`).
pub open spec fn log2(n: nat) -> nat
    decreases n,
{
    if n < 2 {
        0
    } else {
        1 + log2(n / 2)
    }
}

/// `2` to the power `e`.
pub open spec fn pow2(e: nat) -> nat
    decreases e,
{
    if e == 0 {
        1
    } else {
        2 * pow2((e - 1) as nat)
    }
}

/// The number of bytes per row when a screen of `len` bytes is printed: the layout keeps the
/// screen twice as wide as it is tall.
pub open spec fn row_width(len: nat) -> nat {
    pow2((log2(len) / 2 - 1) as nat)
}

/// The low `width` bits of `n` as pixels, most significant first: `█` for a set bit and a
/// space for a clear one.
pub open spec fn pixel_text(n: nat, width: nat) -> Seq<char>
    decreases width,
{
    if width == 0 {
        Seq::empty()
    } else {
        pixel_text(n / 2, (width - 1) as nat).push(if n % 2 == 1 { '█' } else { ' ' })
    }
}

/// The text of byte `index` of a screen printed `width` bytes to a row: a row starts with
/// its offset in hexadecimal and a bar, and ends with a bar and a line break.
pub open spec fn cell_text(bytes: Seq<u8>, width: nat, index: nat) -> Seq<char> {
    let head = if index % width == 0 {
        hex_text(index, 3, false) + seq!['|']
    } else {
        Seq::empty()
    };
    let tail = if index % width == (width - 1) as nat {
        seq!['|', '\n']
    } else {
        Seq::empty()
    };
    head + pixel_text(bytes[index as int] as nat, 8) + tail
}

/// The text of the first `count` bytes of a screen printed `width` bytes to a row.
pub open spec fn rows_text(bytes: Seq<u8>, width: nat, count: nat) -> Seq<char>
    decreases count,
{
    if count == 0 {
        Seq::empty()
    } else {
        rows_text(bytes, width, (count - 1) as nat) + cell_text(bytes, width, (count - 1) as nat)
    }
}

impl Screen {
    /// The screen bytes.
    pub closed spec fn bytes(&self) -> Seq<u8> {
        self.bytes@
    }

    /// Creates a new [Screen] of `size` bytes, all clear
    pub fn new(size: usize) -> (r: Self)
        ensures
            r.bytes() == Seq::new(size as nat, |i: int| 0u8),
    {
        let mut bytes: Vec<u8> = Vec::new();
        let mut k: usize = 0;
        while k < size
            invariant
                k <= size,
                bytes@ == Seq::new(k as nat, |i: int| 0u8),
            decreases size - k,
        {
            bytes.push(0);
            k = k + 1;
            assert(bytes@ =~= Seq::new(k as nat, |i: int| 0u8));
        }
        Screen { bytes }
    }

    /// Creates a [Screen] holding a copy of `bytes`
    pub fn from_bytes(bytes: &[u8]) -> (r: Self)
        ensures
            r.bytes() == bytes@,
    {
        let mut v: Vec<u8> = Vec::new();
        let mut k: usize = 0;
        while k < bytes.len()
            invariant
                k <= bytes@.len(),
                v@ == bytes@.take(k as int),
            decreases bytes@.len() - k,
        {
            v.push(bytes[k]);
            k = k + 1;
            assert(v@ =~= bytes@.take(k as int));
        }
        assert(bytes@.take(k as int) =~= bytes@);
        Screen { bytes: v }
    }

    /// Returns true if the screen has 0 elements
    pub fn is_empty(&self) -> (r: bool)
        ensures
            r == (self.bytes().len() == 0),
    {
        self.bytes.len() == 0
    }

    /// Gets the length of the [Screen]
    pub fn len(&self) -> (r: usize)
        ensures
            r == self.bytes().len(),
    {
        self.bytes.len()
    }

    /// Gets a slice of the whole [Screen]
    pub fn as_slice(&self) -> (r: &[u8])
        ensures
            r@ == self.bytes(),
    {
        self.bytes.as_slice()
    }

    /// Clears the [Screen] to 0
    pub fn clear(&mut self)
        ensures
            final(self).bytes() == Seq::new(old(self).bytes().len(), |i: int| 0u8),
    {
        let mut k: usize = 0;
        while k < self.bytes.len()
            invariant
                k <= self.bytes@.len(),
                self.bytes@.len() == old(self).bytes@.len(),
                forall|i: int| 0 <= i < k ==> self.bytes@[i] == 0u8,
            decreases self.bytes@.len() - k,
        {
            self.bytes[k] = 0;
            k = k + 1;
        }
        assert(self.bytes@ =~= Seq::new(old(self).bytes().len(), |i: int| 0u8));
    }

    /// Grows the [Screen] memory to at least size bytes, but does not truncate
    pub fn with_size(&mut self, size: usize)
        ensures
            final(self).bytes() == crate::cpu::mem::grown(old(self).bytes(), size as nat),
    {
        let len = self.bytes.len();
        if len < size {
            let mut k = len;
            while k < size
                invariant
                    len <= k <= size,
                    self.bytes@ == old(self).bytes@ + Seq::new((k - len) as nat, |i: int| 0u8),
                decreases size - k,
            {
                self.bytes.push(0);
                k = k + 1;
                assert(self.bytes@ =~= old(self).bytes@ + Seq::new((k - len) as nat, |i: int| 0u8));
            }
        }
    }

    /// The byte at `addr`, or 0 when `addr` lies outside the screen.
    pub fn read_byte(&self, addr: usize) -> (r: u8)
        ensures
            r == crate::cpu::mem::byte_at(self.bytes(), addr as int),
    {
        if addr < self.bytes.len() {
            self.bytes[addr]
        } else {
            0
        }
    }

    /// Writes `data` at `addr`; an address outside the screen is ignored.
    pub fn write_byte(&mut self, addr: usize, data: u8)
        ensures
            final(self).bytes() == crate::cpu::mem::write_at(old(self).bytes(), addr as int, data),
    {
        if addr < self.bytes.len() {
            self.bytes[addr] = data;
        }
    }

    /// The screen as text: rows of pixels, each row as wide as twice the screen's height,
    /// prefixed by its offset.
    ///
    /// The screen must hold at least four bytes.
    pub fn print_screen(&self) -> (r: String)
        requires
            self.bytes().len() >= 4,
        ensures
            r@ == rows_text(self.bytes(), row_width(self.bytes().len()), self.bytes().len()),
    {
        render_rows(self.bytes.as_slice())
    }
}

impl Grab for Screen {
    open spec fn grab_bytes(&self) -> Seq<u8> {
        self.bytes()
    }

    fn grab(&self, range: Range<usize>) -> (r: Option<&[u8]>) {
        if range.start <= range.end && range.end <= self.bytes.len() {
            Some(slice_subrange(self.bytes.as_slice(), range.start, range.end))
        } else {
            None
        }
    }

    fn grab_mut(&mut self, range: Range<usize>) -> (r: Option<&mut [u8]>) {
        if range.start <= range.end && range.end <= self.bytes.len() {
            let all = self.bytes.as_mut_slice();
            let (_, rest) = all.split_at_mut(range.start);
            let (part, _) = rest.split_at_mut(range.end - range.start);
            Some(part)
        } else {
            None
        }
    }
}

/// `bytes` as the text of a screen: rows of pixels, each row as wide as twice the screen's
/// height, prefixed by its offset.
///
/// There must be at least four bytes.
pub fn render_rows(bytes: &[u8]) -> (r: String)
    requires
        bytes@.len() >= 4,
    ensures
        r@ == rows_text(bytes@, row_width(bytes@.len()), bytes@.len()),
{
    let len = bytes.len();
    let width = row_width_exec(len);
    let mut s = String::new();
    let mut k: usize = 0;
    while k < len
        invariant
            len == bytes@.len(),
            k <= len,
            width == row_width(len as nat),
            width >= 1,
            s@ == rows_text(bytes@, width as nat, k as nat),
        decreases len - k,
    {
        if k % width == 0 {
            push_hex(&mut s, k as u64, 3, false);
            push_char(&mut s, '|');
        }
        push_pixels(&mut s, bytes[k] as u64, 8);
        if k % width == width - 1 {
            push_char(&mut s, '|');
            push_char(&mut s, '\n');
        }
        proof {
            let head = if k % width == 0 {
                hex_text(k as nat, 3, false) + seq!['|']
            } else {
                Seq::<char>::empty()
            };
            let tail = if k % width == (width - 1) as nat {
                seq!['|', '\n']
            } else {
                Seq::<char>::empty()
            };
            assert(cell_text(bytes@, width as nat, k as nat) == head + pixel_text(
                bytes@[k as int] as nat,
                8,
            ) + tail);
            assert(s@ =~= rows_text(bytes@, width as nat, k as nat) + cell_text(
                bytes@,
                width as nat,
                k as nat,
            ));
        }
        k = k + 1;
    }
    s
}

/// The screen's pixels as colours, row by row: `fg` for a set bit and `bg` for a clear one,
/// eight pixels to a byte, the most significant bit first.
pub open spec fn pixel_colors(bytes: Seq<u8>, fg: u32, bg: u32) -> Seq<u32> {
    Seq::new(
        bytes.len() * 8,
        |p: int|
            if (bytes[p / 8] >> ((7 - p % 8) as u8)) & 1 == 1 {
                fg
            } else {
                bg
            },
    )
}

/// The screen's pixels as colours: `fg` for a set bit and `bg` for a clear one
pub fn rasterize(bytes: &[u8], fg: u32, bg: u32) -> (r: Vec<u32>)
    requires
        bytes@.len() * 8 <= usize::MAX,
    ensures
        r@ == pixel_colors(bytes@, fg, bg),
{
    let mut r: Vec<u32> = Vec::new();
    let mut idx: usize = 0;
    while idx < bytes.len()
        invariant
            idx <= bytes@.len(),
            bytes@.len() * 8 <= usize::MAX,
            r@ == pixel_colors(bytes@, fg, bg).take(idx * 8),
        decreases bytes@.len() - idx,
    {
        let byte = bytes[idx];
        let mut bit: u8 = 0;
        while bit < 8
            invariant
                idx < bytes@.len(),
                bytes@.len() * 8 <= usize::MAX,
                byte == bytes@[idx as int],
                bit <= 8,
                r@ == pixel_colors(bytes@, fg, bg).take(idx * 8 + bit),
            decreases 8 - bit,
        {
            let color = if (byte >> (7 - bit)) & 1 == 1 {
                fg
            } else {
                bg
            };
            r.push(color);
            proof {
                let p = idx * 8 + bit;
                assert(p / 8 == idx && p % 8 == bit) by (nonlinear_arith)
                    requires
                        p == idx * 8 + bit,
                        bit < 8,
                ;
                assert(r@ =~= pixel_colors(bytes@, fg, bg).take(p + 1));
            }
            bit = bit + 1;
        }
        idx = idx + 1;
    }
    assert(r@ =~= pixel_colors(bytes@, fg, bg));
    r
}

/// Pixel `p` of the rasterized screen is `fg` exactly when its bit is set in byte `p / 8`,
/// where the bit of pixel `p` is the one that drawing puts it in ([pixel_mask]): the most
/// significant bit of each byte is its leftmost pixel.
pub proof fn lemma_pixel_colors_bits(bytes: Seq<u8>, fg: u32, bg: u32, p: int)
    requires
        0 <= p < bytes.len() * 8,
    ensures
        pixel_colors(bytes, fg, bg).len() == bytes.len() * 8,
        pixel_colors(bytes, fg, bg)[p] == if bytes[p / 8] & pixel_mask(p) != 0 {
            fg
        } else {
            bg
        },
{
    let byte = bytes[p / 8];
    let k = (p % 8) as u8;
    assert(((byte >> ((7 - k) as u8)) & 1 == 1) == (byte & (0x80u8 >> k) != 0)) by (bit_vector)
        requires
            k < 8,
    ;
}

/// What a drawn pixel shows: on a 64 x 32 screen, after toggling pixel (`px`, `py`) as
/// drawing does, the rasterized pixel at `py * 64 + px` is `fg` exactly when that pixel was
/// off before, and every other rasterized pixel is as it was.
pub proof fn lemma_toggle_shows(screen: Seq<u8>, px: int, py: int, fg: u32, bg: u32)
    requires
        screen.len() == 256,
        0 <= px < 64,
        0 <= py < 32,
    ensures
        ({
            let (after, was_on) = toggle_pixel(screen, px, py);
            let q = py * 64 + px;
            &&& pixel_colors(after, fg, bg)[q] == if was_on {
                bg
            } else {
                fg
            }
            &&& forall|r: int|
                0 <= r < 2048 && r != q ==> #[trigger] pixel_colors(after, fg, bg)[r]
                    == pixel_colors(screen, fg, bg)[r]
        }),
{
    let (after, was_on) = toggle_pixel(screen, px, py);
    let q = py * 64 + px;
    let addr = py * 8 + px / 8;
    assert(q / 8 == addr && q % 8 == px % 8) by (nonlinear_arith)
        requires
            q == py * 64 + px,
            addr == py * 8 + px / 8,
            0 <= px < 64,
            0 <= py,
    ;
    assert(0 <= addr < 256) by (nonlinear_arith)
        requires
            addr == py * 8 + px / 8,
            0 <= px < 64,
            0 <= py < 32,
    ;
    let a = screen[addr];
    let k = (px % 8) as u8;
    assert(((a ^ (0x80u8 >> k)) & (0x80u8 >> k) != 0) == (a & (0x80u8 >> k) == 0)) by (bit_vector)
        requires
            k < 8,
    ;
    lemma_pixel_colors_bits(after, fg, bg, q);
    assert forall|r: int| 0 <= r < 2048 && r != q implies #[trigger] pixel_colors(after, fg, bg)[r]
        == pixel_colors(screen, fg, bg)[r] by {
        lemma_pixel_colors_bits(after, fg, bg, r);
        lemma_pixel_colors_bits(screen, fg, bg, r);
        if r / 8 == addr {
            let j = (r % 8) as u8;
            assert(j != k) by (nonlinear_arith)
                requires
                    r / 8 == q / 8,
                    r != q,
                    j == r % 8,
                    k == q % 8,
            ;
            assert((a ^ (0x80u8 >> k)) & (0x80u8 >> j) == a & (0x80u8 >> j)) by (bit_vector)
                requires
                    k < 8,
                    j < 8,
                    j != k,
            ;
        }
    }
}

/// Appends the low `width` bits of `n` as pixels.
fn push_pixels(s: &mut String, n: u64, width: u64)
    ensures
        final(s)@ == old(s)@ + pixel_text(n as nat, width as nat),
    decreases width,
{
    if width > 0 {
        push_pixels(s, n / 2, width - 1);
        let c: char = if n % 2 == 1 { '█' } else { ' ' };
        push_char(s, c);
    } else {
        assert(old(s)@ + pixel_text(n as nat, width as nat) == old(s)@);
    }
}

/// `2^31` and `2^64`.
proof fn lemma_pow2_values()
    ensures
        pow2(31) == 0x8000_0000,
        pow2(64) == 0x1_0000_0000_0000_0000,
{
    reveal_with_fuel(pow2, 65);
}

/// Powers of two grow with their exponent.
proof fn lemma_pow2_monotonic(a: nat, b: nat)
    requires
        a <= b,
    ensures
        pow2(a) <= pow2(b),
    decreases b,
{
    if a < b {
        lemma_pow2_monotonic(a, (b - 1) as nat);
    }
}

/// A number below `2^k` has a logarithm below `k`.
proof fn lemma_log2_below(n: nat, k: nat)
    requires
        1 <= n < pow2(k),
    ensures
        log2(n) < k,
    decreases k,
{
    if n >= 2 {
        lemma_log2_below(n / 2, (k - 1) as nat);
    }
}

/// A number of at least 4 has a logarithm of at least 2.
proof fn lemma_log2_at_least_two(n: nat)
    requires
        n >= 4,
    ensures
        log2(n) >= 2,
{
    assert(log2(n) == 1 + log2(n / 2));
    assert(log2(n / 2) == 1 + log2(n / 4));
}

/// The row width, in bytes, of a printed screen of `len` bytes.
fn row_width_exec(len: usize) -> (r: usize)
    requires
        len >= 4,
    ensures
        r == row_width(len as nat),
        r >= 1,
{
    proof {
        lemma_pow2_values();
        lemma_log2_below(len as nat, 64);
        lemma_log2_at_least_two(len as nat);
    }
    let mut n = len;
    let mut l: usize = 0;
    while n >= 2
        invariant
            n >= 1,
            l + log2(n as nat) == log2(len as nat),
            log2(len as nat) < 64,
        decreases n,
    {
        n = n / 2;
        l = l + 1;
    }
    let e = l / 2 - 1;
    let mut w: usize = 1;
    let mut k: usize = 0;
    while k < e
        invariant
            k <= e,
            e < 32,
            w == pow2(k as nat),
        decreases e - k,
    {
        proof {
            lemma_pow2_values();
            lemma_pow2_monotonic(k as nat, 30);
            assert(pow2(31) == 2 * pow2(30));
        }
        w = w * 2;
        k = k + 1;
    }
    proof {
        lemma_pow2_monotonic(0, k as nat);
    }
    w
}

impl Default for Screen {
    /// A 64 x 32 pixel screen
    fn default() -> (r: Self)
        ensures
            r.bytes() == Seq::new(256, |i: int| 0u8),
    {
        Self::new(256)
    }
}

} // verus!
