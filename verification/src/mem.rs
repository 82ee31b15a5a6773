//! Mem covers WOM, ROM, and RAM: a memory chip that the bus can be told to read or write.

use crate::bus::BusConnectible;
use crate::cpu::font_sprites;
use crate::cpu::mem::{overwrite, write_at};
use crate::dump::Dumpable;
use crate::text::{hex_text, pad_left, push_char, push_hex, push_str};
use std::ops::Range;
use vstd::prelude::*;
use vstd::slice::slice_subrange;

verus! {

/// The size of a default [Mem].
pub const MSIZE: usize = 0x1000;

/// Whether a memory chip may be read and written.
#[derive(Clone, Copy, Debug, PartialEq, Eq, Structural)]
struct Attr {
    pub r: bool,
    pub w: bool,
}

/// The text of byte `index` of a memory window: a row label (`index:`) every sixteen bytes,
/// the byte in hexadecimal, then a line break at the end of a row, two spaces in the middle
/// of one, and a space after every other byte.
pub open spec fn window_cell(bytes: Seq<u8>, index: nat) -> Seq<char> {
    (if index % 16 == 0 {
        hex_text(index, 3, false) + seq![':', ' ']
    } else {
        Seq::empty()
    }) + hex_text(bytes[index as int] as nat, 2, false) + (if index % 16 == 15 {
        seq!['\n']
    } else if index % 16 == 7 {
        seq![' ', ' ']
    } else if index % 2 == 1 {
        seq![' ']
    } else {
        Seq::empty()
    })
}

/// The text of the first `count` bytes of a memory window.
pub open spec fn window_text(bytes: Seq<u8>, count: nat) -> Seq<char>
    decreases count,
{
    if count == 0 {
        Seq::empty()
    } else {
        window_text(bytes, (count - 1) as nat) + window_cell(bytes, (count - 1) as nat)
    }
}

/// A view of some bytes of a [Mem], shown as a hexdump
pub struct MemWindow<'a> {
    mem: &'a [u8],
}

impl<'a> MemWindow<'a> {
    /// The bytes in view.
    pub closed spec fn bytes(&self) -> Seq<u8> {
        self.mem@
    }

    /// The hexdump of the bytes in view
    pub fn text(&self) -> (r: String)
        ensures
            r@ == window_text(self.bytes(), self.bytes().len()),
    {
        let mut s = String::new();
        let mut index: usize = 0;
        while index < self.mem.len()
            invariant
                index <= self.mem@.len(),
                s@ == window_text(self.mem@, index as nat),
            decreases self.mem@.len() - index,
        {
            let ghost before = s@;
            if index % 16 == 0 {
                push_hex(&mut s, index as u64, 3, false);
                push_char(&mut s, ':');
                push_char(&mut s, ' ');
            }
            push_hex(&mut s, self.mem[index] as u64, 2, false);
            if index % 16 == 15 {
                push_char(&mut s, '\n');
            } else if index % 16 == 7 {
                push_char(&mut s, ' ');
                push_char(&mut s, ' ');
            } else if index % 2 == 1 {
                push_char(&mut s, ' ');
            }
            assert(s@ =~= before + window_cell(self.mem@, index as nat));
            index = index + 1;
        }
        s
    }
}

/// Represents some kind of abstract memory chip
#[derive(Clone, Debug)]
pub struct Mem {
    mem: Vec<u8>,
    attr: Attr,
}

impl Mem {
    /// The bytes of the chip.
    pub closed spec fn bytes(&self) -> Seq<u8> {
        self.mem@
    }

    /// Whether the chip may be read.
    pub closed spec fn readable(&self) -> bool {
        self.attr.r
    }

    /// Whether the chip may be written.
    pub closed spec fn writable(&self) -> bool {
        self.attr.w
    }

    /// Makes the chip readable, or not
    pub fn r(self, readable: bool) -> (r: Self)
        ensures
            r.bytes() == self.bytes(),
            r.readable() == readable,
            r.writable() == self.writable(),
    {
        Mem { attr: Attr { r: readable, ..self.attr }, ..self }
    }

    /// Makes the chip writable, or not
    pub fn w(self, writable: bool) -> (r: Self)
        ensures
            r.bytes() == self.bytes(),
            r.readable() == self.readable(),
            r.writable() == writable,
    {
        Mem { attr: Attr { w: writable, ..self.attr }, ..self }
    }

    /// Returns the number of bytes in the `Mem`, also referred to as its length.
    pub fn len(&self) -> (r: usize)
        ensures
            r == self.bytes().len(),
    {
        self.mem.len()
    }

    /// Whether the `Mem` holds no bytes
    pub fn is_empty(&self) -> (r: bool)
        ensures
            r == (self.bytes().len() == 0),
    {
        self.mem.len() == 0
    }

    /// Loads data into a `Mem` at `addr`; all of it must fit.
    pub fn load(self, addr: u16, bytes: &[u8]) -> (r: Self)
        requires
            addr + bytes@.len() <= self.bytes().len(),
        ensures
            r.bytes() == overwrite(self.bytes(), addr as int, bytes@),
            r.readable() == self.readable(),
            r.writable() == self.writable(),
    {
        let mut mem = self;
        let start = addr as usize;
        let total = mem.mem.len();
        let mut k: usize = 0;
        while k < bytes.len()
            invariant
                total == self.mem@.len(),
                start == addr,
                start + bytes@.len() <= self.mem@.len(),
                k <= bytes@.len(),
                mem.mem@.len() == self.mem@.len(),
                mem.attr == self.attr,
                mem.mem@ == overwrite(self.mem@, start as int, bytes@.take(k as int)),
            decreases bytes@.len() - k,
        {
            mem.mem.set(start + k, bytes[k]);
            k = k + 1;
            assert(mem.mem@ =~= overwrite(self.mem@, start as int, bytes@.take(k as int)));
        }
        assert(bytes@.take(k as int) =~= bytes@);
        mem
    }

    /// Loads the character set (the sixteen hexadecimal digits, five bytes each) at `addr`;
    /// all of it must fit.
    pub fn load_charset(self, addr: u16) -> (r: Self)
        requires
            addr + 80 <= self.bytes().len(),
        ensures
            r.bytes() == overwrite(self.bytes(), addr as int, font_sprites()),
            r.readable() == self.readable(),
            r.writable() == self.writable(),
    {
        let charset: [u8; 80] = [
            0xf0, 0x90, 0x90, 0x90, 0xf0,
            0x20, 0x60, 0x20, 0x20, 0x70,
            0xf0, 0x10, 0xf0, 0x80, 0xf0,
            0xf0, 0x10, 0xf0, 0x10, 0xf0,
            0x90, 0x90, 0xf0, 0x10, 0x10,
            0xf0, 0x80, 0xf0, 0x10, 0xf0,
            0xf0, 0x80, 0xf0, 0x90, 0xf0,
            0xf0, 0x10, 0x20, 0x40, 0x40,
            0xf0, 0x90, 0xf0, 0x90, 0xf0,
            0xf0, 0x90, 0xf0, 0x10, 0xf0,
            0xf0, 0x90, 0xf0, 0x90, 0x90,
            0xe0, 0x90, 0xe0, 0x90, 0xe0,
            0xf0, 0x80, 0x80, 0x80, 0xf0,
            0xe0, 0x90, 0x90, 0x90, 0xe0,
            0xf0, 0x80, 0xf0, 0x80, 0xf0,
            0xf0, 0x80, 0xf0, 0x80, 0x80,
        ];
        assert(charset@ =~= font_sprites());
        self.load(addr, charset.as_slice())
    }

    /// Creates a new `mem` with the specified length, readable and writable
    pub fn new(len: usize) -> (r: Self)
        ensures
            r.bytes() == Seq::new(len as nat, |i: int| 0u8),
            r.readable(),
            r.writable(),
    {
        let mut mem: Vec<u8> = Vec::new();
        let mut k: usize = 0;
        while k < len
            invariant
                k <= len,
                mem@ == Seq::new(k as nat, |i: int| 0u8),
            decreases len - k,
        {
            mem.push(0);
            k = k + 1;
            assert(mem@ =~= Seq::new(k as nat, |i: int| 0u8));
        }
        Mem { mem, attr: Attr { r: true, w: true } }
    }

    /// Creates a window into the Mem, shown as a hexdump; the range must lie within it.
    pub fn window(&self, range: Range<usize>) -> (r: MemWindow)
        requires
            range.start <= range.end <= self.bytes().len(),
        ensures
            r.bytes() == self.bytes().subrange(range.start as int, range.end as int),
    {
        MemWindow { mem: slice_subrange(self.mem.as_slice(), range.start, range.end) }
    }

    /// The hexdump of the whole chip
    pub fn text(&self) -> (r: String)
        ensures
            r@ == window_text(self.bytes(), self.bytes().len()),
    {
        let r = self.window(0..self.mem.len()).text();
        assert(self.bytes().subrange(0, self.bytes().len() as int) =~= self.bytes());
        r
    }
}

impl Default for Mem {
    /// A readable, writable chip of [MSIZE] bytes
    fn default() -> (r: Self)
        ensures
            r.bytes() == Seq::new(MSIZE as nat, |i: int| 0u8),
            r.readable(),
            r.writable(),
    {
        Self::new(MSIZE)
    }
}

impl Dumpable for Mem {
    /// `Mem`, the range in hexadecimal, then the hexdump of the bytes in range (which must lie
    /// within the chip)
    open spec fn can_dump(&self, range: Range<usize>) -> bool {
        range.start <= range.end <= self.bytes().len()
    }

    fn dump(&self, range: Range<usize>) -> (r: String)
        ensures
            r@ == "Mem "@ + pad_left(hex_text(range.start as nat, 1, false), 2) + ".."@ + pad_left(
                hex_text(range.end as nat, 1, false),
                2,
            ) + ": "@ + window_text(
                self.bytes().subrange(range.start as int, range.end as int),
                (range.end - range.start) as nat,
            ),
    {
        let mut s = String::new();
        push_str(&mut s, "Mem ");
        crate::text::push_hex_padded(&mut s, range.start as u64, 2);
        push_str(&mut s, "..");
        crate::text::push_hex_padded(&mut s, range.end as u64, 2);
        push_str(&mut s, ": ");
        let w = self.window(range).text();
        push_str(&mut s, w.as_str());
        s
    }
}

impl BusConnectible for Mem {
    /// The byte at `addr`, when the chip is readable and `addr` lies within it.
    open spec fn read_at_spec(&self, addr: u16) -> Option<u8> {
        if self.readable() && addr < self.bytes().len() {
            Some(self.bytes()[addr as int])
        } else {
            None
        }
    }

    /// What `at` reads once `data` has been written at `addr`: `data` at `addr` when the
    /// chip is writable, the byte as it was elsewhere.
    open spec fn read_after_write(&self, addr: u16, data: u8, at: u16) -> Option<u8> {
        if self.readable() && at < self.bytes().len() {
            Some(if self.writable() && at == addr { data } else { self.bytes()[at as int] })
        } else {
            None
        }
    }

    /// The byte at `addr`, when the chip is readable and `addr` lies within it
    fn read_at(&self, addr: u16) -> (r: Option<u8>)
        ensures
            r == (if self.readable() && addr < self.bytes().len() {
                Some(self.bytes()[addr as int])
            } else {
                None::<u8>
            }),
    {
        if !self.attr.r {
            return None;
        }
        if (addr as usize) < self.mem.len() {
            Some(self.mem[addr as usize])
        } else {
            None
        }
    }

    /// Writes `data` at `addr`, when the chip is writable (an address outside it is ignored)
    fn write_to(&mut self, addr: u16, data: u8)
        ensures
            final(self).bytes() == (if old(self).writable() {
                write_at(old(self).bytes(), addr as int, data)
            } else {
                old(self).bytes()
            }),
            final(self).readable() == old(self).readable(),
            final(self).writable() == old(self).writable(),
    {
        if self.attr.w && (addr as usize) < self.mem.len() {
            self.mem.set(addr as usize, data);
        }
    }
}

} // verus!
