//! The Bus connects the CPU to Memory: named regions of one backing memory.

pub mod bus_device;
pub mod iterator;

use crate::cpu::mem::{grown, overwrite, word_bytes, write_at};
use crate::cpu::state::word_at;
use crate::error::{Error, Result};
use crate::text::push_char;
use std::ops::Range;
use vstd::prelude::*;
use vstd::slice::slice_subrange;

verus! {

/// Something the bus can read bytes from and write bytes to
pub trait BusConnectible {
    /// What reading at `addr` gives: the byte there, if there is one to read.
    spec fn read_at_spec(&self, addr: u16) -> Option<u8>;

    /// What reading at `at` gives once `data` has been written at `addr`.
    spec fn read_after_write(&self, addr: u16, data: u8, at: u16) -> Option<u8>;

    /// Reads the byte at `addr`, if there is one to read
    fn read_at(&self, addr: u16) -> (r: Option<u8>)
        ensures
            r == self.read_at_spec(addr),
    ;

    /// Writes `data` at `addr`, if it can be written: afterwards every address reads as
    /// [BusConnectible::read_after_write] says.
    fn write_to(&mut self, addr: u16, data: u8)
        ensures
            forall|at: u16| #[trigger] final(self).read_at_spec(at) == old(self).read_after_write(addr, data, at),
    ;
}

/// Do whatever `Read` means to you
pub trait Read<T> {
    /// What reading a T from address `addr` gives
    spec fn read_spec(&self, addr: usize) -> T;

    /// Read a T from address `addr`
    fn read(&self, addr: usize) -> (r: T)
        requires
            addr <= usize::MAX - 16,
        ensures
            r == self.read_spec(addr),
    ;
}

/// Write "some data" to the Bus
pub trait Write<T> {
    /// The contents of the object
    spec fn contents(&self) -> Seq<u8>;

    /// The contents after writing `data` at address `addr`
    spec fn written(&self, addr: usize, data: T) -> Seq<u8>;

    /// Write a T to address `addr`
    fn write(&mut self, addr: usize, data: T)
        requires
            addr <= usize::MAX - 16,
        ensures
            final(self).contents() == old(self).written(addr, data),
    ;
}

/// Names a region of the bus
#[derive(Clone, Copy, Debug, PartialEq, Eq, Structural, PartialOrd, Ord, Hash)]
pub enum Region {
    /// The character sprites
    Charset,
    /// The program
    Program,
    /// The screen buffer
    Screen,
    /// The call stack
    Stack,
}

/// The display name of a region.
pub open spec fn region_name(name: Region) -> Seq<char> {
    match name {
        Region::Charset => "charset"@,
        Region::Program => "program"@,
        Region::Screen => "screen"@,
        Region::Stack => "stack"@,
    }
}

/// The slot in which a region's range is kept.
pub open spec fn region_slot(name: Region) -> int {
    match name {
        Region::Charset => 0,
        Region::Program => 1,
        Region::Screen => 2,
        Region::Stack => 3,
    }
}

impl Region {
    /// The display name of this region
    pub fn name(&self) -> (r: &'static str)
        ensures
            r@ == region_name(*self),
    {
        match self {
            Region::Charset => "charset",
            Region::Program => "program",
            Region::Screen => "screen",
            Region::Stack => "stack",
        }
    }

    fn slot(&self) -> (r: usize)
        ensures
            r == region_slot(*self),
    {
        match self {
            Region::Charset => 0,
            Region::Program => 1,
            Region::Screen => 2,
            Region::Stack => 3,
        }
    }
}

/// Store memory in a series of named regions with ranges
#[derive(Clone, Debug, PartialEq)]
pub struct Bus {
    memory: Vec<u8>,
    region: [Option<Range<usize>>; 4],
}

/// The text of the screen rows of [Bus::print_screen]: eight bytes to a row between bars,
/// each pixel two characters wide.
pub open spec fn screen_cell(bytes: Seq<u8>, index: nat) -> Seq<char> {
    (if index % 8 == 0 {
        seq!['|']
    } else {
        Seq::empty()
    }) + wide_pixels(bytes[index as int] as nat, 8) + (if index % 8 == 7 {
        seq!['|', '\n']
    } else {
        Seq::empty()
    })
}

/// The low `width` bits of `n`, most significant first, two characters per pixel.
pub open spec fn wide_pixels(n: nat, width: nat) -> Seq<char>
    decreases width,
{
    if width == 0 {
        Seq::empty()
    } else {
        wide_pixels(n / 2, (width - 1) as nat) + if n % 2 == 1 {
            seq!['█', '█']
        } else {
            seq![' ', ' ']
        }
    }
}

/// The text of the first `count` bytes of a screen region.
pub open spec fn screen_rows(bytes: Seq<u8>, count: nat) -> Seq<char>
    decreases count,
{
    if count == 0 {
        Seq::empty()
    } else {
        screen_rows(bytes, (count - 1) as nat) + screen_cell(bytes, (count - 1) as nat)
    }
}

/// Appends the low `width` bits of `n`, two characters per pixel.
fn push_wide_pixels(s: &mut String, n: u64, width: u64)
    ensures
        final(s)@ == old(s)@ + wide_pixels(n as nat, width as nat),
    decreases width,
{
    if width > 0 {
        push_wide_pixels(s, n / 2, width - 1);
        let c: char = if n % 2 == 1 { '█' } else { ' ' };
        push_char(s, c);
        push_char(s, c);
    } else {
        assert(old(s)@ + wide_pixels(n as nat, width as nat) =~= old(s)@);
    }
}

impl Bus {
    /// The backing memory.
    pub closed spec fn bytes(&self) -> Seq<u8> {
        self.memory@
    }

    /// The range named `name`, if one was added.
    pub closed spec fn range_of(&self, name: Region) -> Option<Range<usize>> {
        self.region@[region_slot(name)]
    }

    /// The bytes of the region named `name`, if it was added and lies within the memory.
    pub open spec fn region_bytes(&self, name: Region) -> Option<Seq<u8>> {
        match self.range_of(name) {
            Some(r) => if r.start <= r.end <= self.bytes().len() {
                Some(self.bytes().subrange(r.start as int, r.end as int))
            } else {
                None
            },
            None => None,
        }
    }

    /// Construct a new bus, with no memory and no regions
    pub fn new() -> (r: Self)
        ensures
            r.bytes() == Seq::<u8>::empty(),
            forall|name: Region| r.range_of(name) is None,
    {
        Bus { memory: Vec::new(), region: [None, None, None, None] }
    }

    /// Gets the length of the bus' backing memory
    pub fn len(&self) -> (r: usize)
        ensures
            r == self.bytes().len(),
    {
        self.memory.len()
    }

    /// Returns true if the backing memory contains no elements
    pub fn is_empty(&self) -> (r: bool)
        ensures
            r == (self.bytes().len() == 0),
    {
        self.memory.len() == 0
    }

    /// Grows the Bus backing memory to at least size bytes, but does not truncate
    pub fn with_size(&mut self, size: usize)
        ensures
            final(self).bytes() == grown(old(self).bytes(), size as nat),
            forall|name: Region| final(self).range_of(name) == old(self).range_of(name),
    {
        let len = self.memory.len();
        if len < size {
            let mut k = len;
            while k < size
                invariant
                    len <= k <= size,
                    self.memory@ == old(self).memory@ + Seq::new((k - len) as nat, |i: int| 0u8),
                    self.region == old(self).region,
                decreases size - k,
            {
                self.memory.push(0);
                k = k + 1;
                assert(self.memory@ =~= old(self).memory@ + Seq::new((k - len) as nat, |i: int| 0u8));
            }
        }
    }

    /// Adds a named region, growing the memory to hold it
    pub fn add_region(self, name: Region, range: Range<usize>) -> (r: Self)
        ensures
            r.bytes() == grown(self.bytes(), range.end as nat),
            r.range_of(name) == Some(range),
            forall|other: Region| other != name ==> r.range_of(other) == self.range_of(other),
    {
        let mut bus = self;
        bus.with_size(range.end);
        let k = name.slot();
        bus.region[k] = Some(range);
        bus
    }

    /// Loads data into a named region: as much of it as fits (nothing when there is no such
    /// region)
    pub fn load_region(self, name: Region, data: &[u8]) -> (r: Self)
        ensures
            r.bytes() == (match self.region_bytes(name) {
                Some(b) => overwrite(
                    self.bytes(),
                    self.range_of(name)->0.start as int,
                    data@.take(if data@.len() <= b.len() { data@.len() as int } else { b.len() as int }),
                ),
                None => self.bytes(),
            }),
            forall|other: Region| r.range_of(other) == self.range_of(other),
    {
        let mut bus = self;
        let k = name.slot();
        if let Some(range) = &bus.region[k] {
            if range.start <= range.end && range.end <= bus.memory.len() {
                let (start, end) = (range.start, range.end);
                let count = if data.len() <= end - start { data.len() } else { end - start };
                let mut i: usize = 0;
                while i < count
                    invariant
                        start <= end <= self.memory@.len(),
                        count <= data@.len(),
                        count <= end - start,
                        i <= count,
                        bus.memory@.len() == self.memory@.len(),
                        bus.region == self.region,
                        bus.memory@ == overwrite(self.memory@, start as int, data@.take(i as int)),
                    decreases count - i,
                {
                    bus.memory.set(start + i, data[i]);
                    i = i + 1;
                    assert(bus.memory@ =~= overwrite(self.memory@, start as int, data@.take(i as int)));
                }
            }
        }
        bus
    }

    /// Fills a named region with zeroes (nothing when there is no such region)
    pub fn clear_region(&mut self, name: Region) -> (r: &mut Self)
        ensures
            *final(r) == *final(self),
            forall|other: Region| r.range_of(other) == old(self).range_of(other),
            r.bytes() == (match old(self).region_bytes(name) {
                Some(b) => overwrite(
                    old(self).bytes(),
                    old(self).range_of(name)->0.start as int,
                    Seq::new(b.len(), |i: int| 0u8),
                ),
                None => old(self).bytes(),
            }),
    {
        let k = name.slot();
        if let Some(range) = &self.region[k] {
            if range.start <= range.end && range.end <= self.memory.len() {
                let (start, end) = (range.start, range.end);
                let ghost zeros = Seq::new((end - start) as nat, |i: int| 0u8);
                let mut a = start;
                while a < end
                    invariant
                        start <= a <= end <= self.memory@.len(),
                        self.memory@.len() == old(self).memory@.len(),
                        zeros == Seq::new((end - start) as nat, |i: int| 0u8),
                        self.region == old(self).region,
                        self.memory@ == overwrite(old(self).memory@, start as int, zeros.take(a - start)),
                    decreases end - a,
                {
                    self.memory.set(a, 0);
                    assert(zeros.take(a + 1 - start) =~= zeros.take(a - start).push(0u8));
                    a = a + 1;
                    assert(self.memory@ =~= overwrite(old(self).memory@, start as int, zeros.take(a - start)));
                }
                assert(zeros.take(end - start) =~= zeros);
            }
        }
        self
    }

    /// Gets a slice of bus memory, if the whole range lies within it
    pub fn get(&self, range: Range<usize>) -> (r: Option<&[u8]>)
        ensures
            range.start <= range.end <= self.bytes().len() ==> (r matches Some(s) && s@
                == self.bytes().subrange(range.start as int, range.end as int)),
            !(range.start <= range.end <= self.bytes().len()) ==> r is None,
    {
        if range.start <= range.end && range.end <= self.memory.len() {
            Some(slice_subrange(self.memory.as_slice(), range.start, range.end))
        } else {
            None
        }
    }

    /// Gets a mutable slice of bus memory, if the whole range lies within it
    pub fn get_mut(&mut self, range: Range<usize>) -> (r: Option<&mut [u8]>)
        ensures
            range.start <= range.end <= old(self).bytes().len() ==> (r matches Some(s) && s@
                == old(self).bytes().subrange(range.start as int, range.end as int)
                && final(self).bytes() == old(self).bytes().take(range.start as int) + final(s)@
                + old(self).bytes().skip(range.end as int)),
            !(range.start <= range.end <= old(self).bytes().len()) ==> (r is None && *final(self)
                == *old(self)),
            forall|name: Region| final(self).range_of(name) == old(self).range_of(name),
    {
        if range.start <= range.end && range.end <= self.memory.len() {
            let all = self.memory.as_mut_slice();
            let (_, rest) = all.split_at_mut(range.start);
            let (part, _) = rest.split_at_mut(range.end - range.start);
            Some(part)
        } else {
            None
        }
    }

    /// Gets a slice of a named region of memory
    pub fn get_region(&self, name: Region) -> (r: Option<&[u8]>)
        ensures
            r matches Some(s) ==> self.region_bytes(name) == Some(s@),
            r is None ==> self.region_bytes(name) is None,
    {
        let k = name.slot();
        match &self.region[k] {
            Some(range) => self.get(range.start..range.end),
            None => None,
        }
    }

    /// Gets a mutable slice to a named region of memory
    pub fn get_region_mut(&mut self, name: Region) -> (r: Option<&mut [u8]>)
        ensures
            r matches Some(s) ==> (old(self).region_bytes(name) == Some(s@) && final(self).bytes()
                == old(self).bytes().take(old(self).range_of(name)->0.start as int) + final(s)@
                + old(self).bytes().skip(old(self).range_of(name)->0.end as int)),
            r is None ==> old(self).region_bytes(name) is None && *final(self) == *old(self),
            forall|other: Region| final(self).range_of(other) == old(self).range_of(other),
    {
        let k = name.slot();
        let range = match &self.region[k] {
            Some(range) => range.start..range.end,
            None => return None,
        };
        self.get_mut(range)
    }

    /// The region of memory called `Screen` as text, eight bytes to a row; an
    /// [Error::MissingRegion] when there is no such region
    pub fn print_screen(&self) -> (r: Result<String>)
        ensures
            self.region_bytes(Region::Screen) matches Some(b) ==> (r matches Ok(text) && text@
                == screen_rows(b, b.len())),
            self.region_bytes(Region::Screen) is None ==> (r matches Err(Error::MissingRegion {
                region,
            }) && region == crate::cpu::bus::Region::Screen),
    {
        let screen = match self.get_region(Region::Screen) {
            Some(screen) => screen,
            None => return Err(Error::MissingRegion { region: crate::cpu::bus::Region::Screen }),
        };
        let mut s = String::new();
        let mut index: usize = 0;
        while index < screen.len()
            invariant
                index <= screen@.len(),
                s@ == screen_rows(screen@, index as nat),
            decreases screen@.len() - index,
        {
            let ghost before = s@;
            if index % 8 == 0 {
                push_char(&mut s, '|');
            }
            push_wide_pixels(&mut s, screen[index] as u64, 8);
            if index % 8 == 7 {
                push_char(&mut s, '|');
                push_char(&mut s, '\n');
            }
            assert(s@ =~= before + screen_cell(screen@, index as nat));
            index = index + 1;
        }
        Ok(s)
    }
}

impl Read<u8> for Bus {
    /// The byte at `addr`, or `0xc5` when it lies outside the memory
    open spec fn read_spec(&self, addr: usize) -> u8 {
        if addr < self.bytes().len() {
            self.bytes()[addr as int]
        } else {
            0xc5
        }
    }

    fn read(&self, addr: usize) -> u8 {
        if addr < self.memory.len() {
            self.memory[addr]
        } else {
            0xc5
        }
    }
}

impl Read<u16> for Bus {
    /// The big-endian word at `addr`, or `0xc5c5` when it does not lie wholly in the memory
    open spec fn read_spec(&self, addr: usize) -> u16 {
        if addr + 2 <= self.bytes().len() {
            word_at(self.bytes(), addr as int)
        } else {
            0xc5c5
        }
    }

    fn read(&self, addr: usize) -> u16 {
        if addr + 2 <= self.memory.len() {
            (self.memory[addr] as u16) * 256 + self.memory[addr + 1] as u16
        } else {
            0xc5c5
        }
    }
}

impl Write<u8> for Bus {
    open spec fn contents(&self) -> Seq<u8> {
        self.bytes()
    }

    /// The memory with `data` at `addr` (unchanged when `addr` lies outside it)
    open spec fn written(&self, addr: usize, data: u8) -> Seq<u8> {
        write_at(self.bytes(), addr as int, data)
    }

    fn write(&mut self, addr: usize, data: u8) {
        if addr < self.memory.len() {
            self.memory.set(addr, data);
        }
    }
}

impl Write<u16> for Bus {
    open spec fn contents(&self) -> Seq<u8> {
        self.bytes()
    }

    /// The memory with the big-endian `data` at `addr` (unchanged when it does not fit)
    open spec fn written(&self, addr: usize, data: u16) -> Seq<u8> {
        if addr + 2 <= self.bytes().len() {
            overwrite(self.bytes(), addr as int, word_bytes(data))
        } else {
            self.bytes()
        }
    }

    fn write(&mut self, addr: usize, data: u16) {
        if addr + 2 <= self.memory.len() {
            self.memory.set(addr, (data / 256) as u8);
            self.memory.set(addr + 1, (data % 256) as u8);
            assert(self.memory@ =~= overwrite(old(self).memory@, addr as int, word_bytes(data)));
        }
    }
}

impl Default for Bus {
    /// An empty memory with no regions
    fn default() -> (r: Self)
        ensures
            r.bytes() == Seq::<u8>::empty(),
            forall|name: Region| r.range_of(name) is None,
    {
        Self::new()
    }
}

} // verus!
