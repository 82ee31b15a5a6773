//! The Bus connects the CPU to Memory
//!
//! This is more of a memory management unit + some utils for reading/writing

use crate::error::any_range::AnyRange;
use crate::error::{Error, Result};

pub mod read;
use std::ops::Range;
use vstd::prelude::*;
use vstd::slice::slice_subrange;
use super::mem::{byte_at, grown, overwrite, write_at};
use crate::screen::{render_rows, row_width, rows_text};

verus! {

/// Represents a named region in memory
#[derive(Clone, Copy, Debug, PartialEq, Eq, Structural, PartialOrd, Ord, Hash)]
#[non_exhaustive]
pub enum Region {
    /// Character ROM (but writable!)
    Charset,
    /// Program memory
    Program,
    /// Screen buffer
    Screen,
    /// Stack space
    Stack,
    /// Total number of named regions
    Count,
}

/// The display name of a region (empty for [Region::Count]).
pub open spec fn bus_region_name(name: Region) -> Seq<char> {
    match name {
        Region::Charset => "Charset"@,
        Region::Program => "Program"@,
        Region::Screen => "Screen"@,
        Region::Stack => "Stack"@,
        Region::Count => ""@,
    }
}

impl Region {
    /// The display name of this region (empty for [Region::Count]).
    pub fn name(&self) -> (r: &'static str)
        ensures
            r@ == bus_region_name(*self),
            *self == Region::Charset ==> r@ == "Charset"@,
            *self == Region::Program ==> r@ == "Program"@,
            *self == Region::Screen ==> r@ == "Screen"@,
            *self == Region::Stack ==> r@ == "Stack"@,
            *self == Region::Count ==> r@ == ""@,
    {
        match self {
            Region::Charset => "Charset",
            Region::Program => "Program",
            Region::Screen => "Screen",
            Region::Stack => "Stack",
            Region::Count => "",
        }
    }
}

/// Stores memory in a series of named regions with ranges
#[derive(Clone, Debug, PartialEq)]
pub struct Bus {
    memory: Vec<u8>,
    region: [Option<Range<usize>>; 4],
}

/// The slot in which a region's range is kept; [Region::Count] has none.
pub open spec fn region_slot(name: Region) -> Option<int> {
    match name {
        Region::Charset => Some(0),
        Region::Program => Some(1),
        Region::Screen => Some(2),
        Region::Stack => Some(3),
        Region::Count => None,
    }
}

impl Bus {
    /// The backing memory.
    pub closed spec fn bytes(&self) -> Seq<u8> {
        self.memory@
    }

    /// The range named `name`, if one was added.
    pub closed spec fn range_of(&self, name: Region) -> Option<Range<usize>> {
        match region_slot(name) {
            Some(k) => self.region@[k],
            None => None,
        }
    }

    /// Whether `after` is this bus with the range `range` named `name` added: the memory grown
    /// to hold the range, `name` naming it (unless it is [Region::Count]), and every other
    /// name as it was.
    pub open spec fn added(&self, name: Region, range: Range<usize>, after: Bus) -> bool {
        &&& after.bytes() == grown(self.bytes(), range.end as nat)
        &&& after.range_of(name) == (if name == Region::Count {
            None
        } else {
            Some(range)
        })
        &&& forall|other: Region| other != name ==> after.range_of(other) == self.range_of(other)
    }

    /// The range named `name`, if it was added and lies within the backing memory.
    pub open spec fn valid_range(&self, name: Region) -> Option<Range<usize>> {
        match self.range_of(name) {
            Some(r) => if r.start <= r.end <= self.bytes().len() {
                Some(r)
            } else {
                None
            },
            None => None,
        }
    }

    fn slot(name: Region) -> (r: Option<usize>)
        ensures
            r matches Some(k) ==> region_slot(name) == Some(k as int),
            r is None ==> region_slot(name) is None,
    {
        match name {
            Region::Charset => Some(0),
            Region::Program => Some(1),
            Region::Screen => Some(2),
            Region::Stack => Some(3),
            Region::Count => None,
        }
    }

    /// Constructs a new, empty memory with no regions.
    pub fn new() -> (r: Self)
        ensures
            r.bytes() == Seq::<u8>::empty(),
            forall|name: Region| r.range_of(name) is None,
    {
        Bus { memory: Vec::new(), region: [None, None, None, None] }
    }

    /// Gets the length of the backing memory
    pub fn len(&self) -> (r: usize)
        ensures
            r == self.bytes().len(),
    {
        self.memory.len()
    }

    /// Returns true if the backing memory contains no elements
    pub fn is_empty(&self) -> (r: bool)
        ensures
            r == (self.bytes().len() == 0),
    {
        self.memory.len() == 0
    }

    /// Grows the backing memory to at least `size` bytes, but does not truncate
    pub fn with_size(&mut self, size: usize)
        ensures
            final(self).bytes() == grown(old(self).bytes(), size as nat),
            forall|name: Region| final(self).range_of(name) == old(self).range_of(name),
    {
        let len = self.memory.len();
        if len < size {
            let mut k = len;
            while k < size
                invariant
                    len <= k <= size,
                    self.memory@ == old(self).memory@ + Seq::new((k - len) as nat, |i: int| 0u8),
                    self.region == old(self).region,
                decreases size - k,
            {
                self.memory.push(0);
                k = k + 1;
                assert(self.memory@ =~= old(self).memory@ + Seq::new((k - len) as nat, |i: int| 0u8));
            }
        }
    }

    /// Adds a new named range ([Region]) to a [Bus], growing the memory to hold it
    pub fn add_region(&mut self, name: Region, range: Range<usize>) -> (r: &mut Self)
        ensures
            *final(r) == *final(self),
            old(self).added(name, range, *r),
    {
        self.with_size(range.end);
        if let Some(k) = Self::slot(name) {
            self.region[k] = Some(range);
        }
        self
    }

    /// Adds a new named range ([Region]) to an owned [Bus]
    pub fn add_region_owned(self, name: Region, range: Range<usize>) -> (r: Self)
        ensures
            self.added(name, range, r),
    {
        let mut mem = self;
        mem.add_region(name, range);
        mem
    }

    /// Updates an existing [Region], growing the memory to hold it
    pub fn set_region(&mut self, name: Region, range: Range<usize>) -> (r: &mut Self)
        ensures
            *final(r) == *final(self),
            r.bytes() == grown(old(self).bytes(), range.end as nat),
            r.range_of(name) == (if name == Region::Count { None } else { Some(range) }),
            forall|other: Region| other != name ==> r.range_of(other) == old(self).range_of(other),
    {
        self.add_region(name, range)
    }

    /// The bytes of the range named `name`, if it was added and lies within the memory.
    pub open spec fn region_bytes(&self, name: Region) -> Option<Seq<u8>> {
        match self.valid_range(name) {
            Some(r) => Some(self.bytes().subrange(r.start as int, r.end as int)),
            None => None,
        }
    }

    /// Whether `data` fits in the region named `name` (or there is no such region to load).
    pub open spec fn fits(&self, name: Region, data: Seq<u8>) -> bool {
        self.valid_range(name) matches Some(r) ==> data.len() <= r.end - r.start
    }

    /// The memory after loading `data` at the start of the region named `name`, which is
    /// unchanged when there is no such region.
    pub open spec fn loaded(&self, name: Region, data: Seq<u8>) -> Seq<u8> {
        match self.valid_range(name) {
            Some(r) => overwrite(self.bytes(), r.start as int, data),
            None => self.bytes(),
        }
    }

    /// Writes `data` over the bytes starting at `start`.
    fn copy_in(&mut self, start: usize, data: &[u8])
        requires
            start + data@.len() <= old(self).bytes().len(),
        ensures
            final(self).bytes() == overwrite(old(self).bytes(), start as int, data@),
            forall|name: Region| final(self).range_of(name) == old(self).range_of(name),
    {
        let mut k: usize = 0;
        while k < data.len()
            invariant
                start + data@.len() <= old(self).bytes().len(),
                k <= data@.len(),
                self.memory@.len() == old(self).memory@.len(),
                start + data@.len() <= self.memory.len(),
                self.region == old(self).region,
                self.memory@ == overwrite(old(self).memory@, start as int, data@.take(k as int)),
            decreases data@.len() - k,
        {
            let idx = start + k;
            self.memory[idx] = data[k];
            k = k + 1;
            assert(self.memory@ =~= overwrite(
                old(self).memory@,
                start as int,
                data@.take(k as int),
            ));
        }
        assert(data@.take(k as int) =~= data@);
    }

    /// Loads data into a named [Region]; a missing region is left alone.
    ///
    /// `data` must fit in the region: a longer one cannot be copied into it.
    pub fn load_region(&mut self, name: Region, data: &[u8]) -> (r: Result<&mut Self>)
        requires
            old(self).fits(name, data@),
        ensures
            r is Ok,
            r matches Ok(m) ==> *final(m) == *final(self),
            r matches Ok(m) ==> m.bytes() == old(self).loaded(name, data@),
            r matches Ok(m) ==> forall|other: Region| m.range_of(other) == old(self).range_of(
                other,
            ),
    {
        if let Some(k) = Self::slot(name) {
            if let Some(range) = &self.region[k] {
                if range.start <= range.end && range.end <= self.memory.len() {
                    let start = range.start;
                    self.copy_in(start, data);
                }
            }
        }
        Ok(self)
    }

    /// Loads data into a [Region] on an *owned* [Bus], for use during initialization
    pub fn load_region_owned(self, name: Region, data: &[u8]) -> (r: Self)
        requires
            self.fits(name, data@),
        ensures
            r.bytes() == self.loaded(name, data@),
            forall|other: Region| r.range_of(other) == self.range_of(other),
    {
        let mut mem = self;
        let _ = mem.load_region(name, data);
        mem
    }

    /// Fills a [Region] with zeroes; a missing region is left alone.
    pub fn clear_region(&mut self, name: Region) -> (r: &mut Self)
        ensures
            *final(r) == *final(self),
            forall|other: Region| r.range_of(other) == old(self).range_of(other),
            r.bytes() == (match old(self).valid_range(name) {
                Some(rg) => overwrite(
                    old(self).bytes(),
                    rg.start as int,
                    Seq::new((rg.end - rg.start) as nat, |i: int| 0u8),
                ),
                None => old(self).bytes(),
            }),
    {
        if let Some(k) = Self::slot(name) {
            if let Some(range) = &self.region[k] {
                if range.start <= range.end && range.end <= self.memory.len() {
                    let (start, end) = (range.start, range.end);
                    let ghost zeros = Seq::new((end - start) as nat, |i: int| 0u8);
                    let mut a = start;
                    while a < end
                        invariant
                            start <= a <= end <= self.memory@.len(),
                            self.memory@.len() == old(self).memory@.len(),
                            zeros == Seq::new((end - start) as nat, |i: int| 0u8),
                            self.region == old(self).region,
                            self.memory@ == overwrite(
                                old(self).memory@,
                                start as int,
                                zeros.take(a - start),
                            ),
                        decreases end - a,
                    {
                        self.memory[a] = 0;
                        assert(zeros.take(a + 1 - start) =~= zeros.take(a - start).push(0u8));
                        a = a + 1;
                        assert(self.memory@ =~= overwrite(
                            old(self).memory@,
                            start as int,
                            zeros.take(a - start),
                        ));
                    }
                    assert(zeros.take(end - start) =~= zeros);
                }
            }
        }
        self
    }

    /// Gets a slice of a named [Region] of memory, if it was added and lies within the memory.
    pub fn get_region(&self, name: Region) -> (r: Option<&[u8]>)
        ensures
            r matches Some(s) ==> self.region_bytes(name) == Some(s@),
            r is None ==> self.region_bytes(name) is None,
    {
        if let Some(k) = Self::slot(name) {
            if let Some(range) = &self.region[k] {
                if range.start <= range.end && range.end <= self.memory.len() {
                    return Some(slice_subrange(self.memory.as_slice(), range.start, range.end));
                }
            }
        }
        None
    }

    /// Gets a mutable slice of a named [Region] of memory, if it was added and lies within the
    /// memory. What is written through the slice lands in that region.
    pub fn get_region_mut(&mut self, name: Region) -> (r: Option<&mut [u8]>)
        ensures
            r matches Some(s) ==> old(self).region_bytes(name) == Some(s@),
            r is None ==> old(self).region_bytes(name) is None && *final(self) == *old(self),
            r matches Some(s) ==> (old(self).valid_range(name) matches Some(rg) && final(self).bytes()
                == old(self).bytes().take(rg.start as int) + final(s)@ + old(self).bytes().skip(
                rg.end as int,
            )),
            forall|other: Region| final(self).range_of(other) == old(self).range_of(other),
    {
        if let Some(k) = Self::slot(name) {
            if let Some(range) = &self.region[k] {
                if range.start <= range.end && range.end <= self.memory.len() {
                    let (start, end) = (range.start, range.end);
                    let all = self.memory.as_mut_slice();
                    let (_, rest) = all.split_at_mut(start);
                    let (part, _) = rest.split_at_mut(end - start);
                    return Some(part);
                }
            }
        }
        None
    }

    /// Gets the bytes at `range`, if the whole range lies within the memory.
    pub fn grab(&self, range: Range<usize>) -> (r: Option<&[u8]>)
        ensures
            range.start <= range.end <= self.bytes().len() ==> (r matches Some(s) && s@
                == self.bytes().subrange(range.start as int, range.end as int)),
            !(range.start <= range.end <= self.bytes().len()) ==> r is None,
    {
        if range.start <= range.end && range.end <= self.memory.len() {
            Some(slice_subrange(self.memory.as_slice(), range.start, range.end))
        } else {
            None
        }
    }

    /// The byte at `addr`, or 0 when `addr` lies outside the memory.
    pub fn read_byte(&self, addr: usize) -> (r: u8)
        ensures
            r == byte_at(self.bytes(), addr as int),
    {
        if addr < self.memory.len() {
            self.memory[addr]
        } else {
            0
        }
    }

    /// Writes `data` at `addr`; an address outside the memory is ignored.
    pub fn write_byte(&mut self, addr: usize, data: u8)
        ensures
            final(self).bytes() == write_at(old(self).bytes(), addr as int, data),
            forall|name: Region| final(self).range_of(name) == old(self).range_of(name),
    {
        if addr < self.memory.len() {
            self.memory[addr] = data;
        }
    }

    /// Writes `data` starting at `addr` when all of it fits in the memory; otherwise writes
    /// nothing and reports the range that does not fit.
    pub fn write_bytes(&mut self, addr: usize, data: &[u8]) -> (r: Result<()>)
        ensures
            addr + data@.len() <= old(self).bytes().len() ==> r is Ok && final(self).bytes()
                == overwrite(old(self).bytes(), addr as int, data@),
            addr + data@.len() > old(self).bytes().len() ==> final(self).bytes() == old(self).bytes(),
            addr + data@.len() > old(self).bytes().len() ==> (r matches Err(
                Error::InvalidAddressRange { range: AnyRange::Range(range) },
            ) && range.start == addr && range.end == if addr + data@.len() <= usize::MAX {
                addr + data@.len()
            } else {
                usize::MAX as int
            }),
            forall|name: Region| final(self).range_of(name) == old(self).range_of(name),
    {
        if data.len() <= self.memory.len() && addr <= self.memory.len() - data.len() {
            self.copy_in(addr, data);
            Ok(())
        } else {
            Err(Error::InvalidAddressRange { range: AnyRange::Range(addr..addr.saturating_add(data.len())) })
        }
    }

    /// Gets a mutable slice of the bytes at `range`, if the whole range lies within the
    /// memory.
    pub fn grab_mut(&mut self, range: Range<usize>) -> (r: Option<&mut [u8]>)
        ensures
            range.start <= range.end <= old(self).bytes().len() ==> (r matches Some(s) && s@
                == old(self).bytes().subrange(range.start as int, range.end as int) && final(self).bytes() == old(self).bytes().take(range.start as int) + final(s)@ + old(self).bytes().skip(range.end as int)),
            !(range.start <= range.end <= old(self).bytes().len()) ==> (r is None && *final(self)
                == *old(self)),
            forall|name: Region| final(self).range_of(name) == old(self).range_of(name),
    {
        if range.start <= range.end && range.end <= self.memory.len() {
            let all = self.memory.as_mut_slice();
            let (_, rest) = all.split_at_mut(range.start);
            let (part, _) = rest.split_at_mut(range.end - range.start);
            Some(part)
        } else {
            None
        }
    }

    /// The region of memory called `Screen` as text, at 1bpp using box characters; an
    /// [Error::MissingRegion] when there is no Screen region.
    pub fn print_screen(&self) -> (r: Result<String>)
        requires
            self.region_bytes(Region::Screen) matches Some(b) ==> b.len() >= 4,
        ensures
            self.region_bytes(Region::Screen) matches Some(b) ==> (r matches Ok(text) && text@
                == rows_text(b, row_width(b.len()), b.len())),
            self.region_bytes(Region::Screen) is None ==> (r matches Err(Error::MissingRegion {
                region,
            }) && region == Region::Screen),
    {
        match self.get_region(Region::Screen) {
            Some(screen) => Ok(render_rows(screen)),
            None => Err(Error::MissingRegion { region: Region::Screen }),
        }
    }
}

impl Default for Bus {
    /// An empty memory with no regions
    fn default() -> (r: Self)
        ensures
            r.bytes() == Seq::<u8>::empty(),
            forall|name: Region| r.range_of(name) is None,
    {
        Self::new()
    }
}


/// Adding a region gives one bus, whichever form adds it: two buses that both add `range`
/// under `name` to `bus` (such as what [Bus::add_region] leaves and what
/// [Bus::add_region_owned] returns) have the same bytes and the same regions.
pub proof fn lemma_added_is_determined(bus: Bus, name: Region, range: Range<usize>, a: Bus, b: Bus)
    requires
        bus.added(name, range, a),
        bus.added(name, range, b),
    ensures
        a.bytes() == b.bytes(),
        forall|n: Region| a.range_of(n) == b.range_of(n),
{
    assert forall|n: Region| a.range_of(n) == b.range_of(n) by {
        if n != name {
        }
    }
}

/// What is written through the slice that [Bus::get_region_mut] hands out lands in the region:
/// afterwards [Bus::get_region] gives the slice's final contents, and no byte outside the
/// region changed.
pub proof fn lemma_region_write_lands(
    before: Bus,
    after: Bus,
    name: Region,
    region: Range<usize>,
    written: Seq<u8>,
)
    requires
        before.valid_range(name) == Some(region),
        written.len() == region.end - region.start,
        after.bytes() == before.bytes().take(region.start as int) + written + before.bytes().skip(
            region.end as int,
        ),
        forall|other: Region| after.range_of(other) == before.range_of(other),
    ensures
        after.region_bytes(name) == Some(written),
        after.bytes().len() == before.bytes().len(),
        forall|a: int|
            0 <= a < before.bytes().len() && !(region.start <= a < region.end) ==> after.bytes()[a]
                == before.bytes()[a],
{
    assert(after.bytes().subrange(region.start as int, region.end as int) =~= written);
}

} // verus!
