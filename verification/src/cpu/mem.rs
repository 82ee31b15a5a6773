//! The Mem represents the CPU's memory
//!
//! Contains some handy utils for reading and writing

use crate::error::any_range::AnyRange;
use crate::error::{Error, Result};
use crate::traits::Grab;
use std::ops::Range;
use vstd::prelude::*;
use vstd::slice::slice_subrange;

verus! {

/// Represents a named region in memory
#[derive(Clone, Copy, Debug, PartialEq, Eq, Structural, PartialOrd, Ord, Hash)]
#[non_exhaustive]
pub enum Region {
    /// Character ROM (but writable!)
    Charset,
    /// Program memory
    Program,
    /// Total number of named regions
    Count,
}

/// The display name of a region (empty for [Region::Count]).
pub open spec fn region_name(name: Region) -> Seq<char> {
    match name {
        Region::Charset => seq!['C', 'h', 'a', 'r', 's', 'e', 't'],
        Region::Program => seq!['P', 'r', 'o', 'g', 'r', 'a', 'm'],
        Region::Count => Seq::empty(),
    }
}

impl Region {
    /// The display name of this region (empty for [Region::Count]).
    pub fn name(&self) -> (r: &'static str)
        ensures
            r@ == region_name(*self),
    {
        proof {
            reveal_strlit("Charset");
            reveal_strlit("Program");
            reveal_strlit("");
        }
        match self {
            Region::Charset => "Charset",
            Region::Program => "Program",
            Region::Count => "",
        }
    }
}

/// Stores memory in a series of named regions with ranges
#[derive(Clone, Debug, PartialEq)]
pub struct Mem {
    memory: Vec<u8>,
    region: [Option<Range<usize>>; 2],
}

/// The slot in which a region's range is kept; [Region::Count] has none.
pub open spec fn region_slot(name: Region) -> Option<int> {
    match name {
        Region::Charset => Some(0),
        Region::Program => Some(1),
        Region::Count => None,
    }
}

/// `bytes` grown with zeroes to at least `size` bytes; never truncated.
pub open spec fn grown(bytes: Seq<u8>, size: nat) -> Seq<u8> {
    if bytes.len() < size {
        bytes + Seq::new((size - bytes.len()) as nat, |i: int| 0u8)
    } else {
        bytes
    }
}

/// `bytes` with `data` written over it starting at `start`.
pub open spec fn overwrite(bytes: Seq<u8>, start: int, data: Seq<u8>) -> Seq<u8> {
    bytes.take(start) + data + bytes.skip(start + data.len())
}

impl Mem {
    /// The backing memory.
    pub closed spec fn bytes(&self) -> Seq<u8> {
        self.memory@
    }

    /// The range named `name`, if one was added.
    pub closed spec fn range_of(&self, name: Region) -> Option<Range<usize>> {
        match region_slot(name) {
            Some(k) => self.region@[k],
            None => None,
        }
    }

    /// The range named `name`, if it was added and lies within the backing memory.
    pub open spec fn valid_range(&self, name: Region) -> Option<Range<usize>> {
        match self.range_of(name) {
            Some(r) => if r.start <= r.end <= self.bytes().len() {
                Some(r)
            } else {
                None
            },
            None => None,
        }
    }

    fn slot(name: Region) -> (r: Option<usize>)
        ensures
            r matches Some(k) ==> region_slot(name) == Some(k as int),
            r is None ==> region_slot(name) is None,
    {
        match name {
            Region::Charset => Some(0),
            Region::Program => Some(1),
            Region::Count => None,
        }
    }

    /// Constructs a new, empty memory with no regions.
    pub fn new() -> (r: Self)
        ensures
            r.bytes() == Seq::<u8>::empty(),
            forall|name: Region| r.range_of(name) is None,
    {
        Mem { memory: Vec::new(), region: [None, None] }
    }

    /// Gets the length of the backing memory
    pub fn len(&self) -> (r: usize)
        ensures
            r == self.bytes().len(),
    {
        self.memory.len()
    }

    /// Returns true if the backing memory contains no elements
    pub fn is_empty(&self) -> (r: bool)
        ensures
            r == (self.bytes().len() == 0),
    {
        self.memory.len() == 0
    }

    /// Grows the backing memory to at least `size` bytes, but does not truncate
    pub fn with_size(&mut self, size: usize)
        ensures
            final(self).bytes() == grown(old(self).bytes(), size as nat),
            forall|name: Region| final(self).range_of(name) == old(self).range_of(name),
    {
        let len = self.memory.len();
        if len < size {
            let mut k = len;
            while k < size
                invariant
                    len <= k <= size,
                    self.memory@ == old(self).memory@ + Seq::new((k - len) as nat, |i: int| 0u8),
                    self.region == old(self).region,
                decreases size - k,
            {
                self.memory.push(0);
                k = k + 1;
                assert(self.memory@ =~= old(self).memory@ + Seq::new((k - len) as nat, |i: int| 0u8));
            }
        }
    }

    /// Adds a new named range ([Region]) to a [Mem], growing the memory to hold it
    pub fn add_region(&mut self, name: Region, range: Range<usize>) -> (r: &mut Self)
        ensures
            *final(r) == *final(self),
            r.bytes() == grown(old(self).bytes(), range.end as nat),
            r.range_of(name) == (if name == Region::Count { None } else { Some(range) }),
            forall|other: Region| other != name ==> r.range_of(other) == old(self).range_of(other),
    {
        self.with_size(range.end);
        if let Some(k) = Self::slot(name) {
            self.region[k] = Some(range);
        }
        self
    }

    /// Adds a new named range ([Region]) to an owned [Mem]
    pub fn add_region_owned(self, name: Region, range: Range<usize>) -> (r: Self)
        ensures
            r.bytes() == grown(self.bytes(), range.end as nat),
            r.range_of(name) == (if name == Region::Count { None } else { Some(range) }),
            forall|other: Region| other != name ==> r.range_of(other) == self.range_of(other),
    {
        let mut mem = self;
        mem.add_region(name, range);
        mem
    }

    /// Updates an existing [Region], growing the memory to hold it
    pub fn set_region(&mut self, name: Region, range: Range<usize>) -> (r: &mut Self)
        ensures
            *final(r) == *final(self),
            r.bytes() == grown(old(self).bytes(), range.end as nat),
            r.range_of(name) == (if name == Region::Count { None } else { Some(range) }),
            forall|other: Region| other != name ==> r.range_of(other) == old(self).range_of(other),
    {
        self.add_region(name, range)
    }

    /// The bytes of the range named `name`, if it was added and lies within the memory.
    pub open spec fn region_bytes(&self, name: Region) -> Option<Seq<u8>> {
        match self.valid_range(name) {
            Some(r) => Some(self.bytes().subrange(r.start as int, r.end as int)),
            None => None,
        }
    }

    /// Whether `data` fits in the region named `name` (or there is no such region to load).
    pub open spec fn fits(&self, name: Region, data: Seq<u8>) -> bool {
        self.valid_range(name) matches Some(r) ==> data.len() <= r.end - r.start
    }

    /// The memory after loading `data` at the start of the region named `name`, which is
    /// unchanged when there is no such region.
    pub open spec fn loaded(&self, name: Region, data: Seq<u8>) -> Seq<u8> {
        match self.valid_range(name) {
            Some(r) => overwrite(self.bytes(), r.start as int, data),
            None => self.bytes(),
        }
    }

    /// Writes `data` over the bytes starting at `start`.
    fn copy_in(&mut self, start: usize, data: &[u8])
        requires
            start + data@.len() <= old(self).bytes().len(),
        ensures
            final(self).bytes() == overwrite(old(self).bytes(), start as int, data@),
            forall|name: Region| final(self).range_of(name) == old(self).range_of(name),
    {
        let mut k: usize = 0;
        while k < data.len()
            invariant
                start + data@.len() <= old(self).bytes().len(),
                k <= data@.len(),
                self.memory@.len() == old(self).memory@.len(),
                start + data@.len() <= self.memory.len(),
                self.region == old(self).region,
                self.memory@ == overwrite(old(self).memory@, start as int, data@.take(k as int)),
            decreases data@.len() - k,
        {
            let idx = start + k;
            self.memory[idx] = data[k];
            k = k + 1;
            assert(self.memory@ =~= overwrite(
                old(self).memory@,
                start as int,
                data@.take(k as int),
            ));
        }
        assert(data@.take(k as int) =~= data@);
    }

    /// Loads data into a named [Region]; a missing region is left alone.
    ///
    /// `data` must fit in the region: a longer one cannot be copied into it.
    pub fn load_region(&mut self, name: Region, data: &[u8]) -> (r: Result<&mut Self>)
        requires
            old(self).fits(name, data@),
        ensures
            r is Ok,
            r matches Ok(m) ==> *final(m) == *final(self),
            r matches Ok(m) ==> m.bytes() == old(self).loaded(name, data@),
            r matches Ok(m) ==> forall|other: Region| m.range_of(other) == old(self).range_of(
                other,
            ),
    {
        if let Some(k) = Self::slot(name) {
            if let Some(range) = &self.region[k] {
                if range.start <= range.end && range.end <= self.memory.len() {
                    let start = range.start;
                    self.copy_in(start, data);
                }
            }
        }
        Ok(self)
    }

    /// Loads data into a [Region] on an *owned* [Mem], for use during initialization
    pub fn load_region_owned(self, name: Region, data: &[u8]) -> (r: Self)
        requires
            self.fits(name, data@),
        ensures
            r.bytes() == self.loaded(name, data@),
            forall|other: Region| r.range_of(other) == self.range_of(other),
    {
        let mut mem = self;
        let _ = mem.load_region(name, data);
        mem
    }

    /// Fills a [Region] with zeroes; a missing region is left alone.
    pub fn clear_region(&mut self, name: Region) -> (r: &mut Self)
        ensures
            *final(r) == *final(self),
            forall|other: Region| r.range_of(other) == old(self).range_of(other),
            r.bytes() == (match old(self).valid_range(name) {
                Some(rg) => overwrite(
                    old(self).bytes(),
                    rg.start as int,
                    Seq::new((rg.end - rg.start) as nat, |i: int| 0u8),
                ),
                None => old(self).bytes(),
            }),
    {
        if let Some(k) = Self::slot(name) {
            if let Some(range) = &self.region[k] {
                if range.start <= range.end && range.end <= self.memory.len() {
                    let (start, end) = (range.start, range.end);
                    let ghost zeros = Seq::new((end - start) as nat, |i: int| 0u8);
                    let mut a = start;
                    while a < end
                        invariant
                            start <= a <= end <= self.memory@.len(),
                            self.memory@.len() == old(self).memory@.len(),
                            zeros == Seq::new((end - start) as nat, |i: int| 0u8),
                            self.region == old(self).region,
                            self.memory@ == overwrite(
                                old(self).memory@,
                                start as int,
                                zeros.take(a - start),
                            ),
                        decreases end - a,
                    {
                        self.memory[a] = 0;
                        assert(zeros.take(a + 1 - start) =~= zeros.take(a - start).push(0u8));
                        a = a + 1;
                        assert(self.memory@ =~= overwrite(
                            old(self).memory@,
                            start as int,
                            zeros.take(a - start),
                        ));
                    }
                    assert(zeros.take(end - start) =~= zeros);
                }
            }
        }
        self
    }

    /// Gets a slice of a named [Region] of memory, if it was added and lies within the memory.
    pub fn get_region(&self, name: Region) -> (r: Option<&[u8]>)
        ensures
            r matches Some(s) ==> self.region_bytes(name) == Some(s@),
            r is None ==> self.region_bytes(name) is None,
    {
        if let Some(k) = Self::slot(name) {
            if let Some(range) = &self.region[k] {
                if range.start <= range.end && range.end <= self.memory.len() {
                    return Some(slice_subrange(self.memory.as_slice(), range.start, range.end));
                }
            }
        }
        None
    }

    /// Gets a mutable slice of a named [Region] of memory, if it was added and lies within the
    /// memory. What is written through the slice lands in that region.
    pub fn get_region_mut(&mut self, name: Region) -> (r: Option<&mut [u8]>)
        ensures
            r matches Some(s) ==> old(self).region_bytes(name) == Some(s@),
            r is None ==> old(self).region_bytes(name) is None && *final(self) == *old(self),
            r matches Some(s) ==> (old(self).valid_range(name) matches Some(rg) && final(self).bytes()
                == old(self).bytes().take(rg.start as int) + final(s)@ + old(self).bytes().skip(
                rg.end as int,
            )),
            forall|other: Region| final(self).range_of(other) == old(self).range_of(other),
    {
        if let Some(k) = Self::slot(name) {
            if let Some(range) = &self.region[k] {
                if range.start <= range.end && range.end <= self.memory.len() {
                    let (start, end) = (range.start, range.end);
                    let all = self.memory.as_mut_slice();
                    let (_, rest) = all.split_at_mut(start);
                    let (part, _) = rest.split_at_mut(end - start);
                    return Some(part);
                }
            }
        }
        None
    }

    /// The byte at `addr`, or 0 when `addr` lies outside the memory.
    pub fn read_byte(&self, addr: usize) -> (r: u8)
        ensures
            r == byte_at(self.bytes(), addr as int),
    {
        if addr < self.memory.len() {
            self.memory[addr]
        } else {
            0
        }
    }

    /// Writes `data` at `addr`; an address outside the memory is ignored.
    pub fn write_byte(&mut self, addr: usize, data: u8)
        ensures
            final(self).bytes() == write_at(old(self).bytes(), addr as int, data),
            forall|name: Region| final(self).range_of(name) == old(self).range_of(name),
    {
        if addr < self.memory.len() {
            self.memory[addr] = data;
        }
    }

    /// Writes `data` starting at `addr` when all of it fits in the memory; otherwise writes
    /// nothing and reports the range that does not fit.
    pub fn write_bytes(&mut self, addr: usize, data: &[u8]) -> (r: Result<()>)
        ensures
            addr + data@.len() <= old(self).bytes().len() ==> r is Ok && final(self).bytes()
                == overwrite(old(self).bytes(), addr as int, data@),
            addr + data@.len() > old(self).bytes().len() ==> final(self).bytes() == old(
                self,
            ).bytes(),
            addr + data@.len() > old(self).bytes().len() ==> (r matches Err(
                Error::InvalidAddressRange { range: AnyRange::Range(range) },
            ) && range.start == addr && range.end == if addr + data@.len() <= usize::MAX {
                addr + data@.len()
            } else {
                usize::MAX as int
            }),
            forall|name: Region| final(self).range_of(name) == old(self).range_of(name),
    {
        if data.len() <= self.memory.len() && addr <= self.memory.len() - data.len() {
            self.copy_in(addr, data);
            Ok(())
        } else {
            Err(Error::InvalidAddressRange { range: AnyRange::Range(addr..addr.saturating_add(data.len())) })
        }
    }
}

impl Grab for Mem {
    open spec fn grab_bytes(&self) -> Seq<u8> {
        self.bytes()
    }

    fn grab(&self, range: Range<usize>) -> (r: Option<&[u8]>) {
        if range.start <= range.end && range.end <= self.memory.len() {
            Some(slice_subrange(self.memory.as_slice(), range.start, range.end))
        } else {
            None
        }
    }

    fn grab_mut(&mut self, range: Range<usize>) -> (r: Option<&mut [u8]>) {
        if range.start <= range.end && range.end <= self.memory.len() {
            let all = self.memory.as_mut_slice();
            let (_, rest) = all.split_at_mut(range.start);
            let (part, _) = rest.split_at_mut(range.end - range.start);
            Some(part)
        } else {
            None
        }
    }
}

/// The byte at `addr` of `bytes`, or 0 when `addr` lies outside them.
pub open spec fn byte_at(bytes: Seq<u8>, addr: int) -> u8 {
    if 0 <= addr < bytes.len() {
        bytes[addr]
    } else {
        0
    }
}

/// `bytes` with `data` written at `addr`, or unchanged when `addr` lies outside them.
pub open spec fn write_at(bytes: Seq<u8>, addr: int, data: u8) -> Seq<u8> {
    if 0 <= addr < bytes.len() {
        bytes.update(addr, data)
    } else {
        bytes
    }
}

/// The big-endian bytes of a word.
pub open spec fn word_bytes(data: u16) -> Seq<u8> {
    seq![(data / 256) as u8, (data % 256) as u8]
}

/// Reading a byte back gives what was written there (0 outside memory), and writing leaves
/// every other byte, and the length, as they were.
pub proof fn lemma_write_then_read(bytes: Seq<u8>, addr: int, data: u8, other: int)
    requires
        other != addr,
    ensures
        byte_at(write_at(bytes, addr, data), addr) == (if 0 <= addr < bytes.len() {
            data
        } else {
            0
        }),
        byte_at(write_at(bytes, addr, data), other) == byte_at(bytes, other),
        write_at(bytes, addr, data).len() == bytes.len(),
{
}

/// Growing memory never truncates it: its bytes stay, and it is at least as large as asked.
pub proof fn lemma_grown_keeps(bytes: Seq<u8>, size: nat)
    ensures
        grown(bytes, size).len() >= size,
        grown(bytes, size).len() >= bytes.len(),
        grown(bytes, size).take(bytes.len() as int) == bytes,
        forall|a: int| bytes.len() <= a < grown(bytes, size).len() ==> grown(bytes, size)[a] == 0,
{
    assert(grown(bytes, size).take(bytes.len() as int) =~= bytes);
}

impl Default for Mem {
    /// An empty memory with no regions
    fn default() -> (r: Self)
        ensures
            r.bytes() == Seq::<u8>::empty(),
            forall|name: Region| r.range_of(name) is None,
    {
        Self::new()
    }
}

} // verus!
