//! Iterators for working with Busses

use super::{Bus, Read};
use std::ops::Range;
use vstd::prelude::*;

verus! {

/// An iterator that hands out mutable references
pub trait IterMut<'a> {
    /// The items handed out
    type Item;

    /// The next item, if any
    fn next(&'a mut self) -> Option<&'a mut Self::Item>;
}

/// Conversion into an [IterMut]
pub trait IntoIterMut<'a> {
    /// The items handed out
    type Item;

    /// The iterator
    type IntoIter;

    /// Converts into the iterator
    fn into_iter(self) -> Self::IntoIter;
}

/// Reads the bytes of a [Bus] over a range of addresses
pub struct BusIterator<'a> {
    range: Range<u16>,
    addr: u16,
    bus: &'a Bus,
}

impl<'a> BusIterator<'a> {
    /// The addresses to read.
    pub closed spec fn range_spec(&self) -> Range<u16> {
        self.range
    }

    /// The next address to read.
    pub closed spec fn addr(&self) -> u16 {
        self.addr
    }

    /// The bus read.
    pub closed spec fn bus(&self) -> Bus {
        *self.bus
    }

    /// The bytes still to come: those at the addresses from the next one to the end of the
    /// range, while the next address lies in the range (none otherwise).
    pub open spec fn remaining(&self) -> Seq<u8> {
        if self.range_spec().start <= self.addr() < self.range_spec().end {
            Seq::new(
                (self.range_spec().end - self.addr()) as nat,
                |k: int| <Bus as Read<u8>>::read_spec(&self.bus(), (self.addr() + k) as usize),
            )
        } else {
            Seq::empty()
        }
    }

    /// Creates a new BusIterator with a specified range
    pub fn new(range: Range<u16>, bus: &'a Bus) -> (r: BusIterator<'a>)
        ensures
            r.range_spec() == range,
            r.addr() == range.start,
            r.bus() == *bus,
            r.remaining() == Seq::new(
                (if range.start < range.end {
                    range.end - range.start
                } else {
                    0
                }) as nat,
                |k: int| <Bus as Read<u8>>::read_spec(bus, (range.start + k) as usize),
            ),
    {
        BusIterator { addr: range.start, range, bus }
    }

    /// The same iterator over another range
    pub fn range(self, range: Range<u16>) -> (r: Self)
        ensures
            r.range_spec() == range,
            r.addr() == self.addr(),
            r.bus() == self.bus(),
    {
        BusIterator { range, ..self }
    }

    /// Reads the byte at the next address and moves on, while that address lies in range
    pub fn next(&mut self) -> (r: Option<u8>)
        ensures
            final(self).range_spec() == old(self).range_spec(),
            final(self).bus() == old(self).bus(),
            old(self).range_spec().start <= old(self).addr() < old(self).range_spec().end ==> (r
                == Some::<u8>(old(self).bus().read_spec(old(self).addr() as usize)) && final(self).addr()
                == old(self).addr() + 1),
            !(old(self).range_spec().start <= old(self).addr() < old(self).range_spec().end) ==> (r
                is None && final(self).addr() == old(self).addr()),
            old(self).remaining().len() > 0 ==> r == Some(old(self).remaining()[0])
                && final(self).remaining() == old(self).remaining().drop_first(),
            old(self).remaining().len() == 0 ==> r is None && final(self).remaining() == old(
                self,
            ).remaining(),
    {
        if self.range.start <= self.addr && self.addr < self.range.end {
            let byte: u8 = self.bus.read(self.addr as usize);
            self.addr = self.addr + 1;
            assert(self.remaining() =~= old(self).remaining().drop_first());
            Some(byte)
        } else {
            None
        }
    }
}

} // verus!
