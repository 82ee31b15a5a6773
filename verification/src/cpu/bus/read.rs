//! Traits for reading and writing big-endian integers in a [Bus](super::Bus).

use super::Bus;
use crate::cpu::mem::overwrite;
use crate::cpu::state::word_at;
use crate::error::any_range::AnyRange;
use crate::error::{Error, Result};
use std::ops::Range;
use vstd::prelude::*;

verus! {

/// Gets a `&[T]` at a range of addresses.
pub trait Get<T> {
    /// Gets the slice of Self at `range`
    fn get(&self, range: Range<usize>) -> Option<&[T]>;

    /// Gets a mutable slice of Self at `range`
    fn get_mut(&mut self, range: Range<usize>) -> Option<&mut [T]>;
}

/// Read a T from address `addr`, and return the value as a [Result]
pub trait FallibleReadWrite<T> {
    /// Read a T from address `addr`, returning the value as a [Result]
    fn read_fallible(&self, addr: usize) -> Result<T>
        requires
            addr <= usize::MAX - 16,
    ;

    /// Write a T to address `addr`, returning the value as a [Result]
    fn write_fallible(&mut self, addr: usize, data: T) -> Result<()>
        requires
            addr <= usize::MAX - 16,
    ;
}

/// Read or write a T at address `addr`, with 0 read (and nothing written) where it does not
/// fit. [Bus] reads and writes big-endian words this way; its bytes it reads and writes
/// directly.
pub trait ReadWrite<T> {
    /// Reads a T from address `addr`
    fn read(&self, addr: usize) -> T
        requires
            addr <= usize::MAX - 16,
    ;

    /// Write a T to address `addr`
    fn write(&mut self, addr: usize, data: T)
        requires
            addr <= usize::MAX - 16,
    ;
}

impl Get<u8> for Bus {
    fn get(&self, range: Range<usize>) -> (r: Option<&[u8]>)
        ensures
            range.start <= range.end <= self.bytes().len() ==> (r matches Some(s) && s@
                == self.bytes().subrange(range.start as int, range.end as int)),
            !(range.start <= range.end <= self.bytes().len()) ==> r is None,
    {
        self.grab(range)
    }

    fn get_mut(&mut self, range: Range<usize>) -> (r: Option<&mut [u8]>)
        ensures
            range.start <= range.end <= old(self).bytes().len() ==> (r matches Some(s) && s@
                == old(self).bytes().subrange(range.start as int, range.end as int) && final(self).bytes() == old(self).bytes().take(range.start as int) + final(s)@ + old(self).bytes().skip(range.end as int)),
            !(range.start <= range.end <= old(self).bytes().len()) ==> (r is None && *final(self)
                == *old(self)),
            forall|name: super::Region| final(self).range_of(name) == old(self).range_of(name),
    {
        self.grab_mut(range)
    }
}

impl FallibleReadWrite<u16> for Bus {
    fn read_fallible(&self, addr: usize) -> (r: Result<u16>)
        ensures
            addr + 2 <= self.bytes().len() ==> r == Ok::<u16, Error>(word_at(self.bytes(), addr as int)),
            addr + 2 > self.bytes().len() ==> (r matches Err(Error::InvalidAddressRange { range })
                && range == AnyRange::Range(addr..(addr + 2) as usize)),
    {
        if addr + 2 <= self.len() {
            Ok((self.read_byte(addr) as u16) * 256 + self.read_byte(addr + 1) as u16)
        } else {
            Err(Error::InvalidAddressRange { range: AnyRange::Range(addr..addr + 2) })
        }
    }

    fn write_fallible(&mut self, addr: usize, data: u16) -> (r: Result<()>)
        ensures
            r is Ok,
            addr + 2 <= old(self).bytes().len() ==> final(self).bytes() == overwrite(
                old(self).bytes(),
                addr as int,
                seq![(data / 256) as u8, (data % 256) as u8],
            ),
            addr + 2 > old(self).bytes().len() ==> final(self).bytes() == old(self).bytes(),
            forall|name: super::Region| final(self).range_of(name) == old(self).range_of(name),
    {
        if addr + 2 <= self.len() {
            let bytes: [u8; 2] = [(data / 256) as u8, (data % 256) as u8];
            assert(bytes@ =~= seq![(data / 256) as u8, (data % 256) as u8]);
            let _ = self.write_bytes(addr, bytes.as_slice());
        }
        Ok(())
    }
}

impl ReadWrite<u16> for Bus {
    fn read(&self, addr: usize) -> (r: u16)
        ensures
            r == word_at(self.bytes(), addr as int),
    {
        match self.read_fallible(addr) {
            Ok(word) => word,
            Err(_) => 0,
        }
    }

    fn write(&mut self, addr: usize, data: u16)
        ensures
            addr + 2 <= old(self).bytes().len() ==> final(self).bytes() == overwrite(
                old(self).bytes(),
                addr as int,
                seq![(data / 256) as u8, (data % 256) as u8],
            ),
            addr + 2 > old(self).bytes().len() ==> final(self).bytes() == old(self).bytes(),
            forall|name: super::Region| final(self).range_of(name) == old(self).range_of(name),
    {
        let _ = self.write_fallible(addr, data);
    }
}

} // verus!
