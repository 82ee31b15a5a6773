//! Traits for automatically serializing and deserializing Rust primitive types.
//!
//! Users of this module should impl [Grab] for their type, which returns `&[u8]` and
//! `&mut [u8]`

use crate::cpu::mem::{overwrite, word_bytes, Mem};
use crate::cpu::state::word_at;
use crate::error::any_range::AnyRange;
use crate::error::{Error, Result};
use crate::screen::Screen;
use std::ops::Range;
use vstd::prelude::*;

verus! {

/// Get raw bytes at a range of addresses.
pub trait Grab {
    /// The bytes of the object.
    spec fn grab_bytes(&self) -> Seq<u8>;

    /// Gets the slice of Self at `range`, if the whole range lies within it
    fn grab(&self, range: Range<usize>) -> (r: Option<&[u8]>)
        ensures
            range.start <= range.end <= self.grab_bytes().len() ==> (r matches Some(s) && s@
                == self.grab_bytes().subrange(range.start as int, range.end as int)),
            !(range.start <= range.end <= self.grab_bytes().len()) ==> r is None,
    ;

    /// Gets a mutable slice of Self at `range`, if the whole range lies within it; what is
    /// written through the slice lands there
    fn grab_mut(&mut self, range: Range<usize>) -> (r: Option<&mut [u8]>)
        ensures
            range.start <= range.end <= old(self).grab_bytes().len() ==> (r matches Some(s) && s@
                == old(self).grab_bytes().subrange(range.start as int, range.end as int)
                && final(self).grab_bytes() == old(self).grab_bytes().take(range.start as int)
                + final(s)@ + old(self).grab_bytes().skip(range.end as int)),
            !(range.start <= range.end <= old(self).grab_bytes().len()) ==> (r is None
                && final(self).grab_bytes() == old(self).grab_bytes()),
    ;
}

/// Read a T from address `addr`, and return the value as a [Result]
pub trait FallibleAutoCast<T>: Grab {
    /// The T at `addr`, when all of its bytes lie in the object
    spec fn decoded(&self, addr: usize) -> Option<T>;

    /// The bytes of the object after writing `data` at `addr` (unchanged when it does not
    /// fit)
    spec fn encoded(&self, addr: usize, data: T) -> Seq<u8>;

    /// Read a T from address `addr`, returning the value as a [Result]
    fn read_fallible(&self, addr: usize) -> (r: Result<T>)
        requires
            addr <= usize::MAX - 16,
        ensures
            self.decoded(addr) matches Some(v) ==> r == Ok::<T, Error>(v),
            self.decoded(addr) is None ==> r is Err,
    ;

    /// Write a T to address `addr`, returning the value as a [Result]
    fn write_fallible(&mut self, addr: usize, data: T) -> (r: Result<()>)
        requires
            addr <= usize::MAX - 16,
        ensures
            r is Ok,
            final(self).grab_bytes() == old(self).encoded(addr, data),
    ;
}

/// Read or Write a T at address `addr`, *discarding errors*
pub trait AutoCast<T>: FallibleAutoCast<T> {
    /// What is read where no T fits
    spec fn fallback() -> T;

    /// Reads a T from address `addr`
    fn read(&self, addr: usize) -> (r: T)
        requires
            addr <= usize::MAX - 16,
        ensures
            self.decoded(addr) matches Some(v) ==> r == v,
            self.decoded(addr) is None ==> r == Self::fallback(),
    ;

    /// Writes a T to address `addr`
    fn write(&mut self, addr: usize, data: T)
        requires
            addr <= usize::MAX - 16,
        ensures
            final(self).grab_bytes() == old(self).encoded(addr, data),
    ;
}

/// The big-endian word at `addr` of `bytes`, when both of its bytes lie there.
pub open spec fn word_in(bytes: Seq<u8>, addr: usize) -> Option<u16> {
    if addr + 2 <= bytes.len() {
        Some(word_at(bytes, addr as int))
    } else {
        None
    }
}

/// `bytes` with the big-endian word `data` at `addr`, when it fits.
pub open spec fn with_word(bytes: Seq<u8>, addr: usize, data: u16) -> Seq<u8> {
    if addr + 2 <= bytes.len() {
        overwrite(bytes, addr as int, word_bytes(data))
    } else {
        bytes
    }
}

impl FallibleAutoCast<u16> for Mem {
    open spec fn decoded(&self, addr: usize) -> Option<u16> {
        word_in(self.grab_bytes(), addr)
    }

    open spec fn encoded(&self, addr: usize, data: u16) -> Seq<u8> {
        with_word(self.grab_bytes(), addr, data)
    }

    fn read_fallible(&self, addr: usize) -> (r: Result<u16>) {
        match self.grab(addr..addr + 2) {
            Some(bytes) => Ok((bytes[0] as u16) * 256 + bytes[1] as u16),
            None => Err(Error::InvalidAddressRange { range: AnyRange::Range(addr..addr + 2) }),
        }
    }

    fn write_fallible(&mut self, addr: usize, data: u16) -> (r: Result<()>) {
        if let Some(slice) = self.grab_mut(addr..addr + 2) {
            slice[0] = (data / 256) as u8;
            slice[1] = (data % 256) as u8;
            assert(slice@ =~= word_bytes(data));
        }
        Ok(())
    }
}

impl AutoCast<u16> for Mem {
    open spec fn fallback() -> u16 {
        0
    }

    fn read(&self, addr: usize) -> (r: u16) {
        match self.read_fallible(addr) {
            Ok(word) => word,
            Err(_) => 0,
        }
    }

    fn write(&mut self, addr: usize, data: u16) {
        let _ = self.write_fallible(addr, data);
    }
}

impl FallibleAutoCast<u16> for Screen {
    open spec fn decoded(&self, addr: usize) -> Option<u16> {
        word_in(self.grab_bytes(), addr)
    }

    open spec fn encoded(&self, addr: usize, data: u16) -> Seq<u8> {
        with_word(self.grab_bytes(), addr, data)
    }

    fn read_fallible(&self, addr: usize) -> (r: Result<u16>) {
        match self.grab(addr..addr + 2) {
            Some(bytes) => Ok((bytes[0] as u16) * 256 + bytes[1] as u16),
            None => Err(Error::InvalidAddressRange { range: AnyRange::Range(addr..addr + 2) }),
        }
    }

    fn write_fallible(&mut self, addr: usize, data: u16) -> (r: Result<()>) {
        if let Some(slice) = self.grab_mut(addr..addr + 2) {
            slice[0] = (data / 256) as u8;
            slice[1] = (data % 256) as u8;
            assert(slice@ =~= word_bytes(data));
        }
        Ok(())
    }
}

impl AutoCast<u16> for Screen {
    open spec fn fallback() -> u16 {
        0
    }

    fn read(&self, addr: usize) -> (r: u16) {
        match self.read_fallible(addr) {
            Ok(word) => word,
            Err(_) => 0,
        }
    }

    fn write(&mut self, addr: usize, data: u16) {
        let _ = self.write_fallible(addr, data);
    }
}

} // verus!
