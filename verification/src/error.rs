//! Error type for Chirp

pub mod any_range;

use self::any_range::AnyRange;
use std::ops::{RangeFrom, RangeInclusive, RangeTo, RangeToInclusive};
use crate::cpu::bus::{bus_region_name, Region};
use crate::text::{hex_text, push_hex, push_str};
use vstd::prelude::*;

verus! {

/// Result type, equivalent to [std::result::Result]<T, [enum@Error]>
pub type Result<T> = std::result::Result<T, Error>;

/// Error type for Chirp.
#[derive(Debug)]
pub enum Error {
    /// Represents a breakpoint being hit
    BreakpointHit {
        /// The address of the breakpoint
        addr: u16,
        /// The instruction after the breakpoint
        next: u16,
    },
    /// Represents an unimplemented operation
    UnimplementedInstruction {
        /// The offending word
        word: u16,
    },
    /// The region you asked for was not defined
    MissingRegion {
        /// The offending [Region]
        region: Region,
    },
    /// Tried to fetch data at [AnyRange] from bus, received nothing
    InvalidAddressRange {
        /// The offending [AnyRange]
        range: AnyRange<usize>,
    },
    /// Tried to press a key that doesn't exist
    InvalidKey {
        /// The offending key
        key: usize,
    },
    /// Tried to get/set an out-of-bounds register
    InvalidRegister {
        /// The offending register
        reg: usize,
    },
    /// Tried to convert string into mode, but it did not match.
    InvalidMode {
        /// The string which failed to become a mode
        mode: String,
    },
}

/// Where a [RangeFrom] starts: its public field `start`.
pub uninterp spec fn range_from_start(range: RangeFrom<usize>) -> usize;

/// Where a [RangeTo] ends: its public field `end`.
pub uninterp spec fn range_to_end(range: RangeTo<usize>) -> usize;

/// Where a [RangeToInclusive] ends: its public field `end`.
pub uninterp spec fn range_to_inclusive_end(range: RangeToInclusive<usize>) -> usize;

/// What `Debug` with lower-case hexadecimal numbers padded to four digits (`{:04x?}`) shows
/// of a [RangeInclusive].
pub uninterp spec fn range_inclusive_debug_hex(range: RangeInclusive<usize>) -> Seq<char>;

/// `RangeFrom::start`, the public field: where the range starts.
#[verifier::external_body]
fn start_of_range_from(range: &RangeFrom<usize>) -> (r: usize)
    ensures
        r == range_from_start(*range),
{
    range.start
}

/// `RangeTo::end`, the public field: where the range ends.
#[verifier::external_body]
fn end_of_range_to(range: &RangeTo<usize>) -> (r: usize)
    ensures
        r == range_to_end(*range),
{
    range.end
}

/// `RangeToInclusive::end`, the public field: where the range ends.
#[verifier::external_body]
fn end_of_range_to_inclusive(range: &RangeToInclusive<usize>) -> (r: usize)
    ensures
        r == range_to_inclusive_end(*range),
{
    range.end
}

/// `<RangeInclusive as Debug>::fmt`, with the `{:04x?}` flags. Its result is named: it depends
/// on the range alone, but it also shows whether the range was iterated to its end, which
/// only the range's private state records.
#[verifier::external_body]
fn range_inclusive_debug(range: &RangeInclusive<usize>) -> (r: String)
    ensures
        r@ == range_inclusive_debug_hex(*range),
{
    format!("{range:04x?}")
}

/// The message of an error, as its display shows it. A range is shown as its `Debug` form
/// with the numbers in four lower-case hexadecimal digits.
pub open spec fn error_text(e: Error) -> Seq<char> {
    match e {
        Error::BreakpointHit { addr, next } => "breakpoint hit: "@ + hex_text(addr as nat, 3, false)
            + " ("@ + hex_text(next as nat, 4, false) + ")"@,
        Error::UnimplementedInstruction { word } => "opcode "@ + hex_text(word as nat, 4, false)
            + " not recognized"@,
        Error::MissingRegion { region } => "region "@ + bus_region_name(region) + " is not present on bus"@,
        Error::InvalidAddressRange { range } => "range "@ + (match range {
            AnyRange::Range(r) => "Range("@ + hex_text(r.start as nat, 4, false) + ".."@ + hex_text(
                r.end as nat,
                4,
                false,
            ) + ")"@,
            AnyRange::RangeFrom(r) => "RangeFrom("@ + hex_text(range_from_start(r) as nat, 4, false)
                + "..)"@,
            AnyRange::RangeFull(_) => "RangeFull(..)"@,
            AnyRange::RangeInclusive(r) => "RangeInclusive("@ + range_inclusive_debug_hex(r) + ")"@,
            AnyRange::RangeTo(r) => "RangeTo(.."@ + hex_text(range_to_end(r) as nat, 4, false) + ")"@,
            AnyRange::RangeToInclusive(r) => "RangeToInclusive(..="@ + hex_text(
                range_to_inclusive_end(r) as nat,
                4,
                false,
            ) + ")"@,
        }) + " is not present on bus"@,
        Error::InvalidKey { key } => "tried to press key "@ + hex_text(key as nat, 1, true)
            + " which does not exist"@,
        Error::InvalidRegister { reg } => "tried to access register v"@ + hex_text(reg as nat, 1, true)
            + " which does not exist"@,
        Error::InvalidMode { mode } => "no suitable conversion of \""@ + mode@ + "\" into Mode"@,
    }
}

impl Error {
    /// The message of this error, as its display shows it
    pub fn text(&self) -> (r: String)
        ensures
            r@ == error_text(*self),
    {
        let mut s = String::new();
        match self {
            Error::BreakpointHit { addr, next } => {
                push_str(&mut s, "breakpoint hit: ");
                push_hex(&mut s, *addr as u64, 3, false);
                push_str(&mut s, " (");
                push_hex(&mut s, *next as u64, 4, false);
                push_str(&mut s, ")");
            },
            Error::UnimplementedInstruction { word } => {
                push_str(&mut s, "opcode ");
                push_hex(&mut s, *word as u64, 4, false);
                push_str(&mut s, " not recognized");
            },
            Error::MissingRegion { region } => {
                push_str(&mut s, "region ");
                push_str(&mut s, region.name());
                push_str(&mut s, " is not present on bus");
            },
            Error::InvalidAddressRange { range } => {
                push_str(&mut s, "range ");
                match range {
                    AnyRange::Range(r) => {
                        push_str(&mut s, "Range(");
                        push_hex(&mut s, r.start as u64, 4, false);
                        push_str(&mut s, "..");
                        push_hex(&mut s, r.end as u64, 4, false);
                        push_str(&mut s, ")");
                    },
                    AnyRange::RangeFrom(r) => {
                        push_str(&mut s, "RangeFrom(");
                        push_hex(&mut s, start_of_range_from(r) as u64, 4, false);
                        push_str(&mut s, "..)");
                    },
                    AnyRange::RangeFull(_) => {
                        push_str(&mut s, "RangeFull(..)");
                    },
                    AnyRange::RangeInclusive(r) => {
                        push_str(&mut s, "RangeInclusive(");
                        let text = range_inclusive_debug(r);
                        push_str(&mut s, text.as_str());
                        push_str(&mut s, ")");
                    },
                    AnyRange::RangeTo(r) => {
                        push_str(&mut s, "RangeTo(..");
                        push_hex(&mut s, end_of_range_to(r) as u64, 4, false);
                        push_str(&mut s, ")");
                    },
                    AnyRange::RangeToInclusive(r) => {
                        push_str(&mut s, "RangeToInclusive(..=");
                        push_hex(&mut s, end_of_range_to_inclusive(r) as u64, 4, false);
                        push_str(&mut s, ")");
                    },
                }
                push_str(&mut s, " is not present on bus");
            },
            Error::InvalidKey { key } => {
                push_str(&mut s, "tried to press key ");
                push_hex(&mut s, *key as u64, 1, true);
                push_str(&mut s, " which does not exist");
            },
            Error::InvalidRegister { reg } => {
                push_str(&mut s, "tried to access register v");
                push_hex(&mut s, *reg as u64, 1, true);
                push_str(&mut s, " which does not exist");
            },
            Error::InvalidMode { mode } => {
                push_str(&mut s, "no suitable conversion of \"");
                push_str(&mut s, mode.as_str());
                push_str(&mut s, "\" into Mode");
            },
        }
        s
    }
}

} // verus!
