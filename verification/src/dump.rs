//! Hexadecimal and binary dumps of memory, as text.

use crate::cpu::disassemble::{paint, painted};
use crate::text::{bin_text, hex_text, push_bin, push_char, push_hex, push_str};
use owo_colors::Style;
use std::ops::Range;
use vstd::prelude::*;

verus! {

/// A hexdump of a range within the object
pub trait Dumpable {
    /// Whether `range` lies within the object, so that it can be dumped
    spec fn can_dump(&self, range: Range<usize>) -> bool;

    /// A hexdump of a range within the object, as text
    fn dump(&self, range: Range<usize>) -> String
        requires
            self.can_dump(range),
    ;
}

/// A binary dump of a range within the object
pub trait BinDumpable {
    /// A binary dump of a range within the object, as text (none, unless the object gives one)
    fn bin_dump(&self, _range: Range<usize>) -> (r: String)
        default_ensures
            r@ == Seq::<char>::empty(),
    {
        String::new()
    }
}

/// The row label of a dump at `index`: the index in three hexadecimal digits and a colon,
/// each in the style `label`, then a space.
pub open spec fn label_text(index: nat, label: Style) -> Seq<char> {
    painted(hex_text(index, 3, false), label) + painted(":"@, label) + seq![' ']
}

/// The text of byte `byte` at `index` of a hexdump: spaces between pairs and halves of a row,
/// a row label every sixteen bytes (in the style `label`), the byte in hexadecimal, and a
/// line break at the end of a row.
pub open spec fn hexdump_cell(index: nat, byte: u8, label: Style) -> Seq<char> {
    (if index % 2 == 0 {
        seq![' ']
    } else {
        Seq::empty()
    }) + (if index % 8 == 0 {
        seq![' ']
    } else {
        Seq::empty()
    }) + (if index % 16 == 0 {
        label_text(index, label)
    } else {
        Seq::empty()
    }) + hex_text(byte as nat, 2, false) + (if index % 16 == 15 {
        seq!['\n']
    } else {
        Seq::empty()
    })
}

/// The text of byte `byte` at `index` of a binary dump: a row label every eight bytes (in
/// the style `label`), the byte's eight bits and a space, and a line break at the end of a
/// row.
pub open spec fn bindump_cell(index: nat, byte: u8, label: Style) -> Seq<char> {
    (if index % 8 == 0 {
        label_text(index, label)
    } else {
        Seq::empty()
    }) + bin_text(byte as nat, 8) + seq![' '] + (if index % 8 == 7 {
        seq!['\n']
    } else {
        Seq::empty()
    })
}

/// The style of row labels: bold green on black.
fn label_style() -> Style {
    Style::new().bold().green().on_black()
}

/// Appends the row label of a dump at `index` in the style `label`.
fn push_label(s: &mut String, index: usize, label: Style)
    ensures
        final(s)@ == old(s)@ + label_text(index as nat, label),
{
    let mut digits = String::new();
    push_hex(&mut digits, index as u64, 3, false);
    let painted_index = paint(digits.as_str(), label);
    push_str(s, painted_index.as_str());
    let colon = paint(":", label);
    push_str(s, colon.as_str());
    push_char(s, ' ');
    assert(final(s)@ =~= old(s)@ + label_text(index as nat, label));
}

/// The hexdump text of byte `byte` at `index`, its row label in bold green on black
pub fn as_hexdump(index: usize, byte: u8) -> (r: String)
    ensures
        exists|label: Style| r@ == #[trigger] hexdump_cell(index as nat, byte, label),
{
    let label = label_style();
    let mut s = String::new();
    if index % 2 == 0 {
        push_char(&mut s, ' ');
    }
    if index % 8 == 0 {
        push_char(&mut s, ' ');
    }
    if index % 16 == 0 {
        push_label(&mut s, index, label);
    }
    push_hex(&mut s, byte as u64, 2, false);
    if index % 16 == 15 {
        push_char(&mut s, '\n');
    }
    assert(s@ =~= hexdump_cell(index as nat, byte, label));
    s
}

/// The binary-dump text of byte `byte` at `index`, its row label in bold green on black
pub fn as_bindump(index: usize, byte: u8) -> (r: String)
    ensures
        exists|label: Style| r@ == #[trigger] bindump_cell(index as nat, byte, label),
{
    let label = label_style();
    let mut s = String::new();
    if index % 8 == 0 {
        push_label(&mut s, index, label);
    }
    push_bin(&mut s, byte as u64, 8);
    push_char(&mut s, ' ');
    if index % 8 == 7 {
        push_char(&mut s, '\n');
    }
    assert(s@ =~= bindump_cell(index as nat, byte, label));
    s
}

} // verus!
