//! Selects the memory behavior of the [super::CPU]
//!
//! Since [Quirks] implements [`From<Mode>`],
//! this can be used to select the appropriate quirk-set

use super::quirks::{quirks_of, Quirks};
use crate::error::Error;
use crate::text::push_str;
use std::str::FromStr;
use vstd::prelude::*;

verus! {

/// Selects the memory behavior of the interpreter
#[derive(Clone, Copy, Debug, PartialEq, Eq, Structural, PartialOrd, Ord, Hash)]
pub enum Mode {
    /// VIP emulation mode
    Chip8,
    /// Super Chip emulation mode
    SChip,
    /// XO-Chip emulation mode
    XOChip,
}

/// The display name of a mode.
pub open spec fn mode_name(mode: Mode) -> Seq<char> {
    match mode {
        Mode::Chip8 => "Chip-8"@,
        Mode::SChip => "Super Chip"@,
        Mode::XOChip => "XO-Chip"@,
    }
}

/// `c` with ASCII upper-case letters mapped to lower case.
pub open spec fn ascii_lower(c: char) -> char {
    if 'A' <= c <= 'Z' {
        ((c as u32) + 32) as char
    } else {
        c
    }
}

/// `s` with its ASCII upper-case letters mapped to lower case.
pub open spec fn ascii_lowercase(s: Seq<char>) -> Seq<char> {
    s.map_values(|c: char| ascii_lower(c))
}

/// The mode that a name selects, compared without regard to case, if any.
pub open spec fn mode_named(s: Seq<char>) -> Option<Mode> {
    let l = ascii_lowercase(s);
    if l == "chip"@ || l == "chip8"@ || l == "chip-8"@ {
        Some(Mode::Chip8)
    } else if l == "s"@ || l == "schip"@ || l == "superchip"@ || l == "super chip"@ {
        Some(Mode::SChip)
    } else if l == "xo"@ || l == "xochip"@ || l == "xo-chip"@ {
        Some(Mode::XOChip)
    } else {
        None
    }
}

/// The mode with index `value` (`0`, `1`, `2`); any other index selects [Mode::Chip8].
pub open spec fn mode_of_index(value: usize) -> Mode {
    if value == 1 {
        Mode::SChip
    } else if value == 2 {
        Mode::XOChip
    } else {
        Mode::Chip8
    }
}

/// The quirk set that a mode selects.
pub open spec fn mode_quirks(mode: Mode) -> Quirks {
    match mode {
        Mode::Chip8 => quirks_of(false),
        Mode::SChip => quirks_of(true),
        Mode::XOChip => Quirks {
            bin_ops: true,
            shift: false,
            draw_wait: true,
            screen_wrap: true,
            dma_inc: false,
            stupid_jumps: false,
        },
    }
}

/// A mode's display name parses back to that mode.
pub proof fn lemma_name_parses(mode: Mode)
    ensures
        mode_named(mode_name(mode)) == Some(mode),
{
    reveal_strlit("Chip-8");
    reveal_strlit("Super Chip");
    reveal_strlit("XO-Chip");
    reveal_strlit("chip");
    reveal_strlit("chip8");
    reveal_strlit("chip-8");
    reveal_strlit("s");
    reveal_strlit("schip");
    reveal_strlit("superchip");
    reveal_strlit("super chip");
    reveal_strlit("xo");
    reveal_strlit("xochip");
    reveal_strlit("xo-chip");
    let l = ascii_lowercase(mode_name(mode));
    match mode {
        Mode::Chip8 => {
            assert(l =~= "chip-8"@);
            assert(l != "chip"@ && l != "chip8"@);
        },
        Mode::SChip => {
            assert(l =~= "super chip"@);
            assert(l.len() != "chip"@.len() && l.len() != "chip8"@.len() && l.len() != "chip-8"@.len());
            assert(l != "s"@ && l != "schip"@ && l != "superchip"@);
        },
        Mode::XOChip => {
            assert(l =~= "xo-chip"@);
            assert(l.len() != "chip"@.len() && l.len() != "chip8"@.len());
            assert(l[0] != "chip-8"@[0]);
            assert(l.len() != "s"@.len() && l.len() != "schip"@.len() && l.len() != "superchip"@.len() && l.len() != "super chip"@.len());
            assert(l != "xo"@ && l != "xochip"@);
        },
    }
}

/// Lower-cases the ASCII letters of `s`.
fn to_ascii_lowercase(s: &str) -> (r: Vec<char>)
    ensures
        r@ == ascii_lowercase(s@),
{
    let len = s.unicode_len();
    let mut r: Vec<char> = Vec::new();
    let mut i: usize = 0;
    while i < len
        invariant
            len == s@.len(),
            i <= len,
            r@ == ascii_lowercase(s@.take(i as int)),
        decreases len - i,
    {
        let c = s.get_char(i);
        let l = if 'A' <= c && c <= 'Z' {
            char_from_code((c as u32) + 32)
        } else {
            c
        };
        r.push(l);
        assert(s@.take(i + 1) =~= s@.take(i as int).push(c));
        assert(ascii_lowercase(s@.take(i + 1)) =~= ascii_lowercase(s@.take(i as int)).push(l));
        i = i + 1;
    }
    assert(s@.take(len as int) =~= s@);
    r
}

/// The character with code `c`, a lower-case ASCII letter.
fn char_from_code(c: u32) -> (r: char)
    requires
        97 <= c <= 122,
    ensures
        r == c as char,
{
    let b = c as u8;
    b as char
}

/// Whether the characters of `v` are those of `t`.
fn chars_equal(v: &Vec<char>, t: &str) -> (r: bool)
    ensures
        r == (v@ == t@),
{
    let len = t.unicode_len();
    if v.len() != len {
        return false;
    }
    let mut i: usize = 0;
    while i < len
        invariant
            len == t@.len(),
            v@.len() == len,
            i <= len,
            forall|j: int| 0 <= j < i ==> v@[j] == t@[j],
        decreases len - i,
    {
        if v[i] != t.get_char(i) {
            return false;
        }
        i = i + 1;
    }
    assert(v@ =~= t@);
    true
}

impl Mode {
    /// Parses a mode's name, without regard to ASCII case.
    pub fn parse(s: &str) -> (r: Result<Mode, Error>)
        ensures
            mode_named(s@) matches Some(m) ==> r == Ok::<Mode, Error>(m),
            mode_named(s@) is None ==> (r matches Err(Error::InvalidMode { mode }) && mode@ == s@),
    {
        let l = to_ascii_lowercase(s);
        if chars_equal(&l, "chip") || chars_equal(&l, "chip8") || chars_equal(&l, "chip-8") {
            Ok(Mode::Chip8)
        } else if chars_equal(&l, "s") || chars_equal(&l, "schip") || chars_equal(&l, "superchip")
            || chars_equal(&l, "super chip") {
            Ok(Mode::SChip)
        } else if chars_equal(&l, "xo") || chars_equal(&l, "xochip") || chars_equal(&l, "xo-chip") {
            Ok(Mode::XOChip)
        } else {
            let mut mode = String::new();
            push_str(&mut mode, s);
            Err(Error::InvalidMode { mode })
        }
    }

    /// The display name of this mode.
    pub fn as_str(&self) -> (r: &'static str)
        ensures
            r@ == mode_name(*self),
    {
        match self {
            Mode::Chip8 => "Chip-8",
            Mode::SChip => "Super Chip",
            Mode::XOChip => "XO-Chip",
        }
    }

    /// The display name of this mode, as a [String].
    pub fn to_string(&self) -> (r: String)
        ensures
            r@ == mode_name(*self),
    {
        let mut r = String::new();
        push_str(&mut r, self.as_str());
        r
    }
}

impl FromStr for Mode {
    type Err = Error;

    fn from_str(s: &str) -> (r: Result<Self, Self::Err>)
        ensures
            mode_named(s@) matches Some(m) ==> r == Ok::<Mode, Error>(m),
            mode_named(s@) is None ==> (r matches Err(Error::InvalidMode { mode }) && mode@ == s@),
    {
        Mode::parse(s)
    }
}

impl AsRef<str> for Mode {
    fn as_ref(&self) -> (r: &str)
        ensures
            r@ == mode_name(*self),
    {
        self.as_str()
    }
}

impl Default for Mode {
    /// VIP emulation mode
    fn default() -> (r: Self)
        ensures
            r == Mode::Chip8,
    {
        Mode::Chip8
    }
}

impl From<usize> for Mode {
    fn from(value: usize) -> (r: Self)
        ensures
            r == mode_of_index(value),
    {
        if value == 1 {
            Self::SChip
        } else if value == 2 {
            Self::XOChip
        } else {
            Self::Chip8
        }
    }
}

impl vstd::std_specs::convert::FromSpecImpl<usize> for Mode {
    open spec fn obeys_from_spec() -> bool {
        true
    }

    open spec fn from_spec(v: usize) -> Self {
        mode_of_index(v)
    }
}

impl From<Mode> for Quirks {
    fn from(value: Mode) -> (r: Self)
        ensures
            r == mode_quirks(value),
    {
        match value {
            Mode::Chip8 => false.into(),
            Mode::SChip => true.into(),
            Mode::XOChip => Self {
                bin_ops: true,
                shift: false,
                draw_wait: true,
                screen_wrap: true,
                dma_inc: false,
                stupid_jumps: false,
            },
        }
    }
}

impl vstd::std_specs::convert::FromSpecImpl<Mode> for Quirks {
    open spec fn obeys_from_spec() -> bool {
        true
    }

    open spec fn from_spec(v: Mode) -> Self {
        mode_quirks(v)
    }
}

} // verus!
