//! A disassembler for Chip-8 opcodes

use super::{decode_word, Insn};
use crate::cpu::disassemble::{paint, painted};
use crate::text::{hex_text, push_hex, push_str};
use owo_colors::Style;
use vstd::prelude::*;

verus! {

/// The text that [Dis] shows for `word`: the decoded instruction, or `inval` and the word in
/// hexadecimal when it decodes to none.
pub open spec fn once_text(word: u16) -> Seq<char> {
    match decode_word(word as nat) {
        Some(insn) => insn.spec_text(),
        None => "inval  "@ + hex_text(word as nat, 4, false),
    }
}

/// Disassembles Chip-8 instructions
pub trait Disassembler {
    /// Disassemble a single instruction
    fn once(&self, insn: u16) -> String;
}

/// Disassembles Chip-8 instructions, printing them in the provided [owo_colors::Style]s
#[derive(Clone, Copy, Debug, PartialEq)]
pub struct Dis {
    /// Styles invalid instructions
    pub invalid: Style,
    /// Styles valid instruction
    pub normal: Style,
}

impl Default for Dis {
    /// Invalid instructions in bold red, valid ones in green
    fn default() -> Self {
        Self { invalid: Style::new().bold().red(), normal: Style::new().green() }
    }
}

impl Disassembler for Dis {
    fn once(&self, insn: u16) -> (r: String)
        ensures
            r@ == painted(
                once_text(insn),
                if decode_word(insn as nat) is Some {
                    self.normal
                } else {
                    self.invalid
                },
            ),
            exists|pre: Seq<char>, post: Seq<char>| r@ == pre + once_text(insn) + post,
    {
        let bytes: [u8; 2] = [(insn / 256) as u8, (insn % 256) as u8];
        proof {
            assert(bytes@ =~= seq![(insn / 256) as u8, (insn % 256) as u8]);
            assert(super::word_of(bytes@[0], bytes@[1]) == insn);
        }
        match Insn::decode(bytes.as_slice()) {
            Ok((_, decoded)) => {
                assert(decode_word(insn as nat) == Some(decoded));
                let text = decoded.to_string();
                let r = paint(text.as_str(), self.normal);
                proof {
                    let (pre, post) = choose|pre: Seq<char>, post: Seq<char>| r@ == pre + text@ + post;
                    assert(r@ == pre + once_text(insn) + post);
                }
                r
            },
            Err(_) => {
                let mut text = String::new();
                push_str(&mut text, "inval  ");
                push_hex(&mut text, insn as u64, 4, false);
                assert(decode_word(insn as nat) is None);
                assert(text@ =~= "inval  "@ + hex_text(insn as nat, 4, false));
                let r = paint(text.as_str(), self.invalid);
                proof {
                    let (pre, post) = choose|pre: Seq<char>, post: Seq<char>| r@ == pre + text@ + post;
                    assert(r@ == pre + once_text(insn) + post);
                }
                r
            },
        }
    }
}

} // verus!
