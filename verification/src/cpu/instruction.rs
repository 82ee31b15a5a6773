//! The Chip-8 instruction set ([Insn]): decoding from bytes, encoding to bytes, and the
//! textual (assembly) rendering of each instruction.
#![allow(non_camel_case_types, non_snake_case)]

pub mod disassembler;

use crate::text::{hex_text, push_hex, push_str};
use vstd::prelude::*;

verus! {

/// One Chip-8 instruction, with its operands.
///
/// Register operands (`x`, `y`) name `v0`..`vF`, `A` is a 12-bit address, `B` an immediate
/// byte, `n` a nibble and `i` a 16-bit long address.
#[derive(Clone, Copy, Debug, PartialEq, Eq, Structural)]
pub enum Insn {
    // Base instruction set
    /// | 00e0 | Clear screen memory to 0s
    cls,
    /// | 00ee | Return from subroutine
    ret,
    /// | 1aaa | Jumps to an absolute address
    jmp { A: u16 },
    /// | 2aaa | Pushes pc onto the stack, then jumps to a
    call { A: u16 },
    /// | 3xbb | Skips next instruction if register X == b
    seb { B: u8, x: usize },
    /// | 4xbb | Skips next instruction if register X != b
    sneb { B: u8, x: usize },
    /// | 5XY0 | Skip next instruction if vX == vY
    se { y: usize, x: usize },
    /// | 6xbb | Loads immediate byte b into register vX
    movb { B: u8, x: usize },
    /// | 7xbb | Adds immediate byte b to register vX
    addb { B: u8, x: usize },
    /// | 8xy0 | Loads the value of y into x
    mov { x: usize, y: usize },
    /// | 8xy1 | Performs bitwise or of vX and vY, and stores the result in vX
    or { y: usize, x: usize },
    /// | 8xy2 | Performs bitwise and of vX and vY, and stores the result in vX
    and { y: usize, x: usize },
    /// | 8xy3 | Performs bitwise xor of vX and vY, and stores the result in vX
    xor { y: usize, x: usize },
    /// | 8xy4 | Performs addition of vX and vY, and stores the result in vX
    add { y: usize, x: usize },
    /// | 8xy5 | Performs subtraction of vX and vY, and stores the result in vX
    sub { y: usize, x: usize },
    /// | 8xy6 | Performs bitwise right shift of vX (or vY)
    shr { y: usize, x: usize },
    /// | 8xy7 | Performs subtraction of vY and vX, and stores the result in vX
    bsub { y: usize, x: usize },
    /// | 8xyE | Performs bitwise left shift of vX
    shl { y: usize, x: usize },
    /// | 9XY0 | Skip next instruction if vX != vY
    sne { y: usize, x: usize },
    /// | Aaaa | Load address #a into register I
    movI { A: u16 },
    /// | Baaa | Jump to &adr + v0
    jmpr { A: u16 },
    /// | Cxbb | Stores a random number & the provided byte into vX
    rand { B: u8, x: usize },
    /// | Dxyn | Draws n-byte sprite to the screen at coordinates (vX, vY)
    draw { y: usize, x: usize, n: u8 },
    /// | eX9e | Skip next instruction if key == vX
    sek { x: usize },
    /// | eXa1 | Skip next instruction if key != vX
    snek { x: usize },
    /// | fX07 | Set vX to value in delay timer
    getdt { x: usize },
    /// | fX0a | Wait for input, store key in vX
    waitk { x: usize },
    /// | fX15 | Set delay timer to the value in vX
    setdt { x: usize },
    /// | fX18 | Set sound timer to the value in vX
    movst { x: usize },
    /// | fX1e | Add vX to I
    addI { x: usize },
    /// | fX29 | Load sprite for character x into I
    font { x: usize },
    /// | fX33 | BCD convert X into I[0..3]
    bcd { x: usize },
    /// | fX55 | DMA Stor from I to registers 0..X
    dmao { x: usize },
    /// | fX65 | DMA Load from I to registers 0..X
    dmai { x: usize },
    // Super Chip extensions
    /// | 00cN | Scroll the screen down
    scd { n: u8 },
    /// | 00fb | Scroll the screen right
    scr,
    /// | 00fc | Scroll the screen left
    scl,
    /// | 00fd | Exit (halt and catch fire)
    halt,
    /// | 00fe | Return to low-resolution mode
    lores,
    /// | 00ff | Enter high-resolution mode
    hires,
    /// | fx30 | Load the large sprite for character x into I
    hfont { x: usize },
    /// | fx75 | Save to "flag registers"
    flgo { x: usize },
    /// | fx85 | Load from "flag registers"
    flgi { x: usize },
    /// | 00dN | Scroll the screen up
    scu { n: u8 },
    // XO-Chip instructions
    /// | 5XY2 | DMA Store from vX..vY to I
    dmaro { y: usize, x: usize },
    /// | 5XY3 | DMA Load from I to vX..vY
    dmari { y: usize, x: usize },
    /// | F000 | Load long address into character I
    long { i: usize },
}

/// Why a byte sequence could not be decoded into an [Insn].
#[derive(Clone, Copy, Debug, PartialEq, Eq, Structural)]
pub enum DecodeError {
    /// The bytes do not begin with any known opcode.
    UnknownOpcode,
    /// The bytes end before a complete opcode: they are a strict prefix of one.
    UnexpectedEOF,
}

/// Why an [Insn] could not be encoded.
#[derive(Clone, Copy, Debug, PartialEq, Eq, Structural)]
pub enum EncodeError {
    /// The buffer is shorter than the instruction's encoding.
    UnexpectedEOF,
}

/// The instruction that the 16-bit opcode `w` denotes, if any.
pub open spec fn decode_word(w: nat) -> Option<Insn> {
    decode_nibbles(w / 4096, (w / 256) % 16, (w / 16) % 16, w % 16)
}

/// The instruction that the opcode with nibbles `i x y n` (most significant first) denotes.
#[verifier::opaque]
pub open spec fn decode_nibbles(i: nat, xn: nat, yn: nat, nn: nat) -> Option<Insn> {
    let x = xn as usize;
    let y = yn as usize;
    let n = nn as u8;
    let b = (yn * 16 + nn) as u8;
    let a = (xn * 256 + yn * 16 + nn) as u16;
    if i == 0x0 {
        if xn != 0 {
            None
        } else if yn == 0xe && nn == 0x0 {
            Some(Insn::cls)
        } else if yn == 0xe && nn == 0xe {
            Some(Insn::ret)
        } else if yn == 0xf && nn == 0xb {
            Some(Insn::scr)
        } else if yn == 0xf && nn == 0xc {
            Some(Insn::scl)
        } else if yn == 0xf && nn == 0xd {
            Some(Insn::halt)
        } else if yn == 0xf && nn == 0xe {
            Some(Insn::lores)
        } else if yn == 0xf && nn == 0xf {
            Some(Insn::hires)
        } else if yn == 0xc {
            Some(Insn::scd { n })
        } else if yn == 0xd {
            Some(Insn::scu { n })
        } else {
            None
        }
    } else if i == 0x1 {
        Some(Insn::jmp { A: a })
    } else if i == 0x2 {
        Some(Insn::call { A: a })
    } else if i == 0x3 {
        Some(Insn::seb { B: b, x })
    } else if i == 0x4 {
        Some(Insn::sneb { B: b, x })
    } else if i == 0x5 {
        if n == 0 {
            Some(Insn::se { y, x })
        } else if n == 2 {
            Some(Insn::dmaro { y, x })
        } else if n == 3 {
            Some(Insn::dmari { y, x })
        } else {
            None
        }
    } else if i == 0x6 {
        Some(Insn::movb { B: b, x })
    } else if i == 0x7 {
        Some(Insn::addb { B: b, x })
    } else if i == 0x8 {
        if n == 0x0 {
            Some(Insn::mov { x, y })
        } else if n == 0x1 {
            Some(Insn::or { y, x })
        } else if n == 0x2 {
            Some(Insn::and { y, x })
        } else if n == 0x3 {
            Some(Insn::xor { y, x })
        } else if n == 0x4 {
            Some(Insn::add { y, x })
        } else if n == 0x5 {
            Some(Insn::sub { y, x })
        } else if n == 0x6 {
            Some(Insn::shr { y, x })
        } else if n == 0x7 {
            Some(Insn::bsub { y, x })
        } else if n == 0xe {
            Some(Insn::shl { y, x })
        } else {
            None
        }
    } else if i == 0x9 {
        if n == 0 {
            Some(Insn::sne { y, x })
        } else {
            None
        }
    } else if i == 0xa {
        Some(Insn::movI { A: a })
    } else if i == 0xb {
        Some(Insn::jmpr { A: a })
    } else if i == 0xc {
        Some(Insn::rand { B: b, x })
    } else if i == 0xd {
        Some(Insn::draw { y, x, n })
    } else if i == 0xe {
        if b == 0x9e {
            Some(Insn::sek { x })
        } else if b == 0xa1 {
            Some(Insn::snek { x })
        } else {
            None
        }
    } else {
        if b == 0x07 {
            Some(Insn::getdt { x })
        } else if b == 0x0a {
            Some(Insn::waitk { x })
        } else if b == 0x15 {
            Some(Insn::setdt { x })
        } else if b == 0x18 {
            Some(Insn::movst { x })
        } else if b == 0x1e {
            Some(Insn::addI { x })
        } else if b == 0x29 {
            Some(Insn::font { x })
        } else if b == 0x30 {
            Some(Insn::hfont { x })
        } else if b == 0x33 {
            Some(Insn::bcd { x })
        } else if b == 0x55 {
            Some(Insn::dmao { x })
        } else if b == 0x65 {
            Some(Insn::dmai { x })
        } else if b == 0x75 {
            Some(Insn::flgo { x })
        } else if b == 0x85 {
            Some(Insn::flgi { x })
        } else {
            None
        }
    }
}

/// The big-endian 16-bit word made of two bytes.
pub open spec fn word_of(hi: u8, lo: u8) -> nat {
    (hi as nat) * 256 + (lo as nat)
}

/// Whether `mem` is a strict prefix of the encoding of some instruction, so that more bytes
/// could complete it.
pub open spec fn begins_encoding(mem: Seq<u8>) -> bool {
    ||| mem.len() == 0
    ||| mem.len() == 1 && (mem[0] == 0 || mem[0] >= 16)
    ||| 2 <= mem.len() < 4 && mem[0] == 0xf0 && mem[1] == 0
}

/// What decoding the start of `mem` gives: the number of bytes the instruction takes, and
/// the instruction.
pub open spec fn spec_decode(mem: Seq<u8>) -> Result<(usize, Insn), DecodeError> {
    if mem.len() >= 2 && decode_word(word_of(mem[0], mem[1])) is Some {
        Ok((2, decode_word(word_of(mem[0], mem[1]))->0))
    } else if mem.len() >= 4 && mem[0] == 0xf0 && mem[1] == 0 {
        Ok((4, Insn::long { i: word_of(mem[2], mem[3]) as usize }))
    } else if begins_encoding(mem) {
        Err(DecodeError::UnexpectedEOF)
    } else {
        Err(DecodeError::UnknownOpcode)
    }
}

impl Insn {
    /// Whether every operand fits its slot in the opcode (registers and nibbles below 16,
    /// addresses below 0x1000, long addresses below 0x10000).
    pub open spec fn wf(self) -> bool {
        match self {
            Insn::jmp { A } => A < 4096,
            Insn::call { A } => A < 4096,
            Insn::seb { B, x } => x < 16,
            Insn::sneb { B, x } => x < 16,
            Insn::se { y, x } => y < 16 && x < 16,
            Insn::movb { B, x } => x < 16,
            Insn::addb { B, x } => x < 16,
            Insn::mov { x, y } => x < 16 && y < 16,
            Insn::or { y, x } => y < 16 && x < 16,
            Insn::and { y, x } => y < 16 && x < 16,
            Insn::xor { y, x } => y < 16 && x < 16,
            Insn::add { y, x } => y < 16 && x < 16,
            Insn::sub { y, x } => y < 16 && x < 16,
            Insn::shr { y, x } => y < 16 && x < 16,
            Insn::bsub { y, x } => y < 16 && x < 16,
            Insn::shl { y, x } => y < 16 && x < 16,
            Insn::sne { y, x } => y < 16 && x < 16,
            Insn::movI { A } => A < 4096,
            Insn::jmpr { A } => A < 4096,
            Insn::rand { B, x } => x < 16,
            Insn::draw { y, x, n } => y < 16 && x < 16 && n < 16,
            Insn::sek { x } => x < 16,
            Insn::snek { x } => x < 16,
            Insn::getdt { x } => x < 16,
            Insn::waitk { x } => x < 16,
            Insn::setdt { x } => x < 16,
            Insn::movst { x } => x < 16,
            Insn::addI { x } => x < 16,
            Insn::font { x } => x < 16,
            Insn::bcd { x } => x < 16,
            Insn::dmao { x } => x < 16,
            Insn::dmai { x } => x < 16,
            Insn::scd { n } => n < 16,
            Insn::hfont { x } => x < 16,
            Insn::flgo { x } => x < 16,
            Insn::flgi { x } => x < 16,
            Insn::scu { n } => n < 16,
            Insn::dmaro { y, x } => y < 16 && x < 16,
            Insn::dmari { y, x } => y < 16 && x < 16,
            Insn::long { i } => i < 0x10000,
            _ => true,
        }
    }
    /// The four nibbles of this instruction's opcode, most significant first; operands are
    /// cut to the width of their slots.
    pub open spec fn spec_nibbles(self) -> (nat, nat, nat, nat) {
        match self {
            Insn::cls => (0x0, 0x0, 0xe, 0x0),
            Insn::ret => (0x0, 0x0, 0xe, 0xe),
            Insn::jmp { A } => (0x1, ((A / 256) % 16) as nat, ((A / 16) % 16) as nat, (A % 16) as nat),
            Insn::call { A } => (0x2, ((A / 256) % 16) as nat, ((A / 16) % 16) as nat, (A % 16) as nat),
            Insn::seb { B, x } => (0x3, (x % 16) as nat, (B / 16) as nat, (B % 16) as nat),
            Insn::sneb { B, x } => (0x4, (x % 16) as nat, (B / 16) as nat, (B % 16) as nat),
            Insn::se { y, x } => (0x5, (x % 16) as nat, (y % 16) as nat, 0x0),
            Insn::movb { B, x } => (0x6, (x % 16) as nat, (B / 16) as nat, (B % 16) as nat),
            Insn::addb { B, x } => (0x7, (x % 16) as nat, (B / 16) as nat, (B % 16) as nat),
            Insn::mov { x, y } => (0x8, (x % 16) as nat, (y % 16) as nat, 0x0),
            Insn::or { y, x } => (0x8, (x % 16) as nat, (y % 16) as nat, 0x1),
            Insn::and { y, x } => (0x8, (x % 16) as nat, (y % 16) as nat, 0x2),
            Insn::xor { y, x } => (0x8, (x % 16) as nat, (y % 16) as nat, 0x3),
            Insn::add { y, x } => (0x8, (x % 16) as nat, (y % 16) as nat, 0x4),
            Insn::sub { y, x } => (0x8, (x % 16) as nat, (y % 16) as nat, 0x5),
            Insn::shr { y, x } => (0x8, (x % 16) as nat, (y % 16) as nat, 0x6),
            Insn::bsub { y, x } => (0x8, (x % 16) as nat, (y % 16) as nat, 0x7),
            Insn::shl { y, x } => (0x8, (x % 16) as nat, (y % 16) as nat, 0xe),
            Insn::sne { y, x } => (0x9, (x % 16) as nat, (y % 16) as nat, 0x0),
            Insn::movI { A } => (0xa, ((A / 256) % 16) as nat, ((A / 16) % 16) as nat, (A % 16) as nat),
            Insn::jmpr { A } => (0xb, ((A / 256) % 16) as nat, ((A / 16) % 16) as nat, (A % 16) as nat),
            Insn::rand { B, x } => (0xc, (x % 16) as nat, (B / 16) as nat, (B % 16) as nat),
            Insn::draw { y, x, n } => (0xd, (x % 16) as nat, (y % 16) as nat, (n % 16) as nat),
            Insn::sek { x } => (0xe, (x % 16) as nat, 0x9, 0xe),
            Insn::snek { x } => (0xe, (x % 16) as nat, 0xa, 0x1),
            Insn::getdt { x } => (0xf, (x % 16) as nat, 0x0, 0x7),
            Insn::waitk { x } => (0xf, (x % 16) as nat, 0x0, 0xa),
            Insn::setdt { x } => (0xf, (x % 16) as nat, 0x1, 0x5),
            Insn::movst { x } => (0xf, (x % 16) as nat, 0x1, 0x8),
            Insn::addI { x } => (0xf, (x % 16) as nat, 0x1, 0xe),
            Insn::font { x } => (0xf, (x % 16) as nat, 0x2, 0x9),
            Insn::bcd { x } => (0xf, (x % 16) as nat, 0x3, 0x3),
            Insn::dmao { x } => (0xf, (x % 16) as nat, 0x5, 0x5),
            Insn::dmai { x } => (0xf, (x % 16) as nat, 0x6, 0x5),
            Insn::scd { n } => (0x0, 0x0, 0xc, (n % 16) as nat),
            Insn::scr => (0x0, 0x0, 0xf, 0xb),
            Insn::scl => (0x0, 0x0, 0xf, 0xc),
            Insn::halt => (0x0, 0x0, 0xf, 0xd),
            Insn::lores => (0x0, 0x0, 0xf, 0xe),
            Insn::hires => (0x0, 0x0, 0xf, 0xf),
            Insn::hfont { x } => (0xf, (x % 16) as nat, 0x3, 0x0),
            Insn::flgo { x } => (0xf, (x % 16) as nat, 0x7, 0x5),
            Insn::flgi { x } => (0xf, (x % 16) as nat, 0x8, 0x5),
            Insn::scu { n } => (0x0, 0x0, 0xd, (n % 16) as nat),
            Insn::dmaro { y, x } => (0x5, (x % 16) as nat, (y % 16) as nat, 0x2),
            Insn::dmari { y, x } => (0x5, (x % 16) as nat, (y % 16) as nat, 0x3),
            Insn::long { .. } => (0xf, 0x0, 0x0, 0x0),
        }
    }

    /// The 16-bit opcode of a two-byte instruction (of `long`, its first word).
    pub open spec fn spec_word(self) -> nat {
        let (i, x, y, n) = self.spec_nibbles();
        i * 4096 + x * 256 + y * 16 + n
    }

    /// The bytes that encode this instruction (big-endian); operands are cut to the width
    /// of their slots.
    pub open spec fn spec_encoding(self) -> Seq<u8> {
        match self {
            Insn::long { i } => seq![0xf0u8, 0x00u8, ((i / 256) % 256) as u8, (i % 256) as u8],
            _ => seq![(self.spec_word() / 256) as u8, (self.spec_word() % 256) as u8],
        }
    }

    /// The assembly text of this instruction.
    pub open spec fn spec_text(self) -> Seq<char> {
        match self {
            Insn::cls => "cls    "@,
            Insn::ret => "ret    "@,
            Insn::jmp { A } => "jmp    "@ + hex_text(A as nat, 3, false),
            Insn::call { A } => "call   "@ + hex_text(A as nat, 3, false),
            Insn::seb { B, x } => "se     #"@ + hex_text(B as nat, 2, false) + ", v"@ + hex_text(x as nat, 1, true),
            Insn::sneb { B, x } => "sne    #"@ + hex_text(B as nat, 2, false) + ", v"@ + hex_text(x as nat, 1, true),
            Insn::se { y, x } => "se     v"@ + hex_text(y as nat, 1, true) + ", v"@ + hex_text(x as nat, 1, true),
            Insn::movb { B, x } => "mov    #"@ + hex_text(B as nat, 2, false) + ", v"@ + hex_text(x as nat, 1, true),
            Insn::addb { B, x } => "add    #"@ + hex_text(B as nat, 2, false) + ", v"@ + hex_text(x as nat, 1, true),
            Insn::mov { x, y } => "mov    v"@ + hex_text(y as nat, 1, true) + ", v"@ + hex_text(x as nat, 1, true),
            Insn::or { y, x } => "or     v"@ + hex_text(y as nat, 1, true) + ", v"@ + hex_text(x as nat, 1, true),
            Insn::and { y, x } => "and    v"@ + hex_text(y as nat, 1, true) + ", v"@ + hex_text(x as nat, 1, true),
            Insn::xor { y, x } => "xor    v"@ + hex_text(y as nat, 1, true) + ", v"@ + hex_text(x as nat, 1, true),
            Insn::add { y, x } => "add    v"@ + hex_text(y as nat, 1, true) + ", v"@ + hex_text(x as nat, 1, true),
            Insn::sub { y, x } => "sub    v"@ + hex_text(y as nat, 1, true) + ", v"@ + hex_text(x as nat, 1, true),
            Insn::shr { y, x } => "shr    v"@ + hex_text(y as nat, 1, true) + ", v"@ + hex_text(x as nat, 1, true),
            Insn::bsub { y, x } => "bsub   v"@ + hex_text(y as nat, 1, true) + ", v"@ + hex_text(x as nat, 1, true),
            Insn::shl { y, x } => "shl    v"@ + hex_text(y as nat, 1, true) + ", v"@ + hex_text(x as nat, 1, true),
            Insn::sne { y, x } => "sne    v"@ + hex_text(y as nat, 1, true) + ", v"@ + hex_text(x as nat, 1, true),
            Insn::movI { A } => "mov    $"@ + hex_text(A as nat, 3, false) + ", I"@,
            Insn::jmpr { A } => "jmp    $"@ + hex_text(A as nat, 3, false) + "+v0"@,
            Insn::rand { B, x } => "rand   #"@ + hex_text(B as nat, 2, false) + ", v"@ + hex_text(x as nat, 1, true),
            Insn::draw { y, x, n } => "draw   #"@ + hex_text(n as nat, 1, false) + ", v"@ + hex_text(x as nat, 1, true) + ", v"@ + hex_text(y as nat, 1, true),
            Insn::sek { x } => "sek    v"@ + hex_text(x as nat, 1, true),
            Insn::snek { x } => "snek   v"@ + hex_text(x as nat, 1, true),
            Insn::getdt { x } => "mov    DT, v"@ + hex_text(x as nat, 1, true),
            Insn::waitk { x } => "waitk  v"@ + hex_text(x as nat, 1, true),
            Insn::setdt { x } => "mov    v"@ + hex_text(x as nat, 1, true) + ", DT"@,
            Insn::movst { x } => "mov    v"@ + hex_text(x as nat, 1, true) + ", ST"@,
            Insn::addI { x } => "add    v"@ + hex_text(x as nat, 1, true) + ", I"@,
            Insn::font { x } => "font   v"@ + hex_text(x as nat, 1, true) + ", I"@,
            Insn::bcd { x } => "bcd    v"@ + hex_text(x as nat, 1, true) + ", &I"@,
            Insn::dmao { x } => "dmao   v"@ + hex_text(x as nat, 1, true),
            Insn::dmai { x } => "dmai   v"@ + hex_text(x as nat, 1, true),
            Insn::scd { n } => "scd    #"@ + hex_text(n as nat, 1, false),
            Insn::scr => "scr    "@,
            Insn::scl => "scl    "@,
            Insn::halt => "halt   "@,
            Insn::lores => "lores  "@,
            Insn::hires => "hires  "@,
            Insn::hfont { x } => "hfont  v"@ + hex_text(x as nat, 1, true),
            Insn::flgo { x } => "flgo   v"@ + hex_text(x as nat, 1, true),
            Insn::flgi { x } => "flgi   v"@ + hex_text(x as nat, 1, true),
            Insn::scu { n } => "scu    #"@ + hex_text(n as nat, 1, false),
            Insn::dmaro { y, x } => "dmaro  v"@ + hex_text(x as nat, 1, true) + "..v"@ + hex_text(y as nat, 1, true),
            Insn::dmari { y, x } => "dmari  v"@ + hex_text(x as nat, 1, true) + "..v"@ + hex_text(y as nat, 1, true),
            Insn::long { i } => "long   $"@ + hex_text(i as nat, 4, false),
        }
    }
}


/// Splits a 16-bit word into its four nibbles.
proof fn lemma_word_nibbles(w: u16)
    ensures
        w as nat == (w as nat / 4096) * 4096 + ((w as nat / 256) % 16) * 256 + ((w as nat / 16)
            % 16) * 16 + w as nat % 16,
        w as nat % 256 == ((w as nat / 16) % 16) * 16 + w as nat % 16,
        w as nat % 4096 == ((w as nat / 256) % 16) * 256 + w as nat % 256,
        w as nat / 4096 < 16,
{
    assert(w == (w / 4096) * 4096 + ((w / 256) % 16) * 256 + ((w / 16) % 16) * 16 + w % 16)
        by (bit_vector);
    assert(w % 256 == ((w / 16) % 16) * 16 + w % 16) by (bit_vector);
    assert(w % 4096 == ((w / 256) % 16) * 256 + w % 256) by (bit_vector);
    assert(w / 4096 < 16) by (bit_vector);
}

/// The four nibbles `i x y n` of the word they make, most significant first.
proof fn lemma_nibbles_of(i: u16, x: u16, y: u16, n: u16)
    requires
        i < 16,
        x < 16,
        y < 16,
        n < 16,
    ensures
        ({
            let w = i * 4096 + x * 256 + y * 16 + n;
            &&& w < 0x10000
            &&& w / 4096 == i
            &&& (w / 256) % 16 == x
            &&& (w / 16) % 16 == y
            &&& w % 16 == n
            &&& w % 256 == y * 16 + n
            &&& w % 4096 == x * 256 + y * 16 + n
        }),
{
    assert({
        let w = i * 4096 + x * 256 + y * 16 + n;
        &&& w < 0x10000
        &&& w / 4096 == i
        &&& (w / 256) % 16 == x
        &&& (w / 16) % 16 == y
        &&& w % 16 == n
        &&& w % 256 == y * 16 + n
        &&& w % 4096 == x * 256 + y * 16 + n
    }) by (bit_vector)
        requires
            i < 16,
            x < 16,
            y < 16,
            n < 16,
    ;
}

/// Nibbles `i x y n` decode to an instruction whose nibbles they are.
pub open spec fn decodes_back(i: nat, x: nat, y: nat, n: nat) -> bool {
    decode_nibbles(i, x, y, n) is Some ==> {
        let d = decode_nibbles(i, x, y, n)->0;
        &&& d.wf()
        &&& !(d is long)
        &&& d.spec_nibbles() == (i, x, y, n)
    }
}

/// Nibbles that decode to one of the system instructions give it back.
#[verifier::rlimit(50)]
proof fn lemma_decodes_back_0(i: nat, x: nat, y: nat, n: nat)
    requires
        i == 0x0,
        x < 16,
        y < 16,
        n < 16,
    ensures
        decodes_back(i, x, y, n),
{
    reveal(decode_nibbles);
    let b = (y * 16 + n) as u8;
    let a = (x * 256 + y * 16 + n) as u16;
    assert(b == y * 16 + n);
    assert(a == x * 256 + y * 16 + n);
    assert((x as usize) % 16 == x);
    assert((y as usize) % 16 == y);
    assert((n as u8) % 16 == n);
    assert(b / 16 == y && b % 16 == n);
    assert((a / 256) % 16 == x && (a / 16) % 16 == y && a % 16 == n);
}

/// Nibbles that decode to one of the jumps, calls and immediate skips give it back.
#[verifier::rlimit(50)]
proof fn lemma_decodes_back_1(i: nat, x: nat, y: nat, n: nat)
    requires
        0x1 <= i <= 0x4,
        x < 16,
        y < 16,
        n < 16,
    ensures
        decodes_back(i, x, y, n),
{
    reveal(decode_nibbles);
    let b = (y * 16 + n) as u8;
    let a = (x * 256 + y * 16 + n) as u16;
    assert(b == y * 16 + n);
    assert(a == x * 256 + y * 16 + n);
    assert((x as usize) % 16 == x);
    assert((y as usize) % 16 == y);
    assert((n as u8) % 16 == n);
    assert(b / 16 == y && b % 16 == n);
    assert((a / 256) % 16 == x && (a / 16) % 16 == y && a % 16 == n);
}

/// Nibbles that decode to one of the register-pair skips and ranges give it back.
#[verifier::rlimit(50)]
proof fn lemma_decodes_back_2(i: nat, x: nat, y: nat, n: nat)
    requires
        i == 0x5,
        x < 16,
        y < 16,
        n < 16,
    ensures
        decodes_back(i, x, y, n),
{
    reveal(decode_nibbles);
    let b = (y * 16 + n) as u8;
    let a = (x * 256 + y * 16 + n) as u16;
    assert(b == y * 16 + n);
    assert(a == x * 256 + y * 16 + n);
    assert((x as usize) % 16 == x);
    assert((y as usize) % 16 == y);
    assert((n as u8) % 16 == n);
    assert(b / 16 == y && b % 16 == n);
    assert((a / 256) % 16 == x && (a / 16) % 16 == y && a % 16 == n);
}

/// Nibbles that decode to one of the immediate loads and additions give it back.
#[verifier::rlimit(50)]
proof fn lemma_decodes_back_3(i: nat, x: nat, y: nat, n: nat)
    requires
        0x6 <= i <= 0x7,
        x < 16,
        y < 16,
        n < 16,
    ensures
        decodes_back(i, x, y, n),
{
    reveal(decode_nibbles);
    let b = (y * 16 + n) as u8;
    let a = (x * 256 + y * 16 + n) as u16;
    assert(b == y * 16 + n);
    assert(a == x * 256 + y * 16 + n);
    assert((x as usize) % 16 == x);
    assert((y as usize) % 16 == y);
    assert((n as u8) % 16 == n);
    assert(b / 16 == y && b % 16 == n);
    assert((a / 256) % 16 == x && (a / 16) % 16 == y && a % 16 == n);
}

/// Nibbles that decode to one of the arithmetic and logic instructions give it back.
#[verifier::rlimit(50)]
proof fn lemma_decodes_back_4(i: nat, x: nat, y: nat, n: nat)
    requires
        i == 0x8,
        x < 16,
        y < 16,
        n < 16,
    ensures
        decodes_back(i, x, y, n),
{
    reveal(decode_nibbles);
    let b = (y * 16 + n) as u8;
    let a = (x * 256 + y * 16 + n) as u16;
    assert(b == y * 16 + n);
    assert(a == x * 256 + y * 16 + n);
    assert((x as usize) % 16 == x);
    assert((y as usize) % 16 == y);
    assert((n as u8) % 16 == n);
    assert(b / 16 == y && b % 16 == n);
    assert((a / 256) % 16 == x && (a / 16) % 16 == y && a % 16 == n);
}

/// Nibbles that decode to one of `sne`, the index and jump instructions, `rand` and `draw` give it back.
#[verifier::rlimit(50)]
proof fn lemma_decodes_back_5(i: nat, x: nat, y: nat, n: nat)
    requires
        0x9 <= i <= 0xd,
        x < 16,
        y < 16,
        n < 16,
    ensures
        decodes_back(i, x, y, n),
{
    reveal(decode_nibbles);
    let b = (y * 16 + n) as u8;
    let a = (x * 256 + y * 16 + n) as u16;
    assert(b == y * 16 + n);
    assert(a == x * 256 + y * 16 + n);
    assert((x as usize) % 16 == x);
    assert((y as usize) % 16 == y);
    assert((n as u8) % 16 == n);
    assert(b / 16 == y && b % 16 == n);
    assert((a / 256) % 16 == x && (a / 16) % 16 == y && a % 16 == n);
}

/// Nibbles that decode to one of the key skips give it back.
#[verifier::rlimit(50)]
proof fn lemma_decodes_back_6(i: nat, x: nat, y: nat, n: nat)
    requires
        i == 0xe,
        x < 16,
        y < 16,
        n < 16,
    ensures
        decodes_back(i, x, y, n),
{
    reveal(decode_nibbles);
    let b = (y * 16 + n) as u8;
    let a = (x * 256 + y * 16 + n) as u16;
    assert(b == y * 16 + n);
    assert(a == x * 256 + y * 16 + n);
    assert((x as usize) % 16 == x);
    assert((y as usize) % 16 == y);
    assert((n as u8) % 16 == n);
    assert(b / 16 == y && b % 16 == n);
    assert((a / 256) % 16 == x && (a / 16) % 16 == y && a % 16 == n);
}

/// Nibbles that decode to one of the timer, index, memory and flag instructions give it back.
#[verifier::rlimit(50)]
proof fn lemma_decodes_back_7(i: nat, x: nat, y: nat, n: nat)
    requires
        i == 0xf,
        x < 16,
        y < 16,
        n < 16,
    ensures
        decodes_back(i, x, y, n),
{
    reveal(decode_nibbles);
    let b = (y * 16 + n) as u8;
    let a = (x * 256 + y * 16 + n) as u16;
    assert(b == y * 16 + n);
    assert(a == x * 256 + y * 16 + n);
    assert((x as usize) % 16 == x);
    assert((y as usize) % 16 == y);
    assert((n as u8) % 16 == n);
    assert(b / 16 == y && b % 16 == n);
    assert((a / 256) % 16 == x && (a / 16) % 16 == y && a % 16 == n);
}

/// Nibbles that decode give a well-formed two-byte instruction whose opcode has them.
proof fn lemma_decode_nibbles_inverse(i: nat, x: nat, y: nat, n: nat)
    requires
        i < 16,
        x < 16,
        y < 16,
        n < 16,
        decode_nibbles(i, x, y, n) is Some,
    ensures
        decode_nibbles(i, x, y, n)->0.wf(),
        !(decode_nibbles(i, x, y, n)->0 is long),
        decode_nibbles(i, x, y, n)->0.spec_nibbles() == (i, x, y, n),
{
    if i == 0x0 {
        lemma_decodes_back_0(i, x, y, n);
    } else if i <= 0x4 {
        lemma_decodes_back_1(i, x, y, n);
    } else if i == 0x5 {
        lemma_decodes_back_2(i, x, y, n);
    } else if i <= 0x7 {
        lemma_decodes_back_3(i, x, y, n);
    } else if i == 0x8 {
        lemma_decodes_back_4(i, x, y, n);
    } else if i <= 0xd {
        lemma_decodes_back_5(i, x, y, n);
    } else if i == 0xe {
        lemma_decodes_back_6(i, x, y, n);
    } else {
        lemma_decodes_back_7(i, x, y, n);
    }
}

/// A word that decodes gives a well-formed two-byte instruction whose opcode is that word.
proof fn lemma_decode_word_inverse(w: u16)
    requires
        decode_word(w as nat) is Some,
    ensures
        decode_word(w as nat)->0.wf(),
        !(decode_word(w as nat)->0 is long),
        decode_word(w as nat)->0.spec_word() == w as nat,
{
    lemma_word_nibbles(w);
    let wn = w as nat;
    lemma_decode_nibbles_inverse(wn / 4096, (wn / 256) % 16, (wn / 16) % 16, wn % 16);
}

/// An instruction decoded from a 16-bit opcode has its operands in range.
pub proof fn lemma_decoded_word_wf(w: u16)
    requires
        decode_word(w as nat) is Some,
    ensures
        decode_word(w as nat)->0.wf(),
{
    lemma_decode_word_inverse(w);
}

/// The nibbles of `insn` are all below 16 and decode back to `insn`.
pub open spec fn nibbles_decode_to(insn: Insn) -> bool {
    let (i, x, y, n) = insn.spec_nibbles();
    &&& i < 16
    &&& x < 16
    &&& y < 16
    &&& n < 16
    &&& decode_nibbles(i, x, y, n) == Some(insn)
}

/// The nibbles of `cls` decode back to it.
proof fn lemma_nibbles_decode_cls()
    ensures
        nibbles_decode_to(Insn::cls),
{
    reveal(decode_nibbles);
}

/// The nibbles of `ret` decode back to it.
proof fn lemma_nibbles_decode_ret()
    ensures
        nibbles_decode_to(Insn::ret),
{
    reveal(decode_nibbles);
}

/// The nibbles of `jmp` decode back to it.
proof fn lemma_nibbles_decode_jmp(A: u16)
    requires
        A < 4096,
    ensures
        nibbles_decode_to(Insn::jmp { A }),
{
    reveal(decode_nibbles);
    assert(((A / 256) % 16) * 256 + ((A / 16) % 16) * 16 + A % 16 == A) by (bit_vector)
        requires
            A < 4096,
    ;
}

/// The nibbles of `call` decode back to it.
proof fn lemma_nibbles_decode_call(A: u16)
    requires
        A < 4096,
    ensures
        nibbles_decode_to(Insn::call { A }),
{
    reveal(decode_nibbles);
    assert(((A / 256) % 16) * 256 + ((A / 16) % 16) * 16 + A % 16 == A) by (bit_vector)
        requires
            A < 4096,
    ;
}

/// The nibbles of `seb` decode back to it.
proof fn lemma_nibbles_decode_seb(B: u8, x: usize)
    requires
        x < 16,
    ensures
        nibbles_decode_to(Insn::seb { B, x }),
{
    reveal(decode_nibbles);
    assert(B / 16 < 16 && (B / 16) * 16 + B % 16 == B) by (bit_vector);
}

/// The nibbles of `sneb` decode back to it.
proof fn lemma_nibbles_decode_sneb(B: u8, x: usize)
    requires
        x < 16,
    ensures
        nibbles_decode_to(Insn::sneb { B, x }),
{
    reveal(decode_nibbles);
    assert(B / 16 < 16 && (B / 16) * 16 + B % 16 == B) by (bit_vector);
}

/// The nibbles of `se` decode back to it.
proof fn lemma_nibbles_decode_se(y: usize, x: usize)
    requires
        y < 16,
        x < 16,
    ensures
        nibbles_decode_to(Insn::se { y, x }),
{
    reveal(decode_nibbles);
}

/// The nibbles of `movb` decode back to it.
proof fn lemma_nibbles_decode_movb(B: u8, x: usize)
    requires
        x < 16,
    ensures
        nibbles_decode_to(Insn::movb { B, x }),
{
    reveal(decode_nibbles);
    assert(B / 16 < 16 && (B / 16) * 16 + B % 16 == B) by (bit_vector);
}

/// The nibbles of `addb` decode back to it.
proof fn lemma_nibbles_decode_addb(B: u8, x: usize)
    requires
        x < 16,
    ensures
        nibbles_decode_to(Insn::addb { B, x }),
{
    reveal(decode_nibbles);
    assert(B / 16 < 16 && (B / 16) * 16 + B % 16 == B) by (bit_vector);
}

/// The nibbles of `mov` decode back to it.
proof fn lemma_nibbles_decode_mov(x: usize, y: usize)
    requires
        x < 16,
        y < 16,
    ensures
        nibbles_decode_to(Insn::mov { x, y }),
{
    reveal(decode_nibbles);
}

/// The nibbles of `or` decode back to it.
proof fn lemma_nibbles_decode_or(y: usize, x: usize)
    requires
        y < 16,
        x < 16,
    ensures
        nibbles_decode_to(Insn::or { y, x }),
{
    reveal(decode_nibbles);
}

/// The nibbles of `and` decode back to it.
proof fn lemma_nibbles_decode_and(y: usize, x: usize)
    requires
        y < 16,
        x < 16,
    ensures
        nibbles_decode_to(Insn::and { y, x }),
{
    reveal(decode_nibbles);
}

/// The nibbles of `xor` decode back to it.
proof fn lemma_nibbles_decode_xor(y: usize, x: usize)
    requires
        y < 16,
        x < 16,
    ensures
        nibbles_decode_to(Insn::xor { y, x }),
{
    reveal(decode_nibbles);
}

/// The nibbles of `add` decode back to it.
proof fn lemma_nibbles_decode_add(y: usize, x: usize)
    requires
        y < 16,
        x < 16,
    ensures
        nibbles_decode_to(Insn::add { y, x }),
{
    reveal(decode_nibbles);
}

/// The nibbles of `sub` decode back to it.
proof fn lemma_nibbles_decode_sub(y: usize, x: usize)
    requires
        y < 16,
        x < 16,
    ensures
        nibbles_decode_to(Insn::sub { y, x }),
{
    reveal(decode_nibbles);
}

/// The nibbles of `shr` decode back to it.
proof fn lemma_nibbles_decode_shr(y: usize, x: usize)
    requires
        y < 16,
        x < 16,
    ensures
        nibbles_decode_to(Insn::shr { y, x }),
{
    reveal(decode_nibbles);
}

/// The nibbles of `bsub` decode back to it.
proof fn lemma_nibbles_decode_bsub(y: usize, x: usize)
    requires
        y < 16,
        x < 16,
    ensures
        nibbles_decode_to(Insn::bsub { y, x }),
{
    reveal(decode_nibbles);
}

/// The nibbles of `shl` decode back to it.
proof fn lemma_nibbles_decode_shl(y: usize, x: usize)
    requires
        y < 16,
        x < 16,
    ensures
        nibbles_decode_to(Insn::shl { y, x }),
{
    reveal(decode_nibbles);
}

/// The nibbles of `sne` decode back to it.
proof fn lemma_nibbles_decode_sne(y: usize, x: usize)
    requires
        y < 16,
        x < 16,
    ensures
        nibbles_decode_to(Insn::sne { y, x }),
{
    reveal(decode_nibbles);
}

/// The nibbles of `movI` decode back to it.
proof fn lemma_nibbles_decode_movI(A: u16)
    requires
        A < 4096,
    ensures
        nibbles_decode_to(Insn::movI { A }),
{
    reveal(decode_nibbles);
    assert(((A / 256) % 16) * 256 + ((A / 16) % 16) * 16 + A % 16 == A) by (bit_vector)
        requires
            A < 4096,
    ;
}

/// The nibbles of `jmpr` decode back to it.
proof fn lemma_nibbles_decode_jmpr(A: u16)
    requires
        A < 4096,
    ensures
        nibbles_decode_to(Insn::jmpr { A }),
{
    reveal(decode_nibbles);
    assert(((A / 256) % 16) * 256 + ((A / 16) % 16) * 16 + A % 16 == A) by (bit_vector)
        requires
            A < 4096,
    ;
}

/// The nibbles of `rand` decode back to it.
proof fn lemma_nibbles_decode_rand(B: u8, x: usize)
    requires
        x < 16,
    ensures
        nibbles_decode_to(Insn::rand { B, x }),
{
    reveal(decode_nibbles);
    assert(B / 16 < 16 && (B / 16) * 16 + B % 16 == B) by (bit_vector);
}

/// The nibbles of `draw` decode back to it.
proof fn lemma_nibbles_decode_draw(y: usize, x: usize, n: u8)
    requires
        y < 16,
        x < 16,
        n < 16,
    ensures
        nibbles_decode_to(Insn::draw { y, x, n }),
{
    reveal(decode_nibbles);
}

/// The nibbles of `sek` decode back to it.
proof fn lemma_nibbles_decode_sek(x: usize)
    requires
        x < 16,
    ensures
        nibbles_decode_to(Insn::sek { x }),
{
    reveal(decode_nibbles);
}

/// The nibbles of `snek` decode back to it.
proof fn lemma_nibbles_decode_snek(x: usize)
    requires
        x < 16,
    ensures
        nibbles_decode_to(Insn::snek { x }),
{
    reveal(decode_nibbles);
}

/// The nibbles of `getdt` decode back to it.
proof fn lemma_nibbles_decode_getdt(x: usize)
    requires
        x < 16,
    ensures
        nibbles_decode_to(Insn::getdt { x }),
{
    reveal(decode_nibbles);
}

/// The nibbles of `waitk` decode back to it.
proof fn lemma_nibbles_decode_waitk(x: usize)
    requires
        x < 16,
    ensures
        nibbles_decode_to(Insn::waitk { x }),
{
    reveal(decode_nibbles);
}

/// The nibbles of `setdt` decode back to it.
proof fn lemma_nibbles_decode_setdt(x: usize)
    requires
        x < 16,
    ensures
        nibbles_decode_to(Insn::setdt { x }),
{
    reveal(decode_nibbles);
}

/// The nibbles of `movst` decode back to it.
proof fn lemma_nibbles_decode_movst(x: usize)
    requires
        x < 16,
    ensures
        nibbles_decode_to(Insn::movst { x }),
{
    reveal(decode_nibbles);
}

/// The nibbles of `addI` decode back to it.
proof fn lemma_nibbles_decode_addI(x: usize)
    requires
        x < 16,
    ensures
        nibbles_decode_to(Insn::addI { x }),
{
    reveal(decode_nibbles);
}

/// The nibbles of `font` decode back to it.
proof fn lemma_nibbles_decode_font(x: usize)
    requires
        x < 16,
    ensures
        nibbles_decode_to(Insn::font { x }),
{
    reveal(decode_nibbles);
}

/// The nibbles of `bcd` decode back to it.
proof fn lemma_nibbles_decode_bcd(x: usize)
    requires
        x < 16,
    ensures
        nibbles_decode_to(Insn::bcd { x }),
{
    reveal(decode_nibbles);
}

/// The nibbles of `dmao` decode back to it.
proof fn lemma_nibbles_decode_dmao(x: usize)
    requires
        x < 16,
    ensures
        nibbles_decode_to(Insn::dmao { x }),
{
    reveal(decode_nibbles);
}

/// The nibbles of `dmai` decode back to it.
proof fn lemma_nibbles_decode_dmai(x: usize)
    requires
        x < 16,
    ensures
        nibbles_decode_to(Insn::dmai { x }),
{
    reveal(decode_nibbles);
}

/// The nibbles of `scd` decode back to it.
proof fn lemma_nibbles_decode_scd(n: u8)
    requires
        n < 16,
    ensures
        nibbles_decode_to(Insn::scd { n }),
{
    reveal(decode_nibbles);
}

/// The nibbles of `scr` decode back to it.
proof fn lemma_nibbles_decode_scr()
    ensures
        nibbles_decode_to(Insn::scr),
{
    reveal(decode_nibbles);
}

/// The nibbles of `scl` decode back to it.
proof fn lemma_nibbles_decode_scl()
    ensures
        nibbles_decode_to(Insn::scl),
{
    reveal(decode_nibbles);
}

/// The nibbles of `halt` decode back to it.
proof fn lemma_nibbles_decode_halt()
    ensures
        nibbles_decode_to(Insn::halt),
{
    reveal(decode_nibbles);
}

/// The nibbles of `lores` decode back to it.
proof fn lemma_nibbles_decode_lores()
    ensures
        nibbles_decode_to(Insn::lores),
{
    reveal(decode_nibbles);
}

/// The nibbles of `hires` decode back to it.
proof fn lemma_nibbles_decode_hires()
    ensures
        nibbles_decode_to(Insn::hires),
{
    reveal(decode_nibbles);
}

/// The nibbles of `hfont` decode back to it.
proof fn lemma_nibbles_decode_hfont(x: usize)
    requires
        x < 16,
    ensures
        nibbles_decode_to(Insn::hfont { x }),
{
    reveal(decode_nibbles);
}

/// The nibbles of `flgo` decode back to it.
proof fn lemma_nibbles_decode_flgo(x: usize)
    requires
        x < 16,
    ensures
        nibbles_decode_to(Insn::flgo { x }),
{
    reveal(decode_nibbles);
}

/// The nibbles of `flgi` decode back to it.
proof fn lemma_nibbles_decode_flgi(x: usize)
    requires
        x < 16,
    ensures
        nibbles_decode_to(Insn::flgi { x }),
{
    reveal(decode_nibbles);
}

/// The nibbles of `scu` decode back to it.
proof fn lemma_nibbles_decode_scu(n: u8)
    requires
        n < 16,
    ensures
        nibbles_decode_to(Insn::scu { n }),
{
    reveal(decode_nibbles);
}

/// The nibbles of `dmaro` decode back to it.
proof fn lemma_nibbles_decode_dmaro(y: usize, x: usize)
    requires
        y < 16,
        x < 16,
    ensures
        nibbles_decode_to(Insn::dmaro { y, x }),
{
    reveal(decode_nibbles);
}

/// The nibbles of `dmari` decode back to it.
proof fn lemma_nibbles_decode_dmari(y: usize, x: usize)
    requires
        y < 16,
        x < 16,
    ensures
        nibbles_decode_to(Insn::dmari { y, x }),
{
    reveal(decode_nibbles);
}

/// The nibbles of a well-formed two-byte instruction decode back to it.
proof fn lemma_nibbles_decode(insn: Insn)
    requires
        insn.wf(),
        !(insn is long),
    ensures
        nibbles_decode_to(insn),
{
    match insn {
        Insn::cls => lemma_nibbles_decode_cls(),
        Insn::ret => lemma_nibbles_decode_ret(),
        Insn::jmp { A } => lemma_nibbles_decode_jmp(A),
        Insn::call { A } => lemma_nibbles_decode_call(A),
        Insn::seb { B, x } => lemma_nibbles_decode_seb(B, x),
        Insn::sneb { B, x } => lemma_nibbles_decode_sneb(B, x),
        Insn::se { y, x } => lemma_nibbles_decode_se(y, x),
        Insn::movb { B, x } => lemma_nibbles_decode_movb(B, x),
        Insn::addb { B, x } => lemma_nibbles_decode_addb(B, x),
        Insn::mov { x, y } => lemma_nibbles_decode_mov(x, y),
        Insn::or { y, x } => lemma_nibbles_decode_or(y, x),
        Insn::and { y, x } => lemma_nibbles_decode_and(y, x),
        Insn::xor { y, x } => lemma_nibbles_decode_xor(y, x),
        Insn::add { y, x } => lemma_nibbles_decode_add(y, x),
        Insn::sub { y, x } => lemma_nibbles_decode_sub(y, x),
        Insn::shr { y, x } => lemma_nibbles_decode_shr(y, x),
        Insn::bsub { y, x } => lemma_nibbles_decode_bsub(y, x),
        Insn::shl { y, x } => lemma_nibbles_decode_shl(y, x),
        Insn::sne { y, x } => lemma_nibbles_decode_sne(y, x),
        Insn::movI { A } => lemma_nibbles_decode_movI(A),
        Insn::jmpr { A } => lemma_nibbles_decode_jmpr(A),
        Insn::rand { B, x } => lemma_nibbles_decode_rand(B, x),
        Insn::draw { y, x, n } => lemma_nibbles_decode_draw(y, x, n),
        Insn::sek { x } => lemma_nibbles_decode_sek(x),
        Insn::snek { x } => lemma_nibbles_decode_snek(x),
        Insn::getdt { x } => lemma_nibbles_decode_getdt(x),
        Insn::waitk { x } => lemma_nibbles_decode_waitk(x),
        Insn::setdt { x } => lemma_nibbles_decode_setdt(x),
        Insn::movst { x } => lemma_nibbles_decode_movst(x),
        Insn::addI { x } => lemma_nibbles_decode_addI(x),
        Insn::font { x } => lemma_nibbles_decode_font(x),
        Insn::bcd { x } => lemma_nibbles_decode_bcd(x),
        Insn::dmao { x } => lemma_nibbles_decode_dmao(x),
        Insn::dmai { x } => lemma_nibbles_decode_dmai(x),
        Insn::scd { n } => lemma_nibbles_decode_scd(n),
        Insn::scr => lemma_nibbles_decode_scr(),
        Insn::scl => lemma_nibbles_decode_scl(),
        Insn::halt => lemma_nibbles_decode_halt(),
        Insn::lores => lemma_nibbles_decode_lores(),
        Insn::hires => lemma_nibbles_decode_hires(),
        Insn::hfont { x } => lemma_nibbles_decode_hfont(x),
        Insn::flgo { x } => lemma_nibbles_decode_flgo(x),
        Insn::flgi { x } => lemma_nibbles_decode_flgi(x),
        Insn::scu { n } => lemma_nibbles_decode_scu(n),
        Insn::dmaro { y, x } => lemma_nibbles_decode_dmaro(y, x),
        Insn::dmari { y, x } => lemma_nibbles_decode_dmari(y, x),
        Insn::long { .. } => {},
    }
}

/// The opcode of a well-formed two-byte instruction decodes back to it.
proof fn lemma_word_decodes(insn: Insn)
    requires
        insn.wf(),
        !(insn is long),
    ensures
        insn.spec_word() < 0x10000,
        decode_word(insn.spec_word()) == Some(insn),
{
    lemma_nibbles_decode(insn);
    let (i, x, y, n) = insn.spec_nibbles();
    reveal(decode_nibbles);
    lemma_nibbles_of(i as u16, x as u16, y as u16, n as u16);
}

/// Decoding the encoding of a well-formed instruction gives that instruction back, and says
/// how many bytes it took, whatever bytes follow it.
pub proof fn lemma_decode_encoding(insn: Insn, rest: Seq<u8>)
    requires
        insn.wf(),
    ensures
        spec_decode(insn.spec_encoding() + rest) == Ok::<(usize, Insn), DecodeError>(
            (insn.spec_encoding().len() as usize, insn),
        ),
{
    let mem = insn.spec_encoding() + rest;
    if let Insn::long { i } = insn {
        assert(mem[0] == 0xf0 && mem[1] == 0);
        assert(word_of(mem[0], mem[1]) == 0xf000);
        assert(decode_word(0xf000) is None) by {
            reveal(decode_nibbles);
        }
        assert(((i / 256) % 256) as u8 == (i / 256) % 256);
        assert(word_of(mem[2], mem[3]) == i);
    } else {
        lemma_word_decodes(insn);
        let w = insn.spec_word();
        assert((w / 256) as u8 == w / 256);
        assert((w % 256) as u8 == w % 256);
        assert(word_of(mem[0], mem[1]) == w);
    }
}

/// A successful decode has read exactly the encoding of a well-formed instruction.
pub proof fn lemma_decoded_is_encoding(mem: Seq<u8>)
    requires
        spec_decode(mem) is Ok,
    ensures
        ({
            let (n, insn) = spec_decode(mem)->Ok_0;
            &&& insn.wf()
            &&& n == insn.spec_encoding().len()
            &&& n <= mem.len()
            &&& mem.take(n as int) == insn.spec_encoding()
        }),
{
    let w = word_of(mem[0], mem[1]);
    if mem.len() >= 2 && decode_word(w) is Some {
        lemma_decode_word_inverse(w as u16);
        let insn = decode_word(w)->0;
        assert((w / 256) as u8 == mem[0]);
        assert((w % 256) as u8 == mem[1]);
        assert(mem.take(2) =~= insn.spec_encoding());
    } else {
        let i = word_of(mem[2], mem[3]);
        assert(((i / 256) % 256) as u8 == mem[2]);
        assert((i % 256) as u8 == mem[3]);
        assert(mem.take(4) =~= (Insn::long { i: i as usize }).spec_encoding());
    }
}

/// Decodes the instruction with nibbles `0 x y n` (system and screen control).
fn decode_system(x: u16, y: u16, n: u16) -> (r: Option<Insn>)
    requires
        x < 16,
        y < 16,
        n < 16,
    ensures
        r == decode_nibbles(0, x as nat, y as nat, n as nat),
{
    reveal(decode_nibbles);
    if x != 0 {
        None
    } else if y == 0xe && n == 0x0 {
        Some(Insn::cls)
    } else if y == 0xe && n == 0xe {
        Some(Insn::ret)
    } else if y == 0xf && n == 0xb {
        Some(Insn::scr)
    } else if y == 0xf && n == 0xc {
        Some(Insn::scl)
    } else if y == 0xf && n == 0xd {
        Some(Insn::halt)
    } else if y == 0xf && n == 0xe {
        Some(Insn::lores)
    } else if y == 0xf && n == 0xf {
        Some(Insn::hires)
    } else if y == 0xc {
        Some(Insn::scd { n: n as u8 })
    } else if y == 0xd {
        Some(Insn::scu { n: n as u8 })
    } else {
        None
    }
}

/// Decodes the instruction with nibbles `8 x y n` (register arithmetic and logic).
fn decode_alu(x: u16, y: u16, n: u16) -> (r: Option<Insn>)
    requires
        x < 16,
        y < 16,
        n < 16,
    ensures
        r == decode_nibbles(8, x as nat, y as nat, n as nat),
{
    reveal(decode_nibbles);
    let (x, y) = (x as usize, y as usize);
    if n == 0x0 {
        Some(Insn::mov { x, y })
    } else if n == 0x1 {
        Some(Insn::or { y, x })
    } else if n == 0x2 {
        Some(Insn::and { y, x })
    } else if n == 0x3 {
        Some(Insn::xor { y, x })
    } else if n == 0x4 {
        Some(Insn::add { y, x })
    } else if n == 0x5 {
        Some(Insn::sub { y, x })
    } else if n == 0x6 {
        Some(Insn::shr { y, x })
    } else if n == 0x7 {
        Some(Insn::bsub { y, x })
    } else if n == 0xe {
        Some(Insn::shl { y, x })
    } else {
        None
    }
}

/// Decodes the instruction with nibbles `F x b` (timers, index, memory and flags).
fn decode_misc(x: u16, y: u16, n: u16) -> (r: Option<Insn>)
    requires
        x < 16,
        y < 16,
        n < 16,
    ensures
        r == decode_nibbles(0xf, x as nat, y as nat, n as nat),
{
    reveal(decode_nibbles);
    let b = y * 16 + n;
    let x = x as usize;
    if b == 0x07 {
        Some(Insn::getdt { x })
    } else if b == 0x0a {
        Some(Insn::waitk { x })
    } else if b == 0x15 {
        Some(Insn::setdt { x })
    } else if b == 0x18 {
        Some(Insn::movst { x })
    } else if b == 0x1e {
        Some(Insn::addI { x })
    } else if b == 0x29 {
        Some(Insn::font { x })
    } else if b == 0x30 {
        Some(Insn::hfont { x })
    } else if b == 0x33 {
        Some(Insn::bcd { x })
    } else if b == 0x55 {
        Some(Insn::dmao { x })
    } else if b == 0x65 {
        Some(Insn::dmai { x })
    } else if b == 0x75 {
        Some(Insn::flgo { x })
    } else if b == 0x85 {
        Some(Insn::flgi { x })
    } else {
        None
    }
}

/// Decodes the instruction with nibbles `i x y n` whose top nibble is neither 0, 8 nor F.
fn decode_other(i: u16, x: u16, y: u16, n: u16) -> (r: Option<Insn>)
    requires
        0 < i < 15,
        i != 8,
        x < 16,
        y < 16,
        n < 16,
    ensures
        r == decode_nibbles(i as nat, x as nat, y as nat, n as nat),
{
    reveal(decode_nibbles);
    let b = (y * 16 + n) as u8;
    let a = x * 256 + y * 16 + n;
    let (xr, yr) = (x as usize, y as usize);
    if i == 0x1 {
        Some(Insn::jmp { A: a })
    } else if i == 0x2 {
        Some(Insn::call { A: a })
    } else if i == 0x3 {
        Some(Insn::seb { B: b, x: xr })
    } else if i == 0x4 {
        Some(Insn::sneb { B: b, x: xr })
    } else if i == 0x5 {
        if n == 0 {
            Some(Insn::se { y: yr, x: xr })
        } else if n == 2 {
            Some(Insn::dmaro { y: yr, x: xr })
        } else if n == 3 {
            Some(Insn::dmari { y: yr, x: xr })
        } else {
            None
        }
    } else if i == 0x6 {
        Some(Insn::movb { B: b, x: xr })
    } else if i == 0x7 {
        Some(Insn::addb { B: b, x: xr })
    } else if i == 0x9 {
        if n == 0 {
            Some(Insn::sne { y: yr, x: xr })
        } else {
            None
        }
    } else if i == 0xa {
        Some(Insn::movI { A: a })
    } else if i == 0xb {
        Some(Insn::jmpr { A: a })
    } else if i == 0xc {
        Some(Insn::rand { B: b, x: xr })
    } else if i == 0xd {
        Some(Insn::draw { y: yr, x: xr, n: n as u8 })
    } else if b == 0x9e {
        Some(Insn::sek { x: xr })
    } else if b == 0xa1 {
        Some(Insn::snek { x: xr })
    } else {
        None
    }
}

/// Decodes the 16-bit opcode `w`.
fn decode_word_exec(w: u16) -> (r: Option<Insn>)
    ensures
        r == decode_word(w as nat),
{
    proof {
        lemma_word_nibbles(w);
    }
    let (i, x, y, n) = (w / 4096, (w / 256) % 16, (w / 16) % 16, w % 16);
    if i == 0 {
        decode_system(x, y, n)
    } else if i == 8 {
        decode_alu(x, y, n)
    } else if i == 0xf {
        decode_misc(x, y, n)
    } else {
        decode_other(i, x, y, n)
    }
}

impl Insn {
    /// Decodes the instruction at the start of `mem`, returning the number of bytes it takes
    /// and the instruction.
    ///
    /// Fails with [DecodeError::UnexpectedEOF] when `mem` is a strict prefix of an encoding,
    /// and with [DecodeError::UnknownOpcode] otherwise.
    pub fn decode(mem: &[u8]) -> (r: Result<(usize, Insn), DecodeError>)
        ensures
            r == spec_decode(mem@),
    {
        if mem.len() >= 2 {
            let w: u16 = (mem[0] as u16) * 256 + mem[1] as u16;
            if let Some(insn) = decode_word_exec(w) {
                return Ok((2, insn));
            }
        }
        if mem.len() >= 4 && mem[0] == 0xf0 && mem[1] == 0 {
            return Ok((4, Insn::long { i: (mem[2] as usize) * 256 + mem[3] as usize }));
        }
        if mem.len() == 0 || (mem.len() == 1 && (mem[0] == 0 || mem[0] >= 16)) || (mem.len() >= 2
            && mem.len() < 4 && mem[0] == 0xf0 && mem[1] == 0) {
            Err(DecodeError::UnexpectedEOF)
        } else {
            Err(DecodeError::UnknownOpcode)
        }
    }

    /// The four nibbles of this instruction's opcode (for `long`, of its first word).
    pub fn nibbles(&self) -> (r: (u16, u16, u16, u16))
        ensures
            r.0 as nat == self.spec_nibbles().0,
            r.1 as nat == self.spec_nibbles().1,
            r.2 as nat == self.spec_nibbles().2,
            r.3 as nat == self.spec_nibbles().3,
    {
        match self {
            Insn::cls => (0x0, 0x0, 0xe, 0x0),
            Insn::ret => (0x0, 0x0, 0xe, 0xe),
            Insn::jmp { A } => (0x1, (*A / 256) % 16, (*A / 16) % 16, *A % 16),
            Insn::call { A } => (0x2, (*A / 256) % 16, (*A / 16) % 16, *A % 16),
            Insn::seb { B, x } => (0x3, (*x % 16) as u16, (*B / 16) as u16, (*B % 16) as u16),
            Insn::sneb { B, x } => (0x4, (*x % 16) as u16, (*B / 16) as u16, (*B % 16) as u16),
            Insn::se { y, x } => (0x5, (*x % 16) as u16, (*y % 16) as u16, 0x0),
            Insn::movb { B, x } => (0x6, (*x % 16) as u16, (*B / 16) as u16, (*B % 16) as u16),
            Insn::addb { B, x } => (0x7, (*x % 16) as u16, (*B / 16) as u16, (*B % 16) as u16),
            Insn::mov { x, y } => (0x8, (*x % 16) as u16, (*y % 16) as u16, 0x0),
            Insn::or { y, x } => (0x8, (*x % 16) as u16, (*y % 16) as u16, 0x1),
            Insn::and { y, x } => (0x8, (*x % 16) as u16, (*y % 16) as u16, 0x2),
            Insn::xor { y, x } => (0x8, (*x % 16) as u16, (*y % 16) as u16, 0x3),
            Insn::add { y, x } => (0x8, (*x % 16) as u16, (*y % 16) as u16, 0x4),
            Insn::sub { y, x } => (0x8, (*x % 16) as u16, (*y % 16) as u16, 0x5),
            Insn::shr { y, x } => (0x8, (*x % 16) as u16, (*y % 16) as u16, 0x6),
            Insn::bsub { y, x } => (0x8, (*x % 16) as u16, (*y % 16) as u16, 0x7),
            Insn::shl { y, x } => (0x8, (*x % 16) as u16, (*y % 16) as u16, 0xe),
            Insn::sne { y, x } => (0x9, (*x % 16) as u16, (*y % 16) as u16, 0x0),
            Insn::movI { A } => (0xa, (*A / 256) % 16, (*A / 16) % 16, *A % 16),
            Insn::jmpr { A } => (0xb, (*A / 256) % 16, (*A / 16) % 16, *A % 16),
            Insn::rand { B, x } => (0xc, (*x % 16) as u16, (*B / 16) as u16, (*B % 16) as u16),
            Insn::draw { y, x, n } => (0xd, (*x % 16) as u16, (*y % 16) as u16, (*n % 16) as u16),
            Insn::sek { x } => (0xe, (*x % 16) as u16, 0x9, 0xe),
            Insn::snek { x } => (0xe, (*x % 16) as u16, 0xa, 0x1),
            Insn::getdt { x } => (0xf, (*x % 16) as u16, 0x0, 0x7),
            Insn::waitk { x } => (0xf, (*x % 16) as u16, 0x0, 0xa),
            Insn::setdt { x } => (0xf, (*x % 16) as u16, 0x1, 0x5),
            Insn::movst { x } => (0xf, (*x % 16) as u16, 0x1, 0x8),
            Insn::addI { x } => (0xf, (*x % 16) as u16, 0x1, 0xe),
            Insn::font { x } => (0xf, (*x % 16) as u16, 0x2, 0x9),
            Insn::bcd { x } => (0xf, (*x % 16) as u16, 0x3, 0x3),
            Insn::dmao { x } => (0xf, (*x % 16) as u16, 0x5, 0x5),
            Insn::dmai { x } => (0xf, (*x % 16) as u16, 0x6, 0x5),
            Insn::scd { n } => (0x0, 0x0, 0xc, (*n % 16) as u16),
            Insn::scr => (0x0, 0x0, 0xf, 0xb),
            Insn::scl => (0x0, 0x0, 0xf, 0xc),
            Insn::halt => (0x0, 0x0, 0xf, 0xd),
            Insn::lores => (0x0, 0x0, 0xf, 0xe),
            Insn::hires => (0x0, 0x0, 0xf, 0xf),
            Insn::hfont { x } => (0xf, (*x % 16) as u16, 0x3, 0x0),
            Insn::flgo { x } => (0xf, (*x % 16) as u16, 0x7, 0x5),
            Insn::flgi { x } => (0xf, (*x % 16) as u16, 0x8, 0x5),
            Insn::scu { n } => (0x0, 0x0, 0xd, (*n % 16) as u16),
            Insn::dmaro { y, x } => (0x5, (*x % 16) as u16, (*y % 16) as u16, 0x2),
            Insn::dmari { y, x } => (0x5, (*x % 16) as u16, (*y % 16) as u16, 0x3),
            Insn::long { .. } => (0xf, 0x0, 0x0, 0x0),
        }
    }

    /// Writes the encoding of this instruction to the start of `buf`, returning the number of
    /// bytes written; fails, writing nothing, when `buf` is too short.
    pub fn encode(&self, buf: &mut [u8]) -> (r: Result<usize, EncodeError>)
        ensures
            old(buf)@.len() < self.spec_encoding().len() ==> r == Err::<usize, EncodeError>(
                EncodeError::UnexpectedEOF,
            ) && final(buf)@ == old(buf)@,
            old(buf)@.len() >= self.spec_encoding().len() ==> r == Ok::<usize, EncodeError>(
                self.spec_encoding().len() as usize,
            ) && final(buf)@ == self.spec_encoding() + old(buf)@.skip(
                self.spec_encoding().len() as int,
            ),
    {
        if let Insn::long { i } = self {
            if buf.len() < 4 {
                return Err(EncodeError::UnexpectedEOF);
            }
            buf[0] = 0xf0;
            buf[1] = 0x00;
            buf[2] = ((*i / 256) % 256) as u8;
            buf[3] = (*i % 256) as u8;
            assert(buf@ =~= self.spec_encoding() + old(buf)@.skip(4));
            Ok(4)
        } else {
            if buf.len() < 2 {
                return Err(EncodeError::UnexpectedEOF);
            }
            let (i, x, y, n) = self.nibbles();
            let w: u16 = i * 4096 + x * 256 + y * 16 + n;
            buf[0] = (w / 256) as u8;
            buf[1] = (w % 256) as u8;
            assert(buf@ =~= self.spec_encoding() + old(buf)@.skip(2));
            Ok(2)
        }
    }

    /// The assembly text of this instruction.
    pub fn to_string(&self) -> (s: String)
        ensures
            s@ == self.spec_text(),
    {
        let mut s = String::new();
        match self {
            Insn::cls => {
                push_str(&mut s, "cls    ");
            },
            Insn::ret => {
                push_str(&mut s, "ret    ");
            },
            Insn::jmp { A } => {
                push_str(&mut s, "jmp    ");
                push_hex(&mut s, *A as u64, 3, false);
            },
            Insn::call { A } => {
                push_str(&mut s, "call   ");
                push_hex(&mut s, *A as u64, 3, false);
            },
            Insn::seb { B, x } => {
                push_str(&mut s, "se     #");
                push_hex(&mut s, *B as u64, 2, false);
                push_str(&mut s, ", v");
                push_hex(&mut s, *x as u64, 1, true);
            },
            Insn::sneb { B, x } => {
                push_str(&mut s, "sne    #");
                push_hex(&mut s, *B as u64, 2, false);
                push_str(&mut s, ", v");
                push_hex(&mut s, *x as u64, 1, true);
            },
            Insn::se { y, x } => {
                push_str(&mut s, "se     v");
                push_hex(&mut s, *y as u64, 1, true);
                push_str(&mut s, ", v");
                push_hex(&mut s, *x as u64, 1, true);
            },
            Insn::movb { B, x } => {
                push_str(&mut s, "mov    #");
                push_hex(&mut s, *B as u64, 2, false);
                push_str(&mut s, ", v");
                push_hex(&mut s, *x as u64, 1, true);
            },
            Insn::addb { B, x } => {
                push_str(&mut s, "add    #");
                push_hex(&mut s, *B as u64, 2, false);
                push_str(&mut s, ", v");
                push_hex(&mut s, *x as u64, 1, true);
            },
            Insn::mov { x, y } => {
                push_str(&mut s, "mov    v");
                push_hex(&mut s, *y as u64, 1, true);
                push_str(&mut s, ", v");
                push_hex(&mut s, *x as u64, 1, true);
            },
            Insn::or { y, x } => {
                push_str(&mut s, "or     v");
                push_hex(&mut s, *y as u64, 1, true);
                push_str(&mut s, ", v");
                push_hex(&mut s, *x as u64, 1, true);
            },
            Insn::and { y, x } => {
                push_str(&mut s, "and    v");
                push_hex(&mut s, *y as u64, 1, true);
                push_str(&mut s, ", v");
                push_hex(&mut s, *x as u64, 1, true);
            },
            Insn::xor { y, x } => {
                push_str(&mut s, "xor    v");
                push_hex(&mut s, *y as u64, 1, true);
                push_str(&mut s, ", v");
                push_hex(&mut s, *x as u64, 1, true);
            },
            Insn::add { y, x } => {
                push_str(&mut s, "add    v");
                push_hex(&mut s, *y as u64, 1, true);
                push_str(&mut s, ", v");
                push_hex(&mut s, *x as u64, 1, true);
            },
            Insn::sub { y, x } => {
                push_str(&mut s, "sub    v");
                push_hex(&mut s, *y as u64, 1, true);
                push_str(&mut s, ", v");
                push_hex(&mut s, *x as u64, 1, true);
            },
            Insn::shr { y, x } => {
                push_str(&mut s, "shr    v");
                push_hex(&mut s, *y as u64, 1, true);
                push_str(&mut s, ", v");
                push_hex(&mut s, *x as u64, 1, true);
            },
            Insn::bsub { y, x } => {
                push_str(&mut s, "bsub   v");
                push_hex(&mut s, *y as u64, 1, true);
                push_str(&mut s, ", v");
                push_hex(&mut s, *x as u64, 1, true);
            },
            Insn::shl { y, x } => {
                push_str(&mut s, "shl    v");
                push_hex(&mut s, *y as u64, 1, true);
                push_str(&mut s, ", v");
                push_hex(&mut s, *x as u64, 1, true);
            },
            Insn::sne { y, x } => {
                push_str(&mut s, "sne    v");
                push_hex(&mut s, *y as u64, 1, true);
                push_str(&mut s, ", v");
                push_hex(&mut s, *x as u64, 1, true);
            },
            Insn::movI { A } => {
                push_str(&mut s, "mov    $");
                push_hex(&mut s, *A as u64, 3, false);
                push_str(&mut s, ", I");
            },
            Insn::jmpr { A } => {
                push_str(&mut s, "jmp    $");
                push_hex(&mut s, *A as u64, 3, false);
                push_str(&mut s, "+v0");
            },
            Insn::rand { B, x } => {
                push_str(&mut s, "rand   #");
                push_hex(&mut s, *B as u64, 2, false);
                push_str(&mut s, ", v");
                push_hex(&mut s, *x as u64, 1, true);
            },
            Insn::draw { y, x, n } => {
                push_str(&mut s, "draw   #");
                push_hex(&mut s, *n as u64, 1, false);
                push_str(&mut s, ", v");
                push_hex(&mut s, *x as u64, 1, true);
                push_str(&mut s, ", v");
                push_hex(&mut s, *y as u64, 1, true);
            },
            Insn::sek { x } => {
                push_str(&mut s, "sek    v");
                push_hex(&mut s, *x as u64, 1, true);
            },
            Insn::snek { x } => {
                push_str(&mut s, "snek   v");
                push_hex(&mut s, *x as u64, 1, true);
            },
            Insn::getdt { x } => {
                push_str(&mut s, "mov    DT, v");
                push_hex(&mut s, *x as u64, 1, true);
            },
            Insn::waitk { x } => {
                push_str(&mut s, "waitk  v");
                push_hex(&mut s, *x as u64, 1, true);
            },
            Insn::setdt { x } => {
                push_str(&mut s, "mov    v");
                push_hex(&mut s, *x as u64, 1, true);
                push_str(&mut s, ", DT");
            },
            Insn::movst { x } => {
                push_str(&mut s, "mov    v");
                push_hex(&mut s, *x as u64, 1, true);
                push_str(&mut s, ", ST");
            },
            Insn::addI { x } => {
                push_str(&mut s, "add    v");
                push_hex(&mut s, *x as u64, 1, true);
                push_str(&mut s, ", I");
            },
            Insn::font { x } => {
                push_str(&mut s, "font   v");
                push_hex(&mut s, *x as u64, 1, true);
                push_str(&mut s, ", I");
            },
            Insn::bcd { x } => {
                push_str(&mut s, "bcd    v");
                push_hex(&mut s, *x as u64, 1, true);
                push_str(&mut s, ", &I");
            },
            Insn::dmao { x } => {
                push_str(&mut s, "dmao   v");
                push_hex(&mut s, *x as u64, 1, true);
            },
            Insn::dmai { x } => {
                push_str(&mut s, "dmai   v");
                push_hex(&mut s, *x as u64, 1, true);
            },
            Insn::scd { n } => {
                push_str(&mut s, "scd    #");
                push_hex(&mut s, *n as u64, 1, false);
            },
            Insn::scr => {
                push_str(&mut s, "scr    ");
            },
            Insn::scl => {
                push_str(&mut s, "scl    ");
            },
            Insn::halt => {
                push_str(&mut s, "halt   ");
            },
            Insn::lores => {
                push_str(&mut s, "lores  ");
            },
            Insn::hires => {
                push_str(&mut s, "hires  ");
            },
            Insn::hfont { x } => {
                push_str(&mut s, "hfont  v");
                push_hex(&mut s, *x as u64, 1, true);
            },
            Insn::flgo { x } => {
                push_str(&mut s, "flgo   v");
                push_hex(&mut s, *x as u64, 1, true);
            },
            Insn::flgi { x } => {
                push_str(&mut s, "flgi   v");
                push_hex(&mut s, *x as u64, 1, true);
            },
            Insn::scu { n } => {
                push_str(&mut s, "scu    #");
                push_hex(&mut s, *n as u64, 1, false);
            },
            Insn::dmaro { y, x } => {
                push_str(&mut s, "dmaro  v");
                push_hex(&mut s, *x as u64, 1, true);
                push_str(&mut s, "..v");
                push_hex(&mut s, *y as u64, 1, true);
            },
            Insn::dmari { y, x } => {
                push_str(&mut s, "dmari  v");
                push_hex(&mut s, *x as u64, 1, true);
                push_str(&mut s, "..v");
                push_hex(&mut s, *y as u64, 1, true);
            },
            Insn::long { i } => {
                push_str(&mut s, "long   $");
                push_hex(&mut s, *i as u64, 4, false);
            },
        }
        s
    }
}

} // verus!
