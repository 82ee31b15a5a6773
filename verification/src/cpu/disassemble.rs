//! A disassembler for Chip-8 opcodes

use crate::text::{hex_char, hex_text, push_char, push_hex, push_str};
use owo_colors::{OwoColorize, Style};
use vstd::prelude::*;

verus! {

#[verifier::external_type_specification]
#[verifier::external_body]
pub struct ExStyle(Style);

/// `Style::new`: the plain style, which applies no formatting: text displayed in it has no
/// escape codes around it.
pub assume_specification[ Style::new ]() -> (r: Style)
    ensures
        forall|t: Seq<char>| #[trigger] painted(t, r) == t,
;

/// `Style::bold`: the style, made bold. Nothing is claimed of it here.
pub assume_specification[ Style::bold ](style: Style) -> Style;

/// `Style::red`: the style, with a red foreground. Nothing is claimed of it here.
pub assume_specification[ Style::red ](style: Style) -> Style;

/// `Style::green`: the style, with a green foreground. Nothing is claimed of it here.
pub assume_specification[ Style::green ](style: Style) -> Style;

/// `Style::on_black`: the style, with a black background. Nothing is claimed of it here.
pub assume_specification[ Style::on_black ](style: Style) -> Style;

/// What displaying `text` in `style` gives: the text between the style's ANSI escape codes.
pub uninterp spec fn painted(text: Seq<char>, style: Style) -> Seq<char>;

/// `OwoColorize::style`, displayed: `text` between the style's ANSI prefix and suffix. The
/// contract names the result ([painted]: it depends on the text and the style alone) and
/// claims that `text` stands whole between some prefix and some suffix; which escape codes
/// they hold depends on the style, which is opaque here.
#[verifier::external_body]
pub(crate) fn paint(text: &str, style: Style) -> (r: String)
    ensures
        r@ == painted(text@, style),
        exists|pre: Seq<char>, post: Seq<char>| r@ == pre + text@ + post,
{
    format!("{}", text.style(style))
}

/// Extracts the I nibble of an IXYN instruction
pub fn i(ins: u16) -> (r: u8)
    ensures
        r == ins / 4096,
{
    assert((ins >> 12u16) & 0xf == ins / 4096) by (bit_vector);
    ((ins >> 12u16) & 0xf) as u8
}

/// Extracts the X nibble of an IXYN instruction
pub fn x(ins: u16) -> (r: usize)
    ensures
        r == (ins / 256) % 16,
{
    assert((ins >> 8u16) & 0xf == (ins / 256) % 16) by (bit_vector);
    ((ins >> 8u16) & 0xf) as usize
}

/// Extracts the Y nibble of an IXYN instruction
pub fn y(ins: u16) -> (r: usize)
    ensures
        r == (ins / 16) % 16,
{
    assert((ins >> 4u16) & 0xf == (ins / 16) % 16) by (bit_vector);
    ((ins >> 4u16) & 0xf) as usize
}

/// Extracts the N nibble of an IXYN instruction
pub fn n(ins: u16) -> (r: u8)
    ensures
        r == ins % 16,
{
    assert(ins & 0xf == ins % 16) by (bit_vector);
    (ins & 0xf) as u8
}

/// Extracts the B byte of an IXBB instruction
pub fn b(ins: u16) -> (r: u8)
    ensures
        r == ins % 256,
{
    assert(ins & 0xff == ins % 256) by (bit_vector);
    (ins & 0xff) as u8
}

/// Extracts the ADR trinibble of an IADR instruction
pub fn a(ins: u16) -> (r: u16)
    ensures
        r == ins % 4096,
{
    assert(ins & 0x0fff == ins % 4096) by (bit_vector);
    ins & 0x0fff
}

/// The text of the disassembly of `opcode`: a mnemonic padded to seven columns, then its
/// operands (an unused opcode shows as `inval` and the opcode in hexadecimal).
pub open spec fn disasm_text(opcode: u16) -> Seq<char> {
    let (i, x, y, n, b, a) = (
        opcode / 4096,
        (opcode / 256) % 16,
        (opcode / 16) % 16,
        opcode % 16,
        opcode % 256,
        opcode % 4096,
    );
    let inval = "inval  "@ + hex_text(opcode as nat, 4, false);
    if i == 0x0 {
        if a == 0x0e0 {
            "cls    "@
        } else if a == 0x0ee {
            "ret    "@
        } else {
            "sysc   "@ + hex_text(a as nat, 3, false)
        }
    } else if i == 0x1 {
        "jmp    "@ + hex_text(a as nat, 3, false)
    } else if i == 0x2 {
        "call   "@ + hex_text(a as nat, 3, false)
    } else if i == 0x3 {
        "se     "@ + seq!['#'] + hex_text(b as nat, 2, false) + ", "@ + seq!['v'] + hex_text(x as nat, 1, true)
    } else if i == 0x4 {
        "sne    "@ + seq!['#'] + hex_text(b as nat, 2, false) + ", "@ + seq!['v'] + hex_text(x as nat, 1, true)
    } else if i == 0x5 {
        if n == 0 {
            "se     "@ + seq!['v'] + hex_text(x as nat, 1, true) + ", "@ + seq!['v'] + hex_text(y as nat, 1, true)
        } else {
            inval
        }
    } else if i == 0x6 {
        "mov    "@ + seq!['#'] + hex_text(b as nat, 2, false) + ", "@ + seq!['v'] + hex_text(x as nat, 1, true)
    } else if i == 0x7 {
        "add    "@ + seq!['#'] + hex_text(b as nat, 2, false) + ", "@ + seq!['v'] + hex_text(x as nat, 1, true)
    } else if i == 0x8 {
        if n == 0x0 {
            "mov    "@ + seq!['v'] + hex_text(y as nat, 1, true) + ", "@ + seq!['v'] + hex_text(x as nat, 1, true)
        } else if n == 0x1 {
            "or     "@ + seq!['v'] + hex_text(y as nat, 1, true) + ", "@ + seq!['v'] + hex_text(x as nat, 1, true)
        } else if n == 0x2 {
            "and    "@ + seq!['v'] + hex_text(y as nat, 1, true) + ", "@ + seq!['v'] + hex_text(x as nat, 1, true)
        } else if n == 0x3 {
            "xor    "@ + seq!['v'] + hex_text(y as nat, 1, true) + ", "@ + seq!['v'] + hex_text(x as nat, 1, true)
        } else if n == 0x4 {
            "add    "@ + seq!['v'] + hex_text(y as nat, 1, true) + ", "@ + seq!['v'] + hex_text(x as nat, 1, true)
        } else if n == 0x5 {
            "sub    "@ + seq!['v'] + hex_text(y as nat, 1, true) + ", "@ + seq!['v'] + hex_text(x as nat, 1, true)
        } else if n == 0x6 {
            "shr    "@ + seq!['v'] + hex_text(x as nat, 1, true)
        } else if n == 0x7 {
            "bsub   "@ + seq!['v'] + hex_text(y as nat, 1, true) + ", "@ + seq!['v'] + hex_text(x as nat, 1, true)
        } else if n == 0xe {
            "shl    "@ + seq!['v'] + hex_text(x as nat, 1, true)
        } else {
            inval
        }
    } else if i == 0x9 {
        if n == 0 {
            "sne    "@ + seq!['v'] + hex_text(x as nat, 1, true) + ", "@ + seq!['v'] + hex_text(y as nat, 1, true)
        } else {
            inval
        }
    } else if i == 0xa {
        "mov    $"@ + hex_text(a as nat, 3, false) + ", I"@
    } else if i == 0xb {
        "jmp    $"@ + hex_text(a as nat, 3, false) + "+v0"@
    } else if i == 0xc {
        "rand   #"@ + hex_text(b as nat, 1, true) + ", "@ + seq!['v'] + hex_text(x as nat, 1, true)
    } else if i == 0xd {
        "draw   #"@ + hex_text(n as nat, 1, false) + ", "@ + seq!['v'] + hex_text(x as nat, 1, true) + ", "@ + seq!['v'] + hex_text(y as nat, 1, true)
    } else if i == 0xe {
        if b == 0x9e {
            "sek    "@ + seq!['v'] + hex_text(x as nat, 1, true)
        } else if b == 0xa1 {
            "snek   "@ + seq!['v'] + hex_text(x as nat, 1, true)
        } else {
            inval
        }
    } else {
        if b == 0x07 {
            "mov    DT, "@ + seq!['v'] + hex_text(x as nat, 1, true)
        } else if b == 0x0a {
            "waitk  "@ + seq!['v'] + hex_text(x as nat, 1, true)
        } else if b == 0x15 {
            "mov    "@ + seq!['v'] + hex_text(x as nat, 1, true) + ", DT"@
        } else if b == 0x18 {
            "mov    "@ + seq!['v'] + hex_text(x as nat, 1, true) + ", ST"@
        } else if b == 0x1e {
            "add    "@ + seq!['v'] + hex_text(x as nat, 1, true) + ", I"@
        } else if b == 0x29 {
            "font   "@ + seq!['v'] + hex_text(x as nat, 1, true) + ", I"@
        } else if b == 0x33 {
            "bcd    "@ + seq!['v'] + hex_text(x as nat, 1, true) + ", &I"@
        } else if b == 0x55 {
            "dmao   "@ + seq!['v'] + hex_text(x as nat, 1, true)
        } else if b == 0x65 {
            "dmai   "@ + seq!['v'] + hex_text(x as nat, 1, true)
        } else {
            inval
        }
    }
}

/// Whether `opcode` disassembles to an instruction (rather than a machine-language call or
/// an unused opcode), and so is shown in the normal style.
pub open spec fn disasm_valid(opcode: u16) -> bool {
    let (i, n, b, a) = (opcode / 4096, opcode % 16, opcode % 256, opcode % 4096);
    if i == 0x0 {
        a == 0x0e0 || a == 0x0ee
    } else if i == 0x5 || i == 0x9 {
        n == 0
    } else if i == 0x8 {
        n <= 7 || n == 0xe
    } else if i == 0xe {
        b == 0x9e || b == 0xa1
    } else if i == 0xf {
        b == 0x07 || b == 0x0a || b == 0x15 || b == 0x18 || b == 0x1e || b == 0x29 || b == 0x33
            || b == 0x55 || b == 0x65
    } else {
        true
    }
}

/// Disassembles Chip-8 instructions, printing them in the provided [owo_colors::Style]s
#[derive(Clone, Copy, Debug, PartialEq)]
pub struct Disassemble {
    invalid: Style,
    normal: Style,
}

impl Default for Disassemble {
    fn default() -> Self {
        Disassemble::builder().build()
    }
}

/// The disassembly of `Cxbb` shows the whole mask byte: for every register `x` and mask `b`
/// the text is `rand   #`, then `b` in upper-case hexadecimal with both of its digits when it
/// has two (the high digit first), then `, v` and the register's digit. So `C0FF` reads
/// `rand   #FF, v0`, and two masks with the same low digit show differently.
pub proof fn lemma_rand_text(x: u16, b: u16)
    requires
        x < 16,
        b < 256,
    ensures
        disasm_text((0xc000 + x * 256 + b) as u16) == "rand   #"@ + (if b >= 16 {
            seq![hex_char((b / 16) as nat, true), hex_char((b % 16) as nat, true)]
        } else {
            seq![hex_char(b as nat, true)]
        }) + seq![',', ' ', 'v', hex_char(x as nat, true)],
        disasm_text((0xc000 + x * 256 + b) as u16).len() == if b >= 16 {
            14nat
        } else {
            13nat
        },
{
    let op: u16 = (0xc000 + x * 256 + b) as u16;
    assert(op / 4096 == 12 && (op / 256) % 16 == x && op % 256 == b) by (nonlinear_arith)
        requires
            op == 0xc000 + x * 256 + b,
            0 <= x < 16,
            0 <= b < 256,
    ;
    reveal_with_fuel(hex_text, 2);
    reveal_strlit(", ");
    reveal_strlit("rand   #");
    let digits = if b >= 16 {
        seq![hex_char((b / 16) as nat, true), hex_char((b % 16) as nat, true)]
    } else {
        seq![hex_char(b as nat, true)]
    };
    assert(hex_text(b as nat, 1, true) =~= digits);
    assert(", "@ + seq!['v'] + hex_text(x as nat, 1, true) =~= seq![',', ' ', 'v', hex_char(x as nat, true)]);
    assert(disasm_text(op) =~= "rand   #"@ + digits + seq![',', ' ', 'v', hex_char(x as nat, true)]);
    assert("rand   #"@.len() == 8);
}

/// The plain text of a disassembly, built by appending to `s`.
fn text_of(opcode: u16) -> (r: String)
    ensures
        r@ == disasm_text(opcode),
{
    let (i, x, y, n, b, a) = (i(opcode), x(opcode), y(opcode), n(opcode), b(opcode), a(opcode));
    let mut s = String::new();
    let valid = match i {
        0x0 => a == 0x0e0 || a == 0x0ee,
        0x5 | 0x9 => n == 0,
        0x8 => n <= 7 || n == 0xe,
        0xe => b == 0x9e || b == 0xa1,
        0xf => b == 0x07 || b == 0x0a || b == 0x15 || b == 0x18 || b == 0x1e || b == 0x29 || b
            == 0x33 || b == 0x55 || b == 0x65,
        _ => true,
    };
    if !valid && !(i == 0 && a != 0x0e0 && a != 0x0ee) {
        push_str(&mut s, "inval  ");
        push_hex(&mut s, opcode as u64, 4, false);
        assert(s@ =~= disasm_text(opcode));
        return s;
    }
    match i {
        0x0 => {
            if a == 0x0e0 {
                push_str(&mut s, "cls    ");
            } else if a == 0x0ee {
                push_str(&mut s, "ret    ");
            } else {
                push_str(&mut s, "sysc   ");
                push_hex(&mut s, a as u64, 3, false);
            }
        },
        0x1 => {
            push_str(&mut s, "jmp    ");
                push_hex(&mut s, a as u64, 3, false);
        },
        0x2 => {
            push_str(&mut s, "call   ");
                push_hex(&mut s, a as u64, 3, false);
        },
        0x3 => {
            push_str(&mut s, "se     ");
                push_char(&mut s, '#');
        push_hex(&mut s, b as u64, 2, false);
                push_str(&mut s, ", ");
                push_char(&mut s, 'v');
        push_hex(&mut s, x as u64, 1, true);
        },
        0x4 => {
            push_str(&mut s, "sne    ");
                push_char(&mut s, '#');
        push_hex(&mut s, b as u64, 2, false);
                push_str(&mut s, ", ");
                push_char(&mut s, 'v');
        push_hex(&mut s, x as u64, 1, true);
        },
        0x5 => {
            push_str(&mut s, "se     ");
                push_char(&mut s, 'v');
        push_hex(&mut s, x as u64, 1, true);
                push_str(&mut s, ", ");
                push_char(&mut s, 'v');
        push_hex(&mut s, y as u64, 1, true);
        },
        0x6 => {
            push_str(&mut s, "mov    ");
                push_char(&mut s, '#');
        push_hex(&mut s, b as u64, 2, false);
                push_str(&mut s, ", ");
                push_char(&mut s, 'v');
        push_hex(&mut s, x as u64, 1, true);
        },
        0x7 => {
            push_str(&mut s, "add    ");
                push_char(&mut s, '#');
        push_hex(&mut s, b as u64, 2, false);
                push_str(&mut s, ", ");
                push_char(&mut s, 'v');
        push_hex(&mut s, x as u64, 1, true);
        },
        0x8 => {
            if n == 0x0 {
                push_str(&mut s, "mov    ");
                push_char(&mut s, 'v');
        push_hex(&mut s, y as u64, 1, true);
                push_str(&mut s, ", ");
                push_char(&mut s, 'v');
        push_hex(&mut s, x as u64, 1, true);
            } else if n == 0x1 {
                push_str(&mut s, "or     ");
                push_char(&mut s, 'v');
        push_hex(&mut s, y as u64, 1, true);
                push_str(&mut s, ", ");
                push_char(&mut s, 'v');
        push_hex(&mut s, x as u64, 1, true);
            } else if n == 0x2 {
                push_str(&mut s, "and    ");
                push_char(&mut s, 'v');
        push_hex(&mut s, y as u64, 1, true);
                push_str(&mut s, ", ");
                push_char(&mut s, 'v');
        push_hex(&mut s, x as u64, 1, true);
            } else if n == 0x3 {
                push_str(&mut s, "xor    ");
                push_char(&mut s, 'v');
        push_hex(&mut s, y as u64, 1, true);
                push_str(&mut s, ", ");
                push_char(&mut s, 'v');
        push_hex(&mut s, x as u64, 1, true);
            } else if n == 0x4 {
                push_str(&mut s, "add    ");
                push_char(&mut s, 'v');
        push_hex(&mut s, y as u64, 1, true);
                push_str(&mut s, ", ");
                push_char(&mut s, 'v');
        push_hex(&mut s, x as u64, 1, true);
            } else if n == 0x5 {
                push_str(&mut s, "sub    ");
                push_char(&mut s, 'v');
        push_hex(&mut s, y as u64, 1, true);
                push_str(&mut s, ", ");
                push_char(&mut s, 'v');
        push_hex(&mut s, x as u64, 1, true);
            } else if n == 0x6 {
                push_str(&mut s, "shr    ");
                push_char(&mut s, 'v');
        push_hex(&mut s, x as u64, 1, true);
            } else if n == 0x7 {
                push_str(&mut s, "bsub   ");
                push_char(&mut s, 'v');
        push_hex(&mut s, y as u64, 1, true);
                push_str(&mut s, ", ");
                push_char(&mut s, 'v');
        push_hex(&mut s, x as u64, 1, true);
            } else {
                push_str(&mut s, "shl    ");
                push_char(&mut s, 'v');
        push_hex(&mut s, x as u64, 1, true);
            }
        },
        0x9 => {
            push_str(&mut s, "sne    ");
                push_char(&mut s, 'v');
        push_hex(&mut s, x as u64, 1, true);
                push_str(&mut s, ", ");
                push_char(&mut s, 'v');
        push_hex(&mut s, y as u64, 1, true);
        },
        0xa => {
            push_str(&mut s, "mov    $");
                push_hex(&mut s, a as u64, 3, false);
                push_str(&mut s, ", I");
        },
        0xb => {
            push_str(&mut s, "jmp    $");
                push_hex(&mut s, a as u64, 3, false);
                push_str(&mut s, "+v0");
        },
        0xc => {
            push_str(&mut s, "rand   #");
                push_hex(&mut s, b as u64, 1, true);
                push_str(&mut s, ", ");
                push_char(&mut s, 'v');
        push_hex(&mut s, x as u64, 1, true);
        },
        0xd => {
            push_str(&mut s, "draw   #");
                push_hex(&mut s, n as u64, 1, false);
                push_str(&mut s, ", ");
                push_char(&mut s, 'v');
        push_hex(&mut s, x as u64, 1, true);
                push_str(&mut s, ", ");
                push_char(&mut s, 'v');
        push_hex(&mut s, y as u64, 1, true);
        },
        0xe => {
            if b == 0x9e {
                push_str(&mut s, "sek    ");
                push_char(&mut s, 'v');
        push_hex(&mut s, x as u64, 1, true);
            } else {
                push_str(&mut s, "snek   ");
                push_char(&mut s, 'v');
        push_hex(&mut s, x as u64, 1, true);
            }
        },
        _ => {
            if b == 0x07 {
                push_str(&mut s, "mov    DT, ");
                push_char(&mut s, 'v');
        push_hex(&mut s, x as u64, 1, true);
            } else if b == 0x0a {
                push_str(&mut s, "waitk  ");
                push_char(&mut s, 'v');
        push_hex(&mut s, x as u64, 1, true);
            } else if b == 0x15 {
                push_str(&mut s, "mov    ");
                push_char(&mut s, 'v');
        push_hex(&mut s, x as u64, 1, true);
                push_str(&mut s, ", DT");
            } else if b == 0x18 {
                push_str(&mut s, "mov    ");
                push_char(&mut s, 'v');
        push_hex(&mut s, x as u64, 1, true);
                push_str(&mut s, ", ST");
            } else if b == 0x1e {
                push_str(&mut s, "add    ");
                push_char(&mut s, 'v');
        push_hex(&mut s, x as u64, 1, true);
                push_str(&mut s, ", I");
            } else if b == 0x29 {
                push_str(&mut s, "font   ");
                push_char(&mut s, 'v');
        push_hex(&mut s, x as u64, 1, true);
                push_str(&mut s, ", I");
            } else if b == 0x33 {
                push_str(&mut s, "bcd    ");
                push_char(&mut s, 'v');
        push_hex(&mut s, x as u64, 1, true);
                push_str(&mut s, ", &I");
            } else if b == 0x55 {
                push_str(&mut s, "dmao   ");
                push_char(&mut s, 'v');
        push_hex(&mut s, x as u64, 1, true);
            } else {
                push_str(&mut s, "dmai   ");
                push_char(&mut s, 'v');
        push_hex(&mut s, x as u64, 1, true);
            }
        },
    }
    assert(s@ =~= disasm_text(opcode));
    s
}

// Public API
impl Disassemble {
    /// The style of invalid instructions.
    pub closed spec fn invalid_style(&self) -> Style {
        self.invalid
    }

    /// The style of valid instructions.
    pub closed spec fn normal_style(&self) -> Style {
        self.normal
    }

    /// Returns a new Disassemble with the provided Styles
    pub fn new(invalid: Style, normal: Style) -> (r: Disassemble)
        ensures
            r.invalid_style() == invalid,
            r.normal_style() == normal,
    {
        Disassemble { invalid, normal }
    }

    /// Creates a [DisassembleBuilder], for partial configuration
    pub fn builder() -> (r: DisassembleBuilder)
        ensures
            r.invalid_style() is None,
            r.normal_style() is None,
    {
        DisassembleBuilder { invalid: None, normal: None }
    }

    /// Disassemble a single instruction: its text, in the normal style when it is valid and
    /// in the invalid style otherwise
    pub fn instruction(&self, opcode: u16) -> (r: String)
        ensures
            r@ == painted(
                disasm_text(opcode),
                if disasm_valid(opcode) {
                    self.normal_style()
                } else {
                    self.invalid_style()
                },
            ),
            exists|pre: Seq<char>, post: Seq<char>| r@ == pre + disasm_text(opcode) + post,
    {
        let text = text_of(opcode);
        let style = if Self::is_valid(opcode) {
            self.normal
        } else {
            self.invalid
        };
        paint(text.as_str(), style)
    }

    /// Whether `opcode` is shown in the normal style.
    fn is_valid(opcode: u16) -> (r: bool)
        ensures
            r == disasm_valid(opcode),
    {
        let (i, n, b, a) = (i(opcode), n(opcode), b(opcode), a(opcode));
        match i {
            0x0 => a == 0x0e0 || a == 0x0ee,
            0x5 | 0x9 => n == 0,
            0x8 => n <= 7 || n == 0xe,
            0xe => b == 0x9e || b == 0xa1,
            0xf => b == 0x07 || b == 0x0a || b == 0x15 || b == 0x18 || b == 0x1e || b == 0x29
                || b == 0x33 || b == 0x55 || b == 0x65,
            _ => true,
        }
    }

    /// `0aaa`: Handles a "machine language function call"
    pub fn sys(&self, a: u16) -> (r: String)
        ensures
            r@ == painted("sysc   "@ + hex_text(a as nat, 3, false), self.invalid_style()),
            exists|pre: Seq<char>, post: Seq<char>| r@ == pre + ("sysc   "@ + hex_text(a as nat, 3, false)) + post,
    {
        let mut s = String::new();
        push_str(&mut s, "sysc   ");
        push_hex(&mut s, a as u64, 3, false);
        assert(s@ =~= "sysc   "@ + hex_text(a as nat, 3, false));
        paint(s.as_str(), self.invalid)
    }

    /// `00e0`: Clears the screen memory to 0
    pub fn clear_screen(&self) -> (r: String)
        ensures
            r@ == painted("cls    "@, self.normal_style()),
            exists|pre: Seq<char>, post: Seq<char>| r@ == pre + ("cls    "@) + post,
    {
        let mut s = String::new();
        push_str(&mut s, "cls    ");
        assert(s@ =~= "cls    "@);
        paint(s.as_str(), self.normal)
    }

    /// `00ee`: Returns from subroutine
    pub fn ret(&self) -> (r: String)
        ensures
            r@ == painted("ret    "@, self.normal_style()),
            exists|pre: Seq<char>, post: Seq<char>| r@ == pre + ("ret    "@) + post,
    {
        let mut s = String::new();
        push_str(&mut s, "ret    ");
        assert(s@ =~= "ret    "@);
        paint(s.as_str(), self.normal)
    }

    /// `1aaa`: Sets the program counter to an absolute address
    pub fn jump(&self, a: u16) -> (r: String)
        ensures
            r@ == painted("jmp    "@ + hex_text(a as nat, 3, false), self.normal_style()),
            exists|pre: Seq<char>, post: Seq<char>| r@ == pre + ("jmp    "@ + hex_text(a as nat, 3, false)) + post,
    {
        let mut s = String::new();
        push_str(&mut s, "jmp    ");
        push_hex(&mut s, a as u64, 3, false);
        assert(s@ =~= "jmp    "@ + hex_text(a as nat, 3, false));
        paint(s.as_str(), self.normal)
    }

    /// `2aaa`: Pushes pc onto the stack, then jumps to a
    pub fn call(&self, a: u16) -> (r: String)
        ensures
            r@ == painted("call   "@ + hex_text(a as nat, 3, false), self.normal_style()),
            exists|pre: Seq<char>, post: Seq<char>| r@ == pre + ("call   "@ + hex_text(a as nat, 3, false)) + post,
    {
        let mut s = String::new();
        push_str(&mut s, "call   ");
        push_hex(&mut s, a as u64, 3, false);
        assert(s@ =~= "call   "@ + hex_text(a as nat, 3, false));
        paint(s.as_str(), self.normal)
    }

    /// `3xbb`: Skips the next instruction if register X == b
    pub fn skip_if_x_equal_byte(&self, x: usize, b: u8) -> (r: String)
        ensures
            r@ == painted("se     "@ + seq!['#'] + hex_text(b as nat, 2, false) + ", "@ + seq!['v'] + hex_text(x as nat, 1, true), self.normal_style()),
            exists|pre: Seq<char>, post: Seq<char>| r@ == pre + ("se     "@ + seq!['#'] + hex_text(b as nat, 2, false) + ", "@ + seq!['v'] + hex_text(x as nat, 1, true)) + post,
    {
        let mut s = String::new();
        push_str(&mut s, "se     ");
        push_char(&mut s, '#');
        push_hex(&mut s, b as u64, 2, false);
        push_str(&mut s, ", ");
        push_char(&mut s, 'v');
        push_hex(&mut s, x as u64, 1, true);
        assert(s@ =~= "se     "@ + seq!['#'] + hex_text(b as nat, 2, false) + ", "@ + seq!['v'] + hex_text(x as nat, 1, true));
        paint(s.as_str(), self.normal)
    }

    /// `4xbb`: Skips the next instruction if register X != b
    pub fn skip_if_x_not_equal_byte(&self, x: usize, b: u8) -> (r: String)
        ensures
            r@ == painted("sne    "@ + seq!['#'] + hex_text(b as nat, 2, false) + ", "@ + seq!['v'] + hex_text(x as nat, 1, true), self.normal_style()),
            exists|pre: Seq<char>, post: Seq<char>| r@ == pre + ("sne    "@ + seq!['#'] + hex_text(b as nat, 2, false) + ", "@ + seq!['v'] + hex_text(x as nat, 1, true)) + post,
    {
        let mut s = String::new();
        push_str(&mut s, "sne    ");
        push_char(&mut s, '#');
        push_hex(&mut s, b as u64, 2, false);
        push_str(&mut s, ", ");
        push_char(&mut s, 'v');
        push_hex(&mut s, x as u64, 1, true);
        assert(s@ =~= "sne    "@ + seq!['#'] + hex_text(b as nat, 2, false) + ", "@ + seq!['v'] + hex_text(x as nat, 1, true));
        paint(s.as_str(), self.normal)
    }

    /// `5xy0`: Skips the next instruction if register X == register Y
    pub fn skip_if_x_equal_y(&self, x: usize, y: usize) -> (r: String)
        ensures
            r@ == painted("se     "@ + seq!['v'] + hex_text(x as nat, 1, true) + ", "@ + seq!['v'] + hex_text(y as nat, 1, true), self.normal_style()),
            exists|pre: Seq<char>, post: Seq<char>| r@ == pre + ("se     "@ + seq!['v'] + hex_text(x as nat, 1, true) + ", "@ + seq!['v'] + hex_text(y as nat, 1, true)) + post,
    {
        let mut s = String::new();
        push_str(&mut s, "se     ");
        push_char(&mut s, 'v');
        push_hex(&mut s, x as u64, 1, true);
        push_str(&mut s, ", ");
        push_char(&mut s, 'v');
        push_hex(&mut s, y as u64, 1, true);
        assert(s@ =~= "se     "@ + seq!['v'] + hex_text(x as nat, 1, true) + ", "@ + seq!['v'] + hex_text(y as nat, 1, true));
        paint(s.as_str(), self.normal)
    }

    /// `6xbb`: Loads immediate byte b into register vX
    pub fn load_immediate(&self, x: usize, b: u8) -> (r: String)
        ensures
            r@ == painted("mov    "@ + seq!['#'] + hex_text(b as nat, 2, false) + ", "@ + seq!['v'] + hex_text(x as nat, 1, true), self.normal_style()),
            exists|pre: Seq<char>, post: Seq<char>| r@ == pre + ("mov    "@ + seq!['#'] + hex_text(b as nat, 2, false) + ", "@ + seq!['v'] + hex_text(x as nat, 1, true)) + post,
    {
        let mut s = String::new();
        push_str(&mut s, "mov    ");
        push_char(&mut s, '#');
        push_hex(&mut s, b as u64, 2, false);
        push_str(&mut s, ", ");
        push_char(&mut s, 'v');
        push_hex(&mut s, x as u64, 1, true);
        assert(s@ =~= "mov    "@ + seq!['#'] + hex_text(b as nat, 2, false) + ", "@ + seq!['v'] + hex_text(x as nat, 1, true));
        paint(s.as_str(), self.normal)
    }

    /// `7xbb`: Adds immediate byte b to register vX
    pub fn add_immediate(&self, x: usize, b: u8) -> (r: String)
        ensures
            r@ == painted("add    "@ + seq!['#'] + hex_text(b as nat, 2, false) + ", "@ + seq!['v'] + hex_text(x as nat, 1, true), self.normal_style()),
            exists|pre: Seq<char>, post: Seq<char>| r@ == pre + ("add    "@ + seq!['#'] + hex_text(b as nat, 2, false) + ", "@ + seq!['v'] + hex_text(x as nat, 1, true)) + post,
    {
        let mut s = String::new();
        push_str(&mut s, "add    ");
        push_char(&mut s, '#');
        push_hex(&mut s, b as u64, 2, false);
        push_str(&mut s, ", ");
        push_char(&mut s, 'v');
        push_hex(&mut s, x as u64, 1, true);
        assert(s@ =~= "add    "@ + seq!['#'] + hex_text(b as nat, 2, false) + ", "@ + seq!['v'] + hex_text(x as nat, 1, true));
        paint(s.as_str(), self.normal)
    }

    /// `8xy0`: Loads the value of y into x
    pub fn load_y_into_x(&self, x: usize, y: usize) -> (r: String)
        ensures
            r@ == painted("mov    "@ + seq!['v'] + hex_text(y as nat, 1, true) + ", "@ + seq!['v'] + hex_text(x as nat, 1, true), self.normal_style()),
            exists|pre: Seq<char>, post: Seq<char>| r@ == pre + ("mov    "@ + seq!['v'] + hex_text(y as nat, 1, true) + ", "@ + seq!['v'] + hex_text(x as nat, 1, true)) + post,
    {
        let mut s = String::new();
        push_str(&mut s, "mov    ");
        push_char(&mut s, 'v');
        push_hex(&mut s, y as u64, 1, true);
        push_str(&mut s, ", ");
        push_char(&mut s, 'v');
        push_hex(&mut s, x as u64, 1, true);
        assert(s@ =~= "mov    "@ + seq!['v'] + hex_text(y as nat, 1, true) + ", "@ + seq!['v'] + hex_text(x as nat, 1, true));
        paint(s.as_str(), self.normal)
    }

    /// `8xy1`: Performs bitwise or of vX and vY, and stores the result in vX
    pub fn x_orequals_y(&self, x: usize, y: usize) -> (r: String)
        ensures
            r@ == painted("or     "@ + seq!['v'] + hex_text(y as nat, 1, true) + ", "@ + seq!['v'] + hex_text(x as nat, 1, true), self.normal_style()),
            exists|pre: Seq<char>, post: Seq<char>| r@ == pre + ("or     "@ + seq!['v'] + hex_text(y as nat, 1, true) + ", "@ + seq!['v'] + hex_text(x as nat, 1, true)) + post,
    {
        let mut s = String::new();
        push_str(&mut s, "or     ");
        push_char(&mut s, 'v');
        push_hex(&mut s, y as u64, 1, true);
        push_str(&mut s, ", ");
        push_char(&mut s, 'v');
        push_hex(&mut s, x as u64, 1, true);
        assert(s@ =~= "or     "@ + seq!['v'] + hex_text(y as nat, 1, true) + ", "@ + seq!['v'] + hex_text(x as nat, 1, true));
        paint(s.as_str(), self.normal)
    }

    /// `8xy2`: Performs bitwise and of vX and vY, and stores the result in vX
    pub fn x_andequals_y(&self, x: usize, y: usize) -> (r: String)
        ensures
            r@ == painted("and    "@ + seq!['v'] + hex_text(y as nat, 1, true) + ", "@ + seq!['v'] + hex_text(x as nat, 1, true), self.normal_style()),
            exists|pre: Seq<char>, post: Seq<char>| r@ == pre + ("and    "@ + seq!['v'] + hex_text(y as nat, 1, true) + ", "@ + seq!['v'] + hex_text(x as nat, 1, true)) + post,
    {
        let mut s = String::new();
        push_str(&mut s, "and    ");
        push_char(&mut s, 'v');
        push_hex(&mut s, y as u64, 1, true);
        push_str(&mut s, ", ");
        push_char(&mut s, 'v');
        push_hex(&mut s, x as u64, 1, true);
        assert(s@ =~= "and    "@ + seq!['v'] + hex_text(y as nat, 1, true) + ", "@ + seq!['v'] + hex_text(x as nat, 1, true));
        paint(s.as_str(), self.normal)
    }

    /// `8xy3`: Performs bitwise xor of vX and vY, and stores the result in vX
    pub fn x_xorequals_y(&self, x: usize, y: usize) -> (r: String)
        ensures
            r@ == painted("xor    "@ + seq!['v'] + hex_text(y as nat, 1, true) + ", "@ + seq!['v'] + hex_text(x as nat, 1, true), self.normal_style()),
            exists|pre: Seq<char>, post: Seq<char>| r@ == pre + ("xor    "@ + seq!['v'] + hex_text(y as nat, 1, true) + ", "@ + seq!['v'] + hex_text(x as nat, 1, true)) + post,
    {
        let mut s = String::new();
        push_str(&mut s, "xor    ");
        push_char(&mut s, 'v');
        push_hex(&mut s, y as u64, 1, true);
        push_str(&mut s, ", ");
        push_char(&mut s, 'v');
        push_hex(&mut s, x as u64, 1, true);
        assert(s@ =~= "xor    "@ + seq!['v'] + hex_text(y as nat, 1, true) + ", "@ + seq!['v'] + hex_text(x as nat, 1, true));
        paint(s.as_str(), self.normal)
    }

    /// `8xy4`: Performs addition of vX and vY, and stores the result in vX
    pub fn x_addequals_y(&self, x: usize, y: usize) -> (r: String)
        ensures
            r@ == painted("add    "@ + seq!['v'] + hex_text(y as nat, 1, true) + ", "@ + seq!['v'] + hex_text(x as nat, 1, true), self.normal_style()),
            exists|pre: Seq<char>, post: Seq<char>| r@ == pre + ("add    "@ + seq!['v'] + hex_text(y as nat, 1, true) + ", "@ + seq!['v'] + hex_text(x as nat, 1, true)) + post,
    {
        let mut s = String::new();
        push_str(&mut s, "add    ");
        push_char(&mut s, 'v');
        push_hex(&mut s, y as u64, 1, true);
        push_str(&mut s, ", ");
        push_char(&mut s, 'v');
        push_hex(&mut s, x as u64, 1, true);
        assert(s@ =~= "add    "@ + seq!['v'] + hex_text(y as nat, 1, true) + ", "@ + seq!['v'] + hex_text(x as nat, 1, true));
        paint(s.as_str(), self.normal)
    }

    /// `8xy5`: Performs subtraction of vX and vY, and stores the result in vX
    pub fn x_subequals_y(&self, x: usize, y: usize) -> (r: String)
        ensures
            r@ == painted("sub    "@ + seq!['v'] + hex_text(y as nat, 1, true) + ", "@ + seq!['v'] + hex_text(x as nat, 1, true), self.normal_style()),
            exists|pre: Seq<char>, post: Seq<char>| r@ == pre + ("sub    "@ + seq!['v'] + hex_text(y as nat, 1, true) + ", "@ + seq!['v'] + hex_text(x as nat, 1, true)) + post,
    {
        let mut s = String::new();
        push_str(&mut s, "sub    ");
        push_char(&mut s, 'v');
        push_hex(&mut s, y as u64, 1, true);
        push_str(&mut s, ", ");
        push_char(&mut s, 'v');
        push_hex(&mut s, x as u64, 1, true);
        assert(s@ =~= "sub    "@ + seq!['v'] + hex_text(y as nat, 1, true) + ", "@ + seq!['v'] + hex_text(x as nat, 1, true));
        paint(s.as_str(), self.normal)
    }

    /// `8xy6`: Performs bitwise right shift of vX
    pub fn shift_right_x(&self, x: usize) -> (r: String)
        ensures
            r@ == painted("shr    "@ + seq!['v'] + hex_text(x as nat, 1, true), self.normal_style()),
            exists|pre: Seq<char>, post: Seq<char>| r@ == pre + ("shr    "@ + seq!['v'] + hex_text(x as nat, 1, true)) + post,
    {
        let mut s = String::new();
        push_str(&mut s, "shr    ");
        push_char(&mut s, 'v');
        push_hex(&mut s, x as u64, 1, true);
        assert(s@ =~= "shr    "@ + seq!['v'] + hex_text(x as nat, 1, true));
        paint(s.as_str(), self.normal)
    }

    /// `8xy7`: Performs subtraction of vY and vX, and stores the result in vX
    pub fn backwards_subtract(&self, x: usize, y: usize) -> (r: String)
        ensures
            r@ == painted("bsub   "@ + seq!['v'] + hex_text(y as nat, 1, true) + ", "@ + seq!['v'] + hex_text(x as nat, 1, true), self.normal_style()),
            exists|pre: Seq<char>, post: Seq<char>| r@ == pre + ("bsub   "@ + seq!['v'] + hex_text(y as nat, 1, true) + ", "@ + seq!['v'] + hex_text(x as nat, 1, true)) + post,
    {
        let mut s = String::new();
        push_str(&mut s, "bsub   ");
        push_char(&mut s, 'v');
        push_hex(&mut s, y as u64, 1, true);
        push_str(&mut s, ", ");
        push_char(&mut s, 'v');
        push_hex(&mut s, x as u64, 1, true);
        assert(s@ =~= "bsub   "@ + seq!['v'] + hex_text(y as nat, 1, true) + ", "@ + seq!['v'] + hex_text(x as nat, 1, true));
        paint(s.as_str(), self.normal)
    }

    /// `8xyE`: Performs bitwise left shift of vX
    pub fn shift_left_x(&self, x: usize) -> (r: String)
        ensures
            r@ == painted("shl    "@ + seq!['v'] + hex_text(x as nat, 1, true), self.normal_style()),
            exists|pre: Seq<char>, post: Seq<char>| r@ == pre + ("shl    "@ + seq!['v'] + hex_text(x as nat, 1, true)) + post,
    {
        let mut s = String::new();
        push_str(&mut s, "shl    ");
        push_char(&mut s, 'v');
        push_hex(&mut s, x as u64, 1, true);
        assert(s@ =~= "shl    "@ + seq!['v'] + hex_text(x as nat, 1, true));
        paint(s.as_str(), self.normal)
    }

    /// `9xy0`: Skip next instruction if X != y
    pub fn skip_if_x_not_equal_y(&self, x: usize, y: usize) -> (r: String)
        ensures
            r@ == painted("sne    "@ + seq!['v'] + hex_text(x as nat, 1, true) + ", "@ + seq!['v'] + hex_text(y as nat, 1, true), self.normal_style()),
            exists|pre: Seq<char>, post: Seq<char>| r@ == pre + ("sne    "@ + seq!['v'] + hex_text(x as nat, 1, true) + ", "@ + seq!['v'] + hex_text(y as nat, 1, true)) + post,
    {
        let mut s = String::new();
        push_str(&mut s, "sne    ");
        push_char(&mut s, 'v');
        push_hex(&mut s, x as u64, 1, true);
        push_str(&mut s, ", ");
        push_char(&mut s, 'v');
        push_hex(&mut s, y as u64, 1, true);
        assert(s@ =~= "sne    "@ + seq!['v'] + hex_text(x as nat, 1, true) + ", "@ + seq!['v'] + hex_text(y as nat, 1, true));
        paint(s.as_str(), self.normal)
    }

    /// `Aadr`: Load address #adr into register I
    pub fn load_indirect_register(&self, a: u16) -> (r: String)
        ensures
            r@ == painted("mov    $"@ + hex_text(a as nat, 3, false) + ", I"@, self.normal_style()),
            exists|pre: Seq<char>, post: Seq<char>| r@ == pre + ("mov    $"@ + hex_text(a as nat, 3, false) + ", I"@) + post,
    {
        let mut s = String::new();
        push_str(&mut s, "mov    $");
        push_hex(&mut s, a as u64, 3, false);
        push_str(&mut s, ", I");
        assert(s@ =~= "mov    $"@ + hex_text(a as nat, 3, false) + ", I"@);
        paint(s.as_str(), self.normal)
    }

    /// `Badr`: Jump to &adr + v0
    pub fn jump_indexed(&self, a: u16) -> (r: String)
        ensures
            r@ == painted("jmp    $"@ + hex_text(a as nat, 3, false) + "+v0"@, self.normal_style()),
            exists|pre: Seq<char>, post: Seq<char>| r@ == pre + ("jmp    $"@ + hex_text(a as nat, 3, false) + "+v0"@) + post,
    {
        let mut s = String::new();
        push_str(&mut s, "jmp    $");
        push_hex(&mut s, a as u64, 3, false);
        push_str(&mut s, "+v0");
        assert(s@ =~= "jmp    $"@ + hex_text(a as nat, 3, false) + "+v0"@);
        paint(s.as_str(), self.normal)
    }

    /// `Cxbb`: Stores a random number + the provided byte into vX
    pub fn rand(&self, x: usize, b: u8) -> (r: String)
        ensures
            r@ == painted("rand   #"@ + hex_text(b as nat, 1, true) + ", "@ + seq!['v'] + hex_text(x as nat, 1, true), self.normal_style()),
            exists|pre: Seq<char>, post: Seq<char>| r@ == pre + ("rand   #"@ + hex_text(b as nat, 1, true) + ", "@ + seq!['v'] + hex_text(x as nat, 1, true)) + post,
    {
        let mut s = String::new();
        push_str(&mut s, "rand   #");
        push_hex(&mut s, b as u64, 1, true);
        push_str(&mut s, ", ");
        push_char(&mut s, 'v');
        push_hex(&mut s, x as u64, 1, true);
        assert(s@ =~= "rand   #"@ + hex_text(b as nat, 1, true) + ", "@ + seq!['v'] + hex_text(x as nat, 1, true));
        paint(s.as_str(), self.normal)
    }

    /// `Dxyn`: Draws n-byte sprite to the screen at coordinates (vX, vY)
    pub fn draw(&self, x: usize, y: usize, n: u8) -> (r: String)
        ensures
            r@ == painted("draw   #"@ + hex_text(n as nat, 1, false) + ", "@ + seq!['v'] + hex_text(x as nat, 1, true) + ", "@ + seq!['v'] + hex_text(y as nat, 1, true), self.normal_style()),
            exists|pre: Seq<char>, post: Seq<char>| r@ == pre + ("draw   #"@ + hex_text(n as nat, 1, false) + ", "@ + seq!['v'] + hex_text(x as nat, 1, true) + ", "@ + seq!['v'] + hex_text(y as nat, 1, true)) + post,
    {
        let mut s = String::new();
        push_str(&mut s, "draw   #");
        push_hex(&mut s, n as u64, 1, false);
        push_str(&mut s, ", ");
        push_char(&mut s, 'v');
        push_hex(&mut s, x as u64, 1, true);
        push_str(&mut s, ", ");
        push_char(&mut s, 'v');
        push_hex(&mut s, y as u64, 1, true);
        assert(s@ =~= "draw   #"@ + hex_text(n as nat, 1, false) + ", "@ + seq!['v'] + hex_text(x as nat, 1, true) + ", "@ + seq!['v'] + hex_text(y as nat, 1, true));
        paint(s.as_str(), self.normal)
    }

    /// `Ex9E`: Skip next instruction if key == #X
    pub fn skip_if_key_equals_x(&self, x: usize) -> (r: String)
        ensures
            r@ == painted("sek    "@ + seq!['v'] + hex_text(x as nat, 1, true), self.normal_style()),
            exists|pre: Seq<char>, post: Seq<char>| r@ == pre + ("sek    "@ + seq!['v'] + hex_text(x as nat, 1, true)) + post,
    {
        let mut s = String::new();
        push_str(&mut s, "sek    ");
        push_char(&mut s, 'v');
        push_hex(&mut s, x as u64, 1, true);
        assert(s@ =~= "sek    "@ + seq!['v'] + hex_text(x as nat, 1, true));
        paint(s.as_str(), self.normal)
    }

    /// `ExA1`: Skip next instruction if key != #X
    pub fn skip_if_key_not_x(&self, x: usize) -> (r: String)
        ensures
            r@ == painted("snek   "@ + seq!['v'] + hex_text(x as nat, 1, true), self.normal_style()),
            exists|pre: Seq<char>, post: Seq<char>| r@ == pre + ("snek   "@ + seq!['v'] + hex_text(x as nat, 1, true)) + post,
    {
        let mut s = String::new();
        push_str(&mut s, "snek   ");
        push_char(&mut s, 'v');
        push_hex(&mut s, x as u64, 1, true);
        assert(s@ =~= "snek   "@ + seq!['v'] + hex_text(x as nat, 1, true));
        paint(s.as_str(), self.normal)
    }

    /// `Fx07`: Get the current DT, and put it in vX
    pub fn get_delay_timer(&self, x: usize) -> (r: String)
        ensures
            r@ == painted("mov    DT, "@ + seq!['v'] + hex_text(x as nat, 1, true), self.normal_style()),
            exists|pre: Seq<char>, post: Seq<char>| r@ == pre + ("mov    DT, "@ + seq!['v'] + hex_text(x as nat, 1, true)) + post,
    {
        let mut s = String::new();
        push_str(&mut s, "mov    DT, ");
        push_char(&mut s, 'v');
        push_hex(&mut s, x as u64, 1, true);
        assert(s@ =~= "mov    DT, "@ + seq!['v'] + hex_text(x as nat, 1, true));
        paint(s.as_str(), self.normal)
    }

    /// `Fx0A`: Wait for key, then vX = K
    pub fn wait_for_key(&self, x: usize) -> (r: String)
        ensures
            r@ == painted("waitk  "@ + seq!['v'] + hex_text(x as nat, 1, true), self.normal_style()),
            exists|pre: Seq<char>, post: Seq<char>| r@ == pre + ("waitk  "@ + seq!['v'] + hex_text(x as nat, 1, true)) + post,
    {
        let mut s = String::new();
        push_str(&mut s, "waitk  ");
        push_char(&mut s, 'v');
        push_hex(&mut s, x as u64, 1, true);
        assert(s@ =~= "waitk  "@ + seq!['v'] + hex_text(x as nat, 1, true));
        paint(s.as_str(), self.normal)
    }

    /// `Fx15`: Load vX into DT
    pub fn load_delay_timer(&self, x: usize) -> (r: String)
        ensures
            r@ == painted("mov    "@ + seq!['v'] + hex_text(x as nat, 1, true) + ", DT"@, self.normal_style()),
            exists|pre: Seq<char>, post: Seq<char>| r@ == pre + ("mov    "@ + seq!['v'] + hex_text(x as nat, 1, true) + ", DT"@) + post,
    {
        let mut s = String::new();
        push_str(&mut s, "mov    ");
        push_char(&mut s, 'v');
        push_hex(&mut s, x as u64, 1, true);
        push_str(&mut s, ", DT");
        assert(s@ =~= "mov    "@ + seq!['v'] + hex_text(x as nat, 1, true) + ", DT"@);
        paint(s.as_str(), self.normal)
    }

    /// `Fx18`: Load vX into ST
    pub fn load_sound_timer(&self, x: usize) -> (r: String)
        ensures
            r@ == painted("mov    "@ + seq!['v'] + hex_text(x as nat, 1, true) + ", ST"@, self.normal_style()),
            exists|pre: Seq<char>, post: Seq<char>| r@ == pre + ("mov    "@ + seq!['v'] + hex_text(x as nat, 1, true) + ", ST"@) + post,
    {
        let mut s = String::new();
        push_str(&mut s, "mov    ");
        push_char(&mut s, 'v');
        push_hex(&mut s, x as u64, 1, true);
        push_str(&mut s, ", ST");
        assert(s@ =~= "mov    "@ + seq!['v'] + hex_text(x as nat, 1, true) + ", ST"@);
        paint(s.as_str(), self.normal)
    }

    /// `Fx1e`: Add vX to I
    pub fn add_to_indirect(&self, x: usize) -> (r: String)
        ensures
            r@ == painted("add    "@ + seq!['v'] + hex_text(x as nat, 1, true) + ", I"@, self.normal_style()),
            exists|pre: Seq<char>, post: Seq<char>| r@ == pre + ("add    "@ + seq!['v'] + hex_text(x as nat, 1, true) + ", I"@) + post,
    {
        let mut s = String::new();
        push_str(&mut s, "add    ");
        push_char(&mut s, 'v');
        push_hex(&mut s, x as u64, 1, true);
        push_str(&mut s, ", I");
        assert(s@ =~= "add    "@ + seq!['v'] + hex_text(x as nat, 1, true) + ", I"@);
        paint(s.as_str(), self.normal)
    }

    /// `Fx29`: Load sprite for character in vX into I
    pub fn load_sprite_x(&self, x: usize) -> (r: String)
        ensures
            r@ == painted("font   "@ + seq!['v'] + hex_text(x as nat, 1, true) + ", I"@, self.normal_style()),
            exists|pre: Seq<char>, post: Seq<char>| r@ == pre + ("font   "@ + seq!['v'] + hex_text(x as nat, 1, true) + ", I"@) + post,
    {
        let mut s = String::new();
        push_str(&mut s, "font   ");
        push_char(&mut s, 'v');
        push_hex(&mut s, x as u64, 1, true);
        push_str(&mut s, ", I");
        assert(s@ =~= "font   "@ + seq!['v'] + hex_text(x as nat, 1, true) + ", I"@);
        paint(s.as_str(), self.normal)
    }

    /// `Fx33`: BCD convert X into I`[0..3]`
    pub fn bcd_convert_i(&self, x: usize) -> (r: String)
        ensures
            r@ == painted("bcd    "@ + seq!['v'] + hex_text(x as nat, 1, true) + ", &I"@, self.normal_style()),
            exists|pre: Seq<char>, post: Seq<char>| r@ == pre + ("bcd    "@ + seq!['v'] + hex_text(x as nat, 1, true) + ", &I"@) + post,
    {
        let mut s = String::new();
        push_str(&mut s, "bcd    ");
        push_char(&mut s, 'v');
        push_hex(&mut s, x as u64, 1, true);
        push_str(&mut s, ", &I");
        assert(s@ =~= "bcd    "@ + seq!['v'] + hex_text(x as nat, 1, true) + ", &I"@);
        paint(s.as_str(), self.normal)
    }

    /// `Fx55`: DMA Stor from I to registers 0..X
    pub fn dma_store(&self, x: usize) -> (r: String)
        ensures
            r@ == painted("dmao   "@ + seq!['v'] + hex_text(x as nat, 1, true), self.normal_style()),
            exists|pre: Seq<char>, post: Seq<char>| r@ == pre + ("dmao   "@ + seq!['v'] + hex_text(x as nat, 1, true)) + post,
    {
        let mut s = String::new();
        push_str(&mut s, "dmao   ");
        push_char(&mut s, 'v');
        push_hex(&mut s, x as u64, 1, true);
        assert(s@ =~= "dmao   "@ + seq!['v'] + hex_text(x as nat, 1, true));
        paint(s.as_str(), self.normal)
    }

    /// `Fx65`: DMA Load from I to registers 0..X
    pub fn dma_load(&self, x: usize) -> (r: String)
        ensures
            r@ == painted("dmai   "@ + seq!['v'] + hex_text(x as nat, 1, true), self.normal_style()),
            exists|pre: Seq<char>, post: Seq<char>| r@ == pre + ("dmai   "@ + seq!['v'] + hex_text(x as nat, 1, true)) + post,
    {
        let mut s = String::new();
        push_str(&mut s, "dmai   ");
        push_char(&mut s, 'v');
        push_hex(&mut s, x as u64, 1, true);
        assert(s@ =~= "dmai   "@ + seq!['v'] + hex_text(x as nat, 1, true));
        paint(s.as_str(), self.normal)
    }
}

/// Builder for [Disassemble]rs
#[derive(Clone, Copy, Debug, PartialEq)]
pub struct DisassembleBuilder {
    invalid: Option<Style>,
    normal: Option<Style>,
}

impl DisassembleBuilder {
    /// The style given for invalid instructions, if any.
    pub closed spec fn invalid_style(&self) -> Option<Style> {
        self.invalid
    }

    /// The style given for valid instructions, if any.
    pub closed spec fn normal_style(&self) -> Option<Style> {
        self.normal
    }

    /// Styles invalid (or unimplemented) instructions
    pub fn invalid(self, style: Style) -> (r: Self)
        ensures
            r.invalid_style() == Some(style),
            r.normal_style() == self.normal_style(),
    {
        DisassembleBuilder { invalid: Some(style), ..self }
    }

    /// Styles valid (implemented) instructions
    pub fn normal(self, style: Style) -> (r: Self)
        ensures
            r.invalid_style() == self.invalid_style(),
            r.normal_style() == Some(style),
    {
        DisassembleBuilder { normal: Some(style), ..self }
    }

    /// Builds a Disassemble: the styles not given are bold red for invalid instructions and
    /// green for valid ones
    pub fn build(self) -> (r: Disassemble)
        ensures
            self.invalid_style() matches Some(s) ==> r.invalid_style() == s,
            self.normal_style() matches Some(s) ==> r.normal_style() == s,
    {
        Disassemble {
            invalid: match self.invalid {
                Some(style) => style,
                None => Style::new().bold().red(),
            },
            normal: match self.normal {
                Some(style) => style,
                None => Style::new().green(),
            },
        }
    }
}

impl Default for DisassembleBuilder {
    /// A builder with no styles chosen yet
    fn default() -> (r: Self)
        ensures
            r.invalid_style() is None,
            r.normal_style() is None,
    {
        DisassembleBuilder { invalid: None, normal: None }
    }
}

} // verus!
