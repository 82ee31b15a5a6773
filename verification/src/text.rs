//! Text building blocks: hexadecimal, decimal and binary renderings of integers.

use vstd::prelude::*;

verus! {

/// The character for a digit `d` (`d < 16`), in upper or lower case.
pub open spec fn hex_char(d: nat, upper: bool) -> char {
    if d < 10 {
        ((48 + d) as u8) as char
    } else if upper {
        ((55 + d) as u8) as char
    } else {
        ((87 + d) as u8) as char
    }
}

/// The hexadecimal rendering of `n`, left-padded with zeroes to at least `width` digits,
/// as Rust's `{:0width$x}` (or `{:0width$X}` when `upper`) renders it.
pub open spec fn hex_text(n: nat, width: nat, upper: bool) -> Seq<char>
    decreases n + width,
{
    if n < 16 && width <= 1 {
        seq![hex_char(n, upper)]
    } else {
        hex_text(n / 16, if width > 0 { (width - 1) as nat } else { 0 }, upper).push(
            hex_char(n % 16, upper),
        )
    }
}

/// The binary rendering of the low `width` bits of `n`, most significant first.
pub open spec fn bin_text(n: nat, width: nat) -> Seq<char>
    decreases width,
{
    if width == 0 {
        Seq::empty()
    } else {
        bin_text(n / 2, (width - 1) as nat).push(if n % 2 == 1 { '1' } else { '0' })
    }
}

/// The decimal rendering of `n`, without padding.
pub open spec fn dec_text(n: nat) -> Seq<char>
    decreases n,
{
    if n < 10 {
        seq![((48 + n) as u8) as char]
    } else {
        dec_text(n / 10).push(((48 + n % 10) as u8) as char)
    }
}

/// Appends one character to a string.
#[verifier::external_body]
pub(crate) fn push_char(s: &mut String, c: char)
    ensures
        final(s)@ == old(s)@.push(c),
{
    s.push(c);
}

/// Appends the digit `d` to `s`.
pub fn push_hex_digit(s: &mut String, d: u64, upper: bool)
    requires
        d < 16,
    ensures
        final(s)@ == old(s)@.push(hex_char(d as nat, upper)),
{
    let c: char = if d < 10 {
        ((48 + d) as u8) as char
    } else if upper {
        ((55 + d) as u8) as char
    } else {
        ((87 + d) as u8) as char
    };
    push_char(s, c);
}

/// Appends the hexadecimal rendering of `n`, zero-padded to `width` digits.
pub fn push_hex(s: &mut String, n: u64, width: u64, upper: bool)
    ensures
        final(s)@ == old(s)@ + hex_text(n as nat, width as nat, upper),
    decreases n + width,
{
    if n < 16 && width <= 1 {
        push_hex_digit(s, n, upper);
        assert(hex_text(n as nat, width as nat, upper) == seq![hex_char(n as nat, upper)]);
    } else {
        let w: u64 = if width > 0 { width - 1 } else { 0 };
        push_hex(s, n / 16, w, upper);
        push_hex_digit(s, n % 16, upper);
    }
}

/// Appends the binary rendering of the low `width` bits of `n`.
pub fn push_bin(s: &mut String, n: u64, width: u64)
    ensures
        final(s)@ == old(s)@ + bin_text(n as nat, width as nat),
    decreases width,
{
    if width > 0 {
        push_bin(s, n / 2, width - 1);
        let c: char = if n % 2 == 1 { '1' } else { '0' };
        push_char(s, c);
    } else {
        assert(old(s)@ + bin_text(n as nat, width as nat) == old(s)@);
    }
}

/// Appends the decimal rendering of `n`.
pub fn push_dec(s: &mut String, n: u64)
    ensures
        final(s)@ == old(s)@ + dec_text(n as nat),
    decreases n,
{
    if n < 10 {
        push_char(s, ((48 + n) as u8) as char);
    } else {
        push_dec(s, n / 10);
        push_char(s, ((48 + n % 10) as u8) as char);
    }
}

/// Appends a string slice.
pub fn push_str(s: &mut String, t: &str)
    ensures
        final(s)@ == old(s)@ + t@,
{
    s.append(t);
}

/// `text` right-aligned in a field of `width` characters, as Rust's `{:width$}` renders a
/// number.
pub open spec fn pad_left(text: Seq<char>, width: nat) -> Seq<char> {
    if text.len() < width {
        Seq::new((width - text.len()) as nat, |i: int| ' ') + text
    } else {
        text
    }
}

/// The number of decimal digits of `n`.
pub open spec fn dec_len(n: nat) -> nat
    decreases n,
{
    if n < 10 {
        1
    } else {
        dec_len(n / 10) + 1
    }
}

proof fn lemma_dec_len(n: nat)
    ensures
        dec_text(n).len() == dec_len(n),
    decreases n,
{
    if n >= 10 {
        lemma_dec_len(n / 10);
    }
}

proof fn lemma_dec_len_bound(n: nat)
    ensures
        dec_len(n) <= n / 10 + 1,
    decreases n,
{
    if n >= 10 {
        lemma_dec_len_bound(n / 10);
    }
}

/// The number of decimal digits of `n`.
fn count_digits(n: u64) -> (r: u64)
    ensures
        r == dec_len(n as nat),
    decreases n,
{
    proof {
        lemma_dec_len_bound(n as nat);
    }
    if n < 10 {
        1
    } else {
        count_digits(n / 10) + 1
    }
}

/// Appends the decimal rendering of `n`, right-aligned in `width` characters.
pub fn push_dec_padded(s: &mut String, n: u64, width: u64)
    ensures
        final(s)@ == old(s)@ + pad_left(dec_text(n as nat), width as nat),
{
    let len = count_digits(n);
    proof {
        lemma_dec_len(n as nat);
    }
    let ghost start = s@;
    if len < width {
        let mut k: u64 = 0;
        while k < width - len
            invariant
                len < width,
                k <= width - len,
                s@ == start + Seq::new(k as nat, |i: int| ' '),
            decreases width - len - k,
        {
            push_char(s, ' ');
            k = k + 1;
            assert(s@ =~= start + Seq::new(k as nat, |i: int| ' '));
        }
    }
    push_dec(s, n);
    assert(s@ =~= start + pad_left(dec_text(n as nat), width as nat));
}

/// Appends the hexadecimal rendering of `n`, right-aligned in `width` characters with
/// spaces, as Rust's `{:width$x}` renders it.
pub fn push_hex_padded(s: &mut String, n: u64, width: u64)
    ensures
        final(s)@ == old(s)@ + pad_left(hex_text(n as nat, 1, false), width as nat),
{
    let ghost start = s@;
    let mut t = String::new();
    push_hex(&mut t, n, 1, false);
    let len = t.as_str().unicode_len();
    if (len as u64) < width {
        let mut k: u64 = 0;
        while k < width - len as u64
            invariant
                (len as u64) < width,
                k <= width - len as u64,
                s@ == start + Seq::new(k as nat, |i: int| ' '),
            decreases width - len as u64 - k,
        {
            push_char(s, ' ');
            k = k + 1;
            assert(s@ =~= start + Seq::new(k as nat, |i: int| ' '));
        }
    }
    push_str(s, t.as_str());
    assert(s@ =~= start + pad_left(hex_text(n as nat, 1, false), width as nat));
}

} // verus!
