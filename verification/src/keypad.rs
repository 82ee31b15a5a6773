//! The layout of the Chip-8 hexadecimal keypad on a QWERTY keyboard.
//!
//! ```text
//! QWERTY:     Chip-8:
//! 1 2 3 4     1 2 3 C
//! Q W E R     4 5 6 D
//! A S D F     7 8 9 E
//! Z X C V     A 0 B F
//! ```

use vstd::prelude::*;

verus! {

/// The keyboard keys of the keypad, row by row, and the Chip-8 key that each stands for.
pub open spec fn keypad_layout() -> Seq<(char, usize)> {
    seq![
        ('1', 0x1), ('2', 0x2), ('3', 0x3), ('4', 0xc),
        ('Q', 0x4), ('W', 0x5), ('E', 0x6), ('R', 0xd),
        ('A', 0x7), ('S', 0x8), ('D', 0x9), ('F', 0xe),
        ('Z', 0xa), ('X', 0x0), ('C', 0xb), ('V', 0xf),
    ]
}

/// The Chip-8 key that keyboard key `c` (an upper-case letter or a digit) stands for, if any.
pub open spec fn keypad_key_spec(c: char) -> Option<usize> {
    match c {
        '1' => Some(0x1usize),
        '2' => Some(0x2usize),
        '3' => Some(0x3usize),
        '4' => Some(0xcusize),
        'Q' => Some(0x4usize),
        'W' => Some(0x5usize),
        'E' => Some(0x6usize),
        'R' => Some(0xdusize),
        'A' => Some(0x7usize),
        'S' => Some(0x8usize),
        'D' => Some(0x9usize),
        'F' => Some(0xeusize),
        'Z' => Some(0xausize),
        'X' => Some(0x0usize),
        'C' => Some(0xbusize),
        'V' => Some(0xfusize),
        _ => None,
    }
}

/// The Chip-8 key that keyboard key `c` (an upper-case letter or a digit) stands for, if any
pub fn keypad_key(c: char) -> (r: Option<usize>)
    ensures
        r == keypad_key_spec(c),
        r matches Some(key) ==> key < 16,
{
    match c {
        '1' => Some(0x1),
        '2' => Some(0x2),
        '3' => Some(0x3),
        '4' => Some(0xc),
        'Q' => Some(0x4),
        'W' => Some(0x5),
        'E' => Some(0x6),
        'R' => Some(0xd),
        'A' => Some(0x7),
        'S' => Some(0x8),
        'D' => Some(0x9),
        'F' => Some(0xe),
        'Z' => Some(0xa),
        'X' => Some(0x0),
        'C' => Some(0xb),
        'V' => Some(0xf),
        _ => None,
    }
}

/// The keyboard keys of [keypad_layout] are exactly the keys that [keypad_key_spec] maps,
/// each to the Chip-8 key beside it.
pub proof fn lemma_layout_is_keymap(c: char)
    ensures
        keypad_key_spec(c) is Some <==> exists|k: int| 0 <= k < 16 && #[trigger] keypad_layout()[k].0 == c,
        forall|k: int| 0 <= k < 16 ==> keypad_key_spec(#[trigger] keypad_layout()[k].0) == Some(keypad_layout()[k].1),
{
    let l = keypad_layout();
    assert(l[0].0 == '1' && l[1].0 == '2' && l[2].0 == '3' && l[3].0 == '4');
    assert(l[4].0 == 'Q' && l[5].0 == 'W' && l[6].0 == 'E' && l[7].0 == 'R');
    assert(l[8].0 == 'A' && l[9].0 == 'S' && l[10].0 == 'D' && l[11].0 == 'F');
    assert(l[12].0 == 'Z' && l[13].0 == 'X' && l[14].0 == 'C' && l[15].0 == 'V');
    if keypad_key_spec(c) is Some {
        let k: int = if c == '1' { 0 } else if c == '2' { 1 } else if c == '3' { 2 } else if c == '4' { 3 }
            else if c == 'Q' { 4 } else if c == 'W' { 5 } else if c == 'E' { 6 } else if c == 'R' { 7 }
            else if c == 'A' { 8 } else if c == 'S' { 9 } else if c == 'D' { 10 } else if c == 'F' { 11 }
            else if c == 'Z' { 12 } else if c == 'X' { 13 } else if c == 'C' { 14 } else { 15 };
        assert(l[k].0 == c);
    }
}

/// Every Chip-8 key has exactly one keyboard key.
pub proof fn lemma_keypad_covers_every_key(key: usize)
    requires
        key < 16,
    ensures
        exists|k: int| 0 <= k < 16 && #[trigger] keypad_layout()[k].1 == key,
        forall|j: int, k: int|
            0 <= j < k < 16 ==> keypad_layout()[j].0 != keypad_layout()[k].0 && keypad_layout()[j].1
                != keypad_layout()[k].1,
{
    let l = keypad_layout();
    assert(l[13].1 == 0 && l[0].1 == 1 && l[1].1 == 2 && l[2].1 == 3 && l[4].1 == 4);
    assert(l[5].1 == 5 && l[6].1 == 6 && l[8].1 == 7 && l[9].1 == 8 && l[10].1 == 9);
    assert(l[12].1 == 0xa && l[14].1 == 0xb && l[3].1 == 0xc && l[7].1 == 0xd);
    assert(l[11].1 == 0xe && l[15].1 == 0xf);
}

} // verus!
