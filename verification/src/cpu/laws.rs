//! Properties that relate the operations of a [CPU](super::CPU) to one another.

use super::{dump_text, registers_text, stack_pointer};
use super::mem::byte_at;
use super::instruction::{decode_nibbles, decode_word, lemma_decode_encoding, Insn};
use super::state::{draw_row, draw_rows, is_executable, pixel_mask, timer_value, CpuState};
use crate::text::{dec_text, hex_text, pad_left};
use vstd::prelude::*;

verus! {

/// The bits that drawing the first `count` pixels of sprite row `bits` at (`x0`, `py`) flips
/// in screen byte `addr`.
pub open spec fn row_flips(bits: u8, x0: int, py: int, wrap: bool, count: nat, addr: int) -> u8
    decreases count,
{
    if count == 0 {
        0
    } else {
        let m = row_flips(bits, x0, py, wrap, (count - 1) as nat, addr);
        let b = count - 1;
        let px = x0 + b;
        if (bits >> ((7 - b) as u8)) & 1 == 1 && (px < 64 || wrap) && addr == py * 8 + (px % 64) / 8 {
            m ^ pixel_mask(px % 64)
        } else {
            m
        }
    }
}

/// The bits that drawing the first `count` rows of the sprite at `i` flips in screen byte
/// `addr`.
pub open spec fn sprite_flips(
    mem: Seq<u8>,
    i: u16,
    x0: int,
    y0: int,
    wrap: bool,
    count: nat,
    addr: int,
) -> u8
    decreases count,
{
    if count == 0 {
        0
    } else {
        let m = sprite_flips(mem, i, x0, y0, wrap, (count - 1) as nat, addr);
        let r = count - 1;
        let py = y0 + r;
        if py < 32 || wrap {
            m ^ row_flips(
                byte_at(mem, super::state::add16(i, r) as int),
                x0,
                py % 32,
                wrap,
                8,
                addr,
            )
        } else {
            m
        }
    }
}

proof fn lemma_xor_assoc(a: u8, b: u8, c: u8)
    ensures
        (a ^ b) ^ c == a ^ (b ^ c),
        a ^ 0 == a,
        (a ^ b) ^ b == a,
{
    assert((a ^ b) ^ c == a ^ (b ^ c)) by (bit_vector);
    assert(a ^ 0 == a) by (bit_vector);
    assert((a ^ b) ^ b == a) by (bit_vector);
}

/// Drawing part of a sprite row flips, in each byte of the screen, the bits of
/// [row_flips], and leaves the length of the screen alone.
proof fn lemma_draw_row_flips(screen: Seq<u8>, bits: u8, x0: int, py: int, wrap: bool, count: nat)
    ensures
        draw_row(screen, bits, x0, py, wrap, count).0.len() == screen.len(),
        forall|a: int|
            0 <= a < screen.len() ==> #[trigger] draw_row(screen, bits, x0, py, wrap, count).0[a]
                == screen[a] ^ row_flips(bits, x0, py, wrap, count, a),
    decreases count,
{
    if count == 0 {
        assert forall|a: int| 0 <= a < screen.len() implies #[trigger] draw_row(
            screen,
            bits,
            x0,
            py,
            wrap,
            count,
        ).0[a] == screen[a] ^ row_flips(bits, x0, py, wrap, count, a) by {
            lemma_xor_assoc(screen[a], 0, 0);
        }
    } else {
        let k = (count - 1) as nat;
        lemma_draw_row_flips(screen, bits, x0, py, wrap, k);
        let s = draw_row(screen, bits, x0, py, wrap, k).0;
        let b = count - 1;
        let px = x0 + b;
        if (bits >> ((7 - b) as u8)) & 1 == 1 && (px < 64 || wrap) {
            let t = py * 8 + (px % 64) / 8;
            assert forall|a: int| 0 <= a < screen.len() implies #[trigger] draw_row(
                screen,
                bits,
                x0,
                py,
                wrap,
                count,
            ).0[a] == screen[a] ^ row_flips(bits, x0, py, wrap, count, a) by {
                if a == t {
                    lemma_xor_assoc(screen[a], row_flips(bits, x0, py, wrap, k, a), pixel_mask(px % 64));
                }
            }
        }
    }
}

/// Drawing part of a sprite flips, in each byte of the screen, the bits of [sprite_flips],
/// and leaves the length of the screen alone.
proof fn lemma_draw_rows_flips(
    screen: Seq<u8>,
    mem: Seq<u8>,
    i: u16,
    x0: int,
    y0: int,
    wrap: bool,
    count: nat,
)
    ensures
        draw_rows(screen, mem, i, x0, y0, wrap, count).0.len() == screen.len(),
        forall|a: int|
            0 <= a < screen.len() ==> #[trigger] draw_rows(screen, mem, i, x0, y0, wrap, count).0[a]
                == screen[a] ^ sprite_flips(mem, i, x0, y0, wrap, count, a),
    decreases count,
{
    if count == 0 {
        assert forall|a: int| 0 <= a < screen.len() implies #[trigger] draw_rows(
            screen,
            mem,
            i,
            x0,
            y0,
            wrap,
            count,
        ).0[a] == screen[a] ^ sprite_flips(mem, i, x0, y0, wrap, count, a) by {
            lemma_xor_assoc(screen[a], 0, 0);
        }
    } else {
        let k = (count - 1) as nat;
        lemma_draw_rows_flips(screen, mem, i, x0, y0, wrap, k);
        let s = draw_rows(screen, mem, i, x0, y0, wrap, k).0;
        let r = count - 1;
        let py = y0 + r;
        if py < 32 || wrap {
            let bits = byte_at(mem, super::state::add16(i, r) as int);
            lemma_draw_row_flips(s, bits, x0, py % 32, wrap, 8);
            assert forall|a: int| 0 <= a < screen.len() implies #[trigger] draw_rows(
                screen,
                mem,
                i,
                x0,
                y0,
                wrap,
                count,
            ).0[a] == screen[a] ^ sprite_flips(mem, i, x0, y0, wrap, count, a) by {
                lemma_xor_assoc(
                    screen[a],
                    sprite_flips(mem, i, x0, y0, wrap, k, a),
                    row_flips(bits, x0, py % 32, wrap, 8, a),
                );
            }
        }
    }
}

/// Drawing the same sprite at the same place twice leaves the screen as it was: every
/// pixel that the first draw toggles, the second toggles back.
pub proof fn lemma_draw_twice_restores(
    screen: Seq<u8>,
    mem: Seq<u8>,
    i: u16,
    x0: int,
    y0: int,
    wrap: bool,
    count: nat,
)
    ensures
        draw_rows(draw_rows(screen, mem, i, x0, y0, wrap, count).0, mem, i, x0, y0, wrap, count).0
            == screen,
{
    let once = draw_rows(screen, mem, i, x0, y0, wrap, count).0;
    let twice = draw_rows(once, mem, i, x0, y0, wrap, count).0;
    lemma_draw_rows_flips(screen, mem, i, x0, y0, wrap, count);
    lemma_draw_rows_flips(once, mem, i, x0, y0, wrap, count);
    assert forall|a: int| 0 <= a < screen.len() implies twice[a] == screen[a] by {
        lemma_xor_assoc(screen[a], sprite_flips(mem, i, x0, y0, wrap, count, a), 0);
        assert(once[a] == screen[a] ^ sprite_flips(mem, i, x0, y0, wrap, count, a));
        assert(twice[a] == once[a] ^ sprite_flips(mem, i, x0, y0, wrap, count, a));
    }
    assert(twice =~= screen);
}

/// Running `Dxyn` twice, with neither `x` nor `y` naming `vF`, leaves the screen as it was.
pub proof fn lemma_draw_instruction_twice(st: CpuState, screen: Seq<u8>, x: int, y: int, n: u8)
    requires
        st.wf(),
        0 <= x < 15,
        0 <= y < 15,
    ensures
        ({
            let (st1, once) = st.op_draw(screen, x, y, n);
            st1.op_draw(once, x, y, n).1 == screen
        }),
{
    let (st1, once) = st.op_draw(screen, x, y, n);
    assert(st1.v[x] == st.v[x]);
    assert(st1.v[y] == st.v[y]);
    lemma_draw_twice_restores(
        screen,
        st.mem,
        st.i,
        (st.v[x] % 64) as int,
        (st.v[y] % 32) as int,
        st.flags.quirks.screen_wrap,
        n as nat,
    );
}

/// Returning from a subroutine undoes the call: the program counter and the stack are as
/// they were before it.
pub proof fn lemma_call_then_ret(st: CpuState, addr: u16)
    ensures
        st.op_call(addr).op_ret() == st,
{
    assert(st.stack.push(st.pc).drop_last() =~= st.stack);
}

/// What `Fx55` stores, `Fx65` loads back: after storing `v0..=vX` at `I`, whatever the
/// registers then hold, loading from the same `I` restores `v0..=vX` (and leaves the other
/// registers alone).
pub proof fn lemma_store_then_load_dma(st: CpuState, x: int, regs: Seq<u8>)
    requires
        st.wf(),
        0 <= x < 16,
        regs.len() == 16,
        st.dma_fits(x),
    ensures
        ({
            let stored = st.op_store_dma(x);
            let loaded = CpuState { v: regs, i: st.i, ..stored }.op_load_dma(x);
            &&& loaded.v.take(x + 1) == st.v.take(x + 1)
            &&& loaded.v.skip(x + 1) == regs.skip(x + 1)
        }),
{
    let stored = st.op_store_dma(x);
    let loaded = CpuState { v: regs, i: st.i, ..stored }.op_load_dma(x);
    assert(stored.mem.subrange(st.i as int, st.i + x + 1) =~= st.v.take(x + 1));
    assert(loaded.v.take(x + 1) =~= st.v.take(x + 1));
    assert(loaded.v.skip(x + 1) =~= regs.skip(x + 1));
}

/// `Fx33` stores the decimal digits of `vX`: three digits below 10 whose value is `vX`.
pub proof fn lemma_bcd_digits(st: CpuState, x: int)
    requires
        st.wf(),
        0 <= x < 16,
        st.i + 2 < st.mem.len(),
    ensures
        ({
            let m = st.op_bcd_convert(x).mem;
            let i = st.i as int;
            &&& m[i] < 10 && m[i + 1] < 10 && m[i + 2] < 10
            &&& 100 * m[i] + 10 * m[i + 1] + m[i + 2] == st.v[x]
        }),
{
}

/// A register xored with itself is cleared.
pub proof fn lemma_xor_self_clears(st: CpuState, x: int)
    requires
        st.wf(),
        0 <= x < 16,
    ensures
        st.op_xor(x, x).v[x] == 0,
{
    let a = st.v[x];
    assert(a ^ a == 0) by (bit_vector);
}

/// `Cxbb` keeps of the random byte exactly the bits that `b` keeps: whatever the random byte
/// `r`, the opcode `Cxbb` decodes to a random-number instruction, and executing it leaves in
/// `vX` no bit outside `b` and every bit of `r` inside `b`. So the result follows the random
/// byte: a zero random byte gives 0, and the mask `FF` gives the random byte itself. No other
/// register, and not the screen, changes.
pub proof fn lemma_rand_masks(st: CpuState, screen: Seq<u8>, x: u16, b: u8, random: u8)
    requires
        st.wf(),
        x < 16,
    ensures
        decode_word((0xc000 + x * 256 + b) as nat) == Some(Insn::rand { B: b, x: x as usize }),
        ({
            let (after, scr) = st.execute(Insn::rand { B: b, x: x as usize }, screen, random);
            let got = after.v[x as int];
            &&& got & !b == 0
            &&& got & b == random & b
            &&& random == 0 ==> got == 0
            &&& b == 0xff ==> got == random
            &&& after.v.len() == 16
            &&& forall|r: int| 0 <= r < 16 && r != x ==> after.v[r] == st.v[r]
            &&& scr == screen
        }),
{
    let w: int = 0xc000 + x * 256 + b;
    assert(w / 4096 == 12 && (w / 256) % 16 == x && (w / 16) % 16 == b / 16 && w % 16 == b % 16)
        by (nonlinear_arith)
        requires
            w == 0xc000 + x * 256 + b,
            0 <= x < 16,
            0 <= b < 256,
    ;
    assert(((b / 16) * 16 + b % 16) as u8 == b);
    reveal(decode_nibbles);
    reveal(CpuState::execute);
    let got = random & b;
    assert(got & !b == 0) by (bit_vector)
        requires
            got == random & b,
    ;
    assert(got & b == random & b) by (bit_vector)
        requires
            got == random & b,
    ;
    assert(random == 0 ==> got == 0) by (bit_vector)
        requires
            got == random & b,
    ;
    assert(b == 0xff ==> got == random) by (bit_vector)
        requires
            got == random & b,
    ;
}

/// Setting a timer from a register and reading it back gives the register's value.
pub proof fn lemma_timer_roundtrip(st: CpuState, x: int, y: int)
    requires
        st.wf(),
        0 <= x < 16,
        0 <= y < 16,
    ensures
        st.op_store_delay_timer(x).op_load_delay_timer(y).v[y] == st.v[x],
        super::state::timer_value(st.op_store_sound_timer(x).sound) == st.v[x],
{
    let v = st.v[x] as int;
    assert((v * 1_000_000_000) / 1_000_000_000 == v) by (nonlinear_arith);
    assert(v * 1_000_000_000 <= u64::MAX) by (nonlinear_arith)
        requires
            0 <= v < 256,
    ;
}

/// The last line of a register dump: `DLY: ` and the delay timer `dly` in whole frames,
/// `, SND: ` and the sound timer `snd` in whole frames, then `, CYC: ` and the cycle count
/// right-aligned in six columns.
pub open spec fn timers_line(dly: u8, snd: u8, cycle: usize) -> Seq<char> {
    seq!['D', 'L', 'Y', ':', ' '] + dec_text(dly as nat) + seq![',', ' ', 'S', 'N', 'D', ':', ' ']
        + dec_text(snd as nat) + seq![',', ' ', 'C', 'Y', 'C', ':', ' '] + pad_left(
        dec_text(cycle as nat),
        6,
    )
}

/// Whether `text` ends with `tail`.
pub open spec fn ends_with(text: Seq<char>, tail: Seq<char>) -> bool {
    text.len() >= tail.len() && text.skip(text.len() - tail.len()) == tail
}

/// The dump of any state ends with the line of its timers and cycle count.
proof fn lemma_dump_ends_with_timers(c: CpuState)
    ensures
        ends_with(dump_text(c), timers_line(timer_value(c.delay), timer_value(c.sound), c.cycle)),
{
    let tail = timers_line(timer_value(c.delay), timer_value(c.sound), c.cycle);
    let head = seq!['P', 'C', ':', ' '] + hex_text(c.pc as nat, 4, false) + seq![
        ',',
        ' ',
        'S',
        'P',
        ':',
        ' ',
    ] + hex_text(stack_pointer(c) as nat, 4, false) + seq![',', ' ', 'I', ':', ' '] + hex_text(
        c.i as nat,
        4,
        false,
    ) + seq!['\n'] + registers_text(c.v, 16);
    assert(dump_text(c) =~= head + tail);
    assert((head + tail).skip(head.len() as int) =~= tail);
}

/// The register dump shows the delay timer after `DLY: ` and the sound timer after `SND: `,
/// each in whole frames: its last line is [timers_line] of the two timers and the cycle
/// count. So after `Fx15` the dump shows `vX` after `DLY: ` and the sound timer as it was
/// after `SND: `; after `Fx18` it shows the delay timer as it was after `DLY: ` and `vX`
/// after `SND: `.
pub proof fn lemma_dump_shows_timers(st: CpuState, x: int)
    requires
        st.wf(),
        0 <= x < 16,
    ensures
        ends_with(
            dump_text(st),
            timers_line(timer_value(st.delay), timer_value(st.sound), st.cycle),
        ),
        ends_with(
            dump_text(st.op_store_delay_timer(x)),
            timers_line(st.v[x], timer_value(st.sound), st.cycle),
        ),
        ends_with(
            dump_text(st.op_store_sound_timer(x)),
            timers_line(timer_value(st.delay), st.v[x], st.cycle),
        ),
{
    lemma_timer_roundtrip(st, x, x);
    lemma_dump_ends_with_timers(st);
    lemma_dump_ends_with_timers(st.op_store_delay_timer(x));
    lemma_dump_ends_with_timers(st.op_store_sound_timer(x));
}

/// Pressing a held key, or releasing one that is not held, changes nothing; pressing then
/// releasing a key leaves it released.
pub proof fn lemma_press_release(st: CpuState, key: int)
    requires
        st.wf(),
        0 <= key < 16,
    ensures
        st.keys[key] ==> st.pressed(key) == st,
        !st.keys[key] ==> st.released(key) == st,
        st.pressed(key).released(key).keys == st.keys.update(key, false),
{
    if st.keys[key] {
        assert(st.keys.update(key, true) =~= st.keys);
    }
    assert(st.keys.update(key, true).update(key, false) =~= st.keys.update(key, false));
}

/// Waiting for a key, then pressing and releasing one, then waiting again stores that key:
/// the first wait holds the CPU, the release ends the hold, and the second wait gets the key.
pub proof fn lemma_wait_for_key_release(st: CpuState, x: int, key: int)
    requires
        st.wf(),
        0 <= x < 16,
        0 <= key < 16,
        st.flags.lastkey is None,
    ensures
        ({
            let waiting = st.op_wait_for_key(x);
            let released = waiting.pressed(key).released(key);
            let done = released.op_wait_for_key(x);
            &&& waiting.flags.keypause
            &&& waiting.v == st.v
            &&& !released.flags.keypause
            &&& released.flags.lastkey == Some(key as usize)
            &&& done.v[x] == key
            &&& done.flags.lastkey is None
        }),
{
}

/// The breakpoints list has no address twice.
pub open spec fn no_duplicates(s: Seq<u16>) -> bool {
    forall|j: int, k: int| 0 <= j < k < s.len() ==> s[j] != s[k]
}

/// Setting a breakpoint keeps the breakpoints free of duplicates, makes the address one of
/// them, and setting it again changes nothing.
pub proof fn lemma_set_break(st: CpuState, addr: u16)
    requires
        no_duplicates(st.breakpoints),
    ensures
        no_duplicates(st.with_break(addr).breakpoints),
        st.with_break(addr).breakpoints.contains(addr),
        st.with_break(addr).with_break(addr) == st.with_break(addr),
{
    let b = st.with_break(addr).breakpoints;
    if !st.breakpoints.contains(addr) {
        assert(b[b.len() - 1] == addr);
    }
}

/// Unsetting a breakpoint keeps the breakpoints free of duplicates and removes the address;
/// setting one that was not there and unsetting it again gives the breakpoints back.
pub proof fn lemma_unset_break(st: CpuState, addr: u16)
    requires
        no_duplicates(st.breakpoints),
    ensures
        no_duplicates(st.without_break(addr).breakpoints),
        !st.without_break(addr).breakpoints.contains(addr),
        !st.breakpoints.contains(addr) ==> st.with_break(addr).without_break(addr) == st,
{
    let b = st.breakpoints;
    b.index_of_first_ensures(addr);
    match b.index_of_first(addr) {
        Some(k) => {
            let r = b.update(k, b.last()).drop_last();
            assert forall|j: int| 0 <= j < r.len() implies r[j] != addr by {
                if j == k {
                    assert(b.last() == b[b.len() - 1]);
                    if b.len() - 1 != k {
                        assert(b[k] != b[b.len() - 1]);
                    }
                }
            }
            assert forall|j: int, l: int| 0 <= j < l < r.len() implies r[j] != r[l] by {
                if j == k {
                    assert(b[b.len() - 1] != b[l]);
                } else if l == k {
                    assert(b[j] != b[b.len() - 1]);
                }
            }
        },
        None => {},
    }
    if !b.contains(addr) {
        let pushed = b.push(addr);
        pushed.index_of_first_ensures(addr);
        let k = pushed.index_of_first(addr)->0;
        assert(k == b.len()) by {
            if k < b.len() {
                assert(b[k] == addr);
            }
        }
        assert(pushed.update(k, pushed.last()).drop_last() =~= b);
    }
}

/// While execution is held (by the user, a key wait or a frame wait) a tick runs nothing:
/// only the cycle is counted, and only with monotonic timing.
pub proof fn lemma_held_tick(st: CpuState, screen: Seq<u8>, random: u8)
    requires
        st.flags.spec_is_paused(),
    ensures
        st.tick(screen, random) == (
            if st.flags.monotonic is Some {
                st.count_cycle()
            } else {
                st
            },
            screen,
            Ok::<(), crate::error::Error>(()),
        ),
{
}

/// A tick runs the instruction whose encoding sits at the program counter.
pub proof fn lemma_tick_runs_encoded(st: CpuState, screen: Seq<u8>, random: u8, insn: Insn)
    requires
        !st.flags.spec_is_paused(),
        insn.wf(),
        !(insn is long),
        is_executable(insn),
        st.pc + 2 <= st.mem.len(),
        st.mem.subrange(st.pc as int, st.pc + 2) == insn.spec_encoding(),
    ensures
        st.tick(screen, random) == st.count_cycle().run_fetched(insn, screen, random),
{
    let enc = insn.spec_encoding();
    lemma_decode_encoding(insn, Seq::empty());
    assert(enc + Seq::<u8>::empty() =~= enc);
    assert(enc.len() == 2);
    assert(enc[0] == st.mem[st.pc as int] && enc[1] == st.mem[st.pc + 1]);
}

/// Executing an instruction counts no cycle and keeps the timing mode.
#[verifier::rlimit(60)]
proof fn lemma_execute_keeps_count(st: CpuState, insn: Insn, screen: Seq<u8>, random: u8)
    ensures
        st.execute(insn, screen, random).0.cycle == st.cycle,
        st.execute(insn, screen, random).0.flags.monotonic == st.flags.monotonic,
{
    reveal(CpuState::execute);
    match insn {
        Insn::draw { y, x, n } => {
            let (drawn, hit) = draw_rows(
                screen,
                st.mem,
                st.i,
                (st.v[x as int] % 64) as int,
                (st.v[y as int] % 32) as int,
                st.flags.quirks.screen_wrap,
                n as nat,
            );
            assert(st.op_draw(screen, x as int, y as int, n).0.cycle == st.cycle);
        },
        Insn::waitk { x } => {
            assert(st.op_wait_for_key(x as int).cycle == st.cycle);
        },
        _ => {},
    }
}

/// Each tick counts one cycle, except while execution is held without monotonic timing.
pub proof fn lemma_tick_counts_cycle(st: CpuState, screen: Seq<u8>, random: u8)
    ensures
        st.tick(screen, random).0.cycle == (if st.flags.spec_is_paused() && st.flags.monotonic is None {
            st.cycle
        } else {
            (st.cycle + 1) as usize
        }),
{
    if !st.flags.spec_is_paused() && st.pc + 2 <= st.mem.len() {
        let word = super::instruction::word_of(st.mem[st.pc as int], st.mem[st.pc + 1]);
        let decoded = super::instruction::decode_word(word);
        if decoded is Some && is_executable(decoded->0) {
            let st1 = CpuState { pc: super::state::add16(st.count_cycle().pc, 2), ..st.count_cycle() };
            lemma_execute_keeps_count(st1, decoded->0, screen, random);
        }
    }
}

/// Executing an instruction keeps the size of the screen.
proof fn lemma_execute_keeps_screen_size(st: CpuState, insn: Insn, screen: Seq<u8>, random: u8)
    ensures
        st.execute(insn, screen, random).1.len() == screen.len(),
{
    reveal(CpuState::execute);
    if let Insn::draw { y, x, n } = insn {
        lemma_draw_rows_flips(
            screen,
            st.mem,
            st.i,
            (st.v[x as int] % 64) as int,
            (st.v[y as int] % 32) as int,
            st.flags.quirks.screen_wrap,
            n as nat,
        );
    }
}

/// A tick never changes the size of the screen.
pub proof fn lemma_tick_keeps_screen_size(st: CpuState, screen: Seq<u8>, random: u8)
    ensures
        st.tick(screen, random).1.len() == screen.len(),
{
    if !st.flags.spec_is_paused() && st.pc + 2 <= st.mem.len() {
        let word = super::instruction::word_of(st.mem[st.pc as int], st.mem[st.pc + 1]);
        let decoded = super::instruction::decode_word(word);
        if decoded is Some && is_executable(decoded->0) {
            let st1 = CpuState { pc: super::state::add16(st.count_cycle().pc, 2), ..st.count_cycle() };
            lemma_execute_keeps_screen_size(st1, decoded->0, screen, random);
        }
    }
}

/// A single step never changes the size of the screen.
pub proof fn lemma_singlestep_keeps_screen_size(st: CpuState, screen: Seq<u8>, random: u8)
    ensures
        st.singlestep(screen, random).1.len() == screen.len(),
{
    lemma_tick_keeps_screen_size(
        CpuState { flags: super::flags::Flags { pause: false, ..st.flags }, ..st },
        screen,
        random,
    );
}

/// However many ticks run, the screen keeps its size.
pub proof fn lemma_run_keeps_screen_size(
    st: CpuState,
    screen: Seq<u8>,
    steps: nat,
    randoms: Seq<u8>,
    elapsed: Seq<u64>,
)
    ensures
        st.run(screen, steps, randoms, elapsed).1.len() == screen.len(),
    decreases steps,
{
    if steps > 0 {
        lemma_run_keeps_screen_size(st, screen, (steps - 1) as nat, randoms, elapsed);
        let (st1, scr1, res1) = st.run(screen, (steps - 1) as nat, randoms, elapsed);
        lemma_tick_keeps_screen_size(st1, scr1, randoms[steps - 1]);
    }
}

} // verus!
