//! The abstract state of the [super::CPU], and the effect of each instruction on it.
//!
//! Every executable operation of the CPU is specified by one of the functions here: the
//! CPU's state after the operation is the function of its state before.

use super::flags::Flags;
use super::instruction::{decode_word, word_of, Insn};
use super::mem::{byte_at, overwrite, write_at};
use crate::error::any_range::AnyRange;
use crate::error::Error;
use std::ops::Range;
use vstd::prelude::*;

verus! {

/// The sub-frames in one frame (a sixtieth of a second): the timers count in sub-frames.
pub const SUBFRAMES: u64 = 1_000_000_000;

/// The start of the program region: where a soft reset resumes execution.
pub const PROGRAM_START: u16 = 0x200;

/// The abstract state of a [super::CPU].
pub struct CpuState {
    /// The control flags (pause, key wait, frame wait, quirks, ...)
    pub flags: Flags,
    /// The address at which the screen is mapped
    pub screen: u16,
    /// The address of the character sprites
    pub font: u16,
    /// The program counter
    pub pc: u16,
    /// The initial top of the stack
    pub sp: u16,
    /// The index register `I`
    pub i: u16,
    /// The general purpose registers `v0`..`vF`
    pub v: Seq<u8>,
    /// The delay timer, in sub-frames
    pub delay: u64,
    /// The sound timer, in sub-frames
    pub sound: u64,
    /// The return addresses of the subroutines in progress, innermost last
    pub stack: Seq<u16>,
    /// Which of the sixteen keys are held
    pub keys: Seq<bool>,
    /// The number of cycles executed
    pub cycle: usize,
    /// The addresses at which execution stops
    pub breakpoints: Seq<u16>,
    /// The memory (program, font, data)
    pub mem: Seq<u8>,
    /// The memory's character-set region
    pub charset: Option<Range<usize>>,
    /// The memory's program region
    pub program: Option<Range<usize>>,
}

/// `a + b`, wrapping at 16 bits.
pub open spec fn add16(a: u16, b: int) -> u16 {
    ((a + b) % 0x10000) as u16
}

/// `a - b`, wrapping at 16 bits.
pub open spec fn sub16(a: u16, b: int) -> u16 {
    ((a - b + 0x10000) % 0x10000) as u16
}

/// `a - b`, or 0 when `b` exceeds `a`.
pub open spec fn sub_floor(a: u64, b: u64) -> u64 {
    if a >= b {
        (a - b) as u64
    } else {
        0
    }
}

/// The whole frames in a timer of `t` sub-frames, as the 8-bit value the registers see.
pub open spec fn timer_value(t: u64) -> u8 {
    if t / SUBFRAMES >= 255 {
        255
    } else {
        (t / SUBFRAMES) as u8
    }
}

/// The big-endian 16-bit word at `addr`, or 0 when it does not lie wholly in `mem`.
pub open spec fn word_at(mem: Seq<u8>, addr: int) -> u16 {
    if 0 <= addr && addr + 2 <= mem.len() {
        word_of(mem[addr], mem[addr + 1]) as u16
    } else {
        0
    }
}

/// The bit of pixel column `px` within its screen byte (the leftmost pixel is the most
/// significant bit).
pub open spec fn pixel_mask(px: int) -> u8 {
    0x80u8 >> ((px % 8) as u8)
}

/// The screen after toggling pixel (`px`, `py`) of a 64 x 32 screen stored row by row, eight
/// pixels to a byte; and whether that pixel was on. A pixel outside `screen` is left alone.
pub open spec fn toggle_pixel(screen: Seq<u8>, px: int, py: int) -> (Seq<u8>, bool) {
    let addr = py * 8 + px / 8;
    let mask = pixel_mask(px);
    if 0 <= addr < screen.len() {
        (screen.update(addr, screen[addr] ^ mask), screen[addr] & mask != 0)
    } else {
        (screen, false)
    }
}

/// The screen after drawing the first `count` pixels (most significant bit first) of the
/// sprite row `bits` at column `x0` of row `py`; and whether a pixel was turned off. Columns
/// past the right edge wrap around when `wrap`, and are clipped otherwise.
pub open spec fn draw_row(screen: Seq<u8>, bits: u8, x0: int, py: int, wrap: bool, count: nat) -> (
    Seq<u8>,
    bool,
)
    decreases count,
{
    if count == 0 {
        (screen, false)
    } else {
        let (s, hit) = draw_row(screen, bits, x0, py, wrap, (count - 1) as nat);
        let b = count - 1;
        let px = x0 + b;
        if (bits >> ((7 - b) as u8)) & 1 == 1 && (px < 64 || wrap) {
            let (s2, hit2) = toggle_pixel(s, px % 64, py);
            (s2, hit || hit2)
        } else {
            (s, hit)
        }
    }
}

/// The screen after drawing the first `count` rows of the sprite stored in `mem` at `i`, with
/// its top-left corner at (`x0`, `y0`); and whether a pixel was turned off. Rows past the
/// bottom edge wrap around when `wrap`, and are clipped otherwise. Sprite bytes outside
/// `mem` read as 0.
pub open spec fn draw_rows(
    screen: Seq<u8>,
    mem: Seq<u8>,
    i: u16,
    x0: int,
    y0: int,
    wrap: bool,
    count: nat,
) -> (Seq<u8>, bool)
    decreases count,
{
    if count == 0 {
        (screen, false)
    } else {
        let (s, hit) = draw_rows(screen, mem, i, x0, y0, wrap, (count - 1) as nat);
        let r = count - 1;
        let py = y0 + r;
        if py < 32 || wrap {
            let (s2, hit2) = draw_row(s, byte_at(mem, add16(i, r) as int), x0, py % 32, wrap, 8);
            (s2, hit || hit2)
        } else {
            (s, hit)
        }
    }
}

/// Whether an instruction is one of the Chip-8 instructions that the CPU executes (the Super
/// Chip and XO-Chip extensions are decoded, but not executed).
pub open spec fn is_executable(insn: Insn) -> bool {
    !(insn is scd || insn is scr || insn is scl || insn is halt || insn is lores || insn is hires
        || insn is hfont || insn is flgo || insn is flgi || insn is scu || insn is dmaro
        || insn is dmari || insn is long)
}

/// Whether the register and nibble operands of an instruction name registers (below 16).
pub open spec fn operands_in_range(insn: Insn) -> bool {
    insn.wf()
}

impl CpuState {
    /// The shape every reachable state has: sixteen registers and sixteen keys.
    pub open spec fn wf(self) -> bool {
        &&& self.v.len() == 16
        &&& self.keys.len() == 16
    }

    /// This state with register `x` set to `value`.
    pub open spec fn with_v(self, x: int, value: u8) -> CpuState {
        CpuState { v: self.v.update(x, value), ..self }
    }

    /// This state with the program counter advanced past one instruction when `cond` holds.
    pub open spec fn skip_if(self, cond: bool) -> CpuState {
        if cond {
            CpuState { pc: add16(self.pc, 2), ..self }
        } else {
            self
        }
    }

    /// `00ee`: returns to the innermost return address; with none, nothing changes.
    pub open spec fn op_ret(self) -> CpuState {
        if self.stack.len() > 0 {
            CpuState { pc: self.stack.last(), stack: self.stack.drop_last(), ..self }
        } else {
            self
        }
    }

    /// `1aaa`: jumps to `a`.
    pub open spec fn op_jump(self, a: u16) -> CpuState {
        CpuState { pc: a, ..self }
    }

    /// `2aaa`: pushes the program counter, then jumps to `a`.
    pub open spec fn op_call(self, a: u16) -> CpuState {
        CpuState { pc: a, stack: self.stack.push(self.pc), ..self }
    }

    /// `3xbb`: skips the next instruction if `vX == b`.
    pub open spec fn op_skip_equals_immediate(self, x: int, b: u8) -> CpuState {
        self.skip_if(self.v[x] == b)
    }

    /// `4xbb`: skips the next instruction if `vX != b`.
    pub open spec fn op_skip_not_equals_immediate(self, x: int, b: u8) -> CpuState {
        self.skip_if(self.v[x] != b)
    }

    /// `5xy0`: skips the next instruction if `vX == vY`.
    pub open spec fn op_skip_equals(self, x: int, y: int) -> CpuState {
        self.skip_if(self.v[x] == self.v[y])
    }

    /// `9xy0`: skips the next instruction if `vX != vY`.
    pub open spec fn op_skip_not_equals(self, x: int, y: int) -> CpuState {
        self.skip_if(self.v[x] != self.v[y])
    }

    /// `6xbb`: `vX = b`.
    pub open spec fn op_load_immediate(self, x: int, b: u8) -> CpuState {
        self.with_v(x, b)
    }

    /// `7xbb`: `vX += b`, wrapping, without touching `vF`.
    pub open spec fn op_add_immediate(self, x: int, b: u8) -> CpuState {
        self.with_v(x, ((self.v[x] + b) % 256) as u8)
    }

    /// `8xy0`: `vX = vY`.
    pub open spec fn op_load(self, x: int, y: int) -> CpuState {
        self.with_v(x, self.v[y])
    }

    /// `vX = result`, then `vF = 0` unless the `bin_ops` quirk is set.
    pub open spec fn logic_result(self, x: int, result: u8) -> CpuState {
        if self.flags.quirks.bin_ops {
            self.with_v(x, result)
        } else {
            self.with_v(x, result).with_v(15, 0)
        }
    }

    /// `8xy1`: `vX |= vY`.
    pub open spec fn op_or(self, x: int, y: int) -> CpuState {
        self.logic_result(x, self.v[x] | self.v[y])
    }

    /// `8xy2`: `vX &= vY`.
    pub open spec fn op_and(self, x: int, y: int) -> CpuState {
        self.logic_result(x, self.v[x] & self.v[y])
    }

    /// `8xy3`: `vX ^= vY`.
    pub open spec fn op_xor(self, x: int, y: int) -> CpuState {
        self.logic_result(x, self.v[x] ^ self.v[y])
    }

    /// `8xy4`: `vX += vY`, wrapping; then `vF` is the carry.
    pub open spec fn op_add(self, x: int, y: int) -> CpuState {
        let sum = self.v[x] + self.v[y];
        self.with_v(x, (sum % 256) as u8).with_v(15, if sum >= 256 { 1 } else { 0 })
    }

    /// `8xy5`: `vX -= vY`, wrapping; then `vF` is 1 when there was no borrow.
    pub open spec fn op_sub(self, x: int, y: int) -> CpuState {
        let (a, b) = (self.v[x], self.v[y]);
        self.with_v(x, ((a - b + 256) % 256) as u8).with_v(15, if a >= b { 1 } else { 0 })
    }

    /// `8xy7`: `vX = vY - vX`, wrapping; then `vF` is 1 when there was no borrow.
    pub open spec fn op_backwards_sub(self, x: int, y: int) -> CpuState {
        let (a, b) = (self.v[x], self.v[y]);
        self.with_v(x, ((b - a + 256) % 256) as u8).with_v(15, if b >= a { 1 } else { 0 })
    }

    /// The operand of a shift: `vX` with the `shift` quirk, else `vY`.
    pub open spec fn shift_source(self, x: int, y: int) -> u8 {
        if self.flags.quirks.shift {
            self.v[x]
        } else {
            self.v[y]
        }
    }

    /// `8xy6`: `vX = source >> 1`; then `vF` is the bit shifted out.
    pub open spec fn op_shift_right(self, x: int, y: int) -> CpuState {
        let src = self.shift_source(x, y);
        self.with_v(x, src / 2).with_v(15, src % 2)
    }

    /// `8xyE`: `vX = source << 1`, wrapping; then `vF` is the bit shifted out.
    pub open spec fn op_shift_left(self, x: int, y: int) -> CpuState {
        let src = self.shift_source(x, y);
        self.with_v(x, ((src * 2) % 256) as u8).with_v(15, src / 128)
    }

    /// `Aaaa`: `I = a`.
    pub open spec fn op_load_i_immediate(self, a: u16) -> CpuState {
        CpuState { i: a, ..self }
    }

    /// `Baaa`: jumps to `a + v0`; with the `stupid_jumps` quirk, to `a + vA` where `A` is the
    /// high nibble of `a`.
    pub open spec fn op_jump_indexed(self, a: u16) -> CpuState {
        let reg = if self.flags.quirks.stupid_jumps {
            (a / 256) % 16
        } else {
            0
        };
        CpuState { pc: add16(a, self.v[reg as int] as int), ..self }
    }

    /// `Cxbb`: `vX = random & b`, for the random byte `random`.
    pub open spec fn op_rand(self, x: int, b: u8, random: u8) -> CpuState {
        self.with_v(x, random & b)
    }

    /// The key that register `x` names (its low nibble).
    pub open spec fn key_of(self, x: int) -> int {
        (self.v[x] % 16) as int
    }

    /// `Ex9E`: skips the next instruction if the key named by `vX` is held.
    pub open spec fn op_skip_key_equals(self, x: int) -> CpuState {
        self.skip_if(self.keys[self.key_of(x)])
    }

    /// `ExA1`: skips the next instruction if the key named by `vX` is not held.
    pub open spec fn op_skip_key_not_equals(self, x: int) -> CpuState {
        self.skip_if(!self.keys[self.key_of(x)])
    }

    /// `Fx0A`: if a key was released while waiting, `vX` is that key and the wait is over;
    /// otherwise the CPU waits for a key, and this instruction runs again.
    pub open spec fn op_wait_for_key(self, x: int) -> CpuState {
        match self.flags.lastkey {
            Some(key) => CpuState {
                flags: Flags { lastkey: None, ..self.flags },
                ..self.with_v(x, key as u8)
            },
            None => CpuState {
                pc: sub16(self.pc, 2),
                flags: Flags { keypause: true, ..self.flags },
                ..self
            },
        }
    }

    /// `Fx07`: `vX` is the delay timer, in whole frames.
    pub open spec fn op_load_delay_timer(self, x: int) -> CpuState {
        self.with_v(x, timer_value(self.delay))
    }

    /// `Fx15`: the delay timer is `vX` frames.
    pub open spec fn op_store_delay_timer(self, x: int) -> CpuState {
        CpuState { delay: (self.v[x] * SUBFRAMES) as u64, ..self }
    }

    /// `Fx18`: the sound timer is `vX` frames.
    pub open spec fn op_store_sound_timer(self, x: int) -> CpuState {
        CpuState { sound: (self.v[x] * SUBFRAMES) as u64, ..self }
    }

    /// `Fx1E`: `I += vX`, wrapping.
    pub open spec fn op_add_i(self, x: int) -> CpuState {
        CpuState { i: add16(self.i, self.v[x] as int), ..self }
    }

    /// `Fx29`: `I` is the address of the sprite for the character in the low nibble of `vX`.
    pub open spec fn op_load_sprite(self, x: int) -> CpuState {
        CpuState { i: add16(self.font, 5 * (self.v[x] % 16)), ..self }
    }

    /// `Fx33`: the decimal digits of `vX` (hundreds, tens, ones) go to memory at `I`,
    /// `I + 1`, `I + 2`; addresses outside memory are skipped.
    pub open spec fn op_bcd_convert(self, x: int) -> CpuState {
        let value = self.v[x];
        let mem = write_at(self.mem, self.i + 2, value % 10);
        let mem = write_at(mem, self.i + 1, (value / 10) % 10);
        let mem = write_at(mem, self.i as int, value / 100);
        CpuState { mem, ..self }
    }

    /// Whether the `x + 1` bytes at `I` lie in memory.
    pub open spec fn dma_fits(self, x: int) -> bool {
        self.i + x + 1 <= self.mem.len()
    }

    /// `I` after a DMA over registers `v0..=vX`: advanced past them, unless the `dma_inc`
    /// quirk is set.
    pub open spec fn dma_i(self, x: int) -> u16 {
        if self.flags.quirks.dma_inc {
            self.i
        } else {
            add16(self.i, x + 1)
        }
    }

    /// `Fx55`: stores `v0..=vX` to memory at `I` (nothing is stored unless all of it fits).
    pub open spec fn op_store_dma(self, x: int) -> CpuState {
        CpuState {
            mem: if self.dma_fits(x) {
                overwrite(self.mem, self.i as int, self.v.take(x + 1))
            } else {
                self.mem
            },
            i: self.dma_i(x),
            ..self
        }
    }

    /// `Fx65`: loads `v0..=vX` from memory at `I` (nothing is loaded unless all of it fits).
    pub open spec fn op_load_dma(self, x: int) -> CpuState {
        CpuState {
            v: if self.dma_fits(x) {
                self.mem.subrange(self.i as int, self.i + x + 1) + self.v.skip(x + 1)
            } else {
                self.v
            },
            i: self.dma_i(x),
            ..self
        }
    }

    /// `Dxyn`: draws the `n`-byte sprite at `I` with its top-left corner at (`vX` mod 64,
    /// `vY` mod 32), toggling pixels; `vF` is 1 when a pixel was turned off, else 0. Without
    /// the `screen_wrap` quirk the parts of the sprite beyond the edges are clipped; with
    /// it they wrap around. Without the `draw_wait` quirk the CPU then waits for the next
    /// frame.
    pub open spec fn op_draw(self, screen: Seq<u8>, x: int, y: int, n: u8) -> (CpuState, Seq<u8>) {
        let x0 = (self.v[x] % 64) as int;
        let y0 = (self.v[y] % 32) as int;
        let (drawn, hit) = draw_rows(
            screen,
            self.mem,
            self.i,
            x0,
            y0,
            self.flags.quirks.screen_wrap,
            n as nat,
        );
        let st = self.with_v(15, if hit { 1 } else { 0 });
        if self.flags.quirks.draw_wait {
            (st, drawn)
        } else {
            (CpuState { flags: Flags { draw_wait: true, ..st.flags }, ..st }, drawn)
        }
    }

    /// The state after key `key` is pressed.
    pub open spec fn pressed(self, key: int) -> CpuState {
        CpuState { keys: self.keys.update(key, true), ..self }
    }

    /// The state after key `key` is released: a held key is let go and, if the CPU was
    /// waiting for a key, the wait ends with `key` as the last key.
    pub open spec fn released(self, key: int) -> CpuState {
        if self.keys[key] {
            let st = CpuState { keys: self.keys.update(key, false), ..self };
            if self.flags.keypause {
                CpuState {
                    flags: Flags { lastkey: Some(key as usize), keypause: false, ..self.flags },
                    ..st
                }
            } else {
                st
            }
        } else {
            self
        }
    }

    /// The program region, when it lies within memory.
    pub open spec fn program_range(self) -> Option<Range<usize>> {
        match self.program {
            Some(r) => if r.start <= r.end <= self.mem.len() {
                Some(r)
            } else {
                None
            },
            None => None,
        }
    }

    /// Whether `data` fits in the program region (or there is no program region to load).
    pub open spec fn program_fits(self, data: Seq<u8>) -> bool {
        self.program_range() matches Some(r) ==> data.len() <= r.end - r.start
    }

    /// This state with `data` loaded at the start of the program region (unchanged when there
    /// is none).
    pub open spec fn with_program(self, data: Seq<u8>) -> CpuState {
        match self.program_range() {
            Some(r) => CpuState { mem: overwrite(self.mem, r.start as int, data), ..self },
            None => self,
        }
    }

    /// The state after a soft reset: execution resumes at [PROGRAM_START], and neither a key
    /// nor a frame is waited for.
    pub open spec fn soft_reset(self) -> CpuState {
        CpuState {
            pc: PROGRAM_START,
            flags: Flags { keypause: false, draw_wait: false, ..self.flags },
            ..self
        }
    }

    /// The breakpoints after setting one at `addr`: added unless already there.
    pub open spec fn with_break(self, addr: u16) -> CpuState {
        if self.breakpoints.contains(addr) {
            self
        } else {
            CpuState { breakpoints: self.breakpoints.push(addr), ..self }
        }
    }

    /// The breakpoints after unsetting the one at `addr`: its first occurrence is replaced
    /// by the last breakpoint, which is then dropped.
    pub open spec fn without_break(self, addr: u16) -> CpuState {
        match self.breakpoints.index_of_first(addr) {
            Some(k) => CpuState {
                breakpoints: self.breakpoints.update(k, self.breakpoints.last()).drop_last(),
                ..self
            },
            None => self,
        }
    }

    /// The state and screen after executing `insn`; `random` is the byte that `Cxbb` draws.
    /// Instructions that are decoded but not executed change nothing.
    #[verifier::opaque]
    pub open spec fn execute(self, insn: Insn, screen: Seq<u8>, random: u8) -> (CpuState, Seq<u8>) {
        match insn {
            Insn::cls => (self, Seq::new(screen.len(), |i: int| 0u8)),
            Insn::ret => (self.op_ret(), screen),
            Insn::jmp { A } => (self.op_jump(A), screen),
            Insn::call { A } => (self.op_call(A), screen),
            Insn::seb { B, x } => (self.op_skip_equals_immediate(x as int, B), screen),
            Insn::sneb { B, x } => (self.op_skip_not_equals_immediate(x as int, B), screen),
            Insn::se { y, x } => (self.op_skip_equals(x as int, y as int), screen),
            Insn::movb { B, x } => (self.op_load_immediate(x as int, B), screen),
            Insn::addb { B, x } => (self.op_add_immediate(x as int, B), screen),
            Insn::mov { x, y } => (self.op_load(x as int, y as int), screen),
            Insn::or { y, x } => (self.op_or(x as int, y as int), screen),
            Insn::and { y, x } => (self.op_and(x as int, y as int), screen),
            Insn::xor { y, x } => (self.op_xor(x as int, y as int), screen),
            Insn::add { y, x } => (self.op_add(x as int, y as int), screen),
            Insn::sub { y, x } => (self.op_sub(x as int, y as int), screen),
            Insn::shr { y, x } => (self.op_shift_right(x as int, y as int), screen),
            Insn::bsub { y, x } => (self.op_backwards_sub(x as int, y as int), screen),
            Insn::shl { y, x } => (self.op_shift_left(x as int, y as int), screen),
            Insn::sne { y, x } => (self.op_skip_not_equals(x as int, y as int), screen),
            Insn::movI { A } => (self.op_load_i_immediate(A), screen),
            Insn::jmpr { A } => (self.op_jump_indexed(A), screen),
            Insn::rand { B, x } => (self.op_rand(x as int, B, random), screen),
            Insn::draw { y, x, n } => self.op_draw(screen, x as int, y as int, n),
            Insn::sek { x } => (self.op_skip_key_equals(x as int), screen),
            Insn::snek { x } => (self.op_skip_key_not_equals(x as int), screen),
            Insn::getdt { x } => (self.op_load_delay_timer(x as int), screen),
            Insn::waitk { x } => (self.op_wait_for_key(x as int), screen),
            Insn::setdt { x } => (self.op_store_delay_timer(x as int), screen),
            Insn::movst { x } => (self.op_store_sound_timer(x as int), screen),
            Insn::addI { x } => (self.op_add_i(x as int), screen),
            Insn::font { x } => (self.op_load_sprite(x as int), screen),
            Insn::bcd { x } => (self.op_bcd_convert(x as int), screen),
            Insn::dmao { x } => (self.op_store_dma(x as int), screen),
            Insn::dmai { x } => (self.op_load_dma(x as int), screen),
            _ => (self, screen),
        }
    }

    /// The state, screen and outcome of running `insn`, just fetched: the program counter
    /// advances past it, it executes, and running onto a breakpoint pauses the CPU and
    /// reports it.
    pub open spec fn run_fetched(self, insn: Insn, screen: Seq<u8>, random: u8) -> (CpuState, Seq<u8>, Result<(), Error>) {
        let (st, scr) = CpuState { pc: add16(self.pc, 2), ..self }.execute(insn, screen, random);
        if st.breakpoints.contains(st.pc) {
            (
                CpuState { flags: Flags { pause: true, ..st.flags }, ..st },
                scr,
                Err(Error::BreakpointHit { addr: st.pc, next: word_at(st.mem, st.pc as int) }),
            )
        } else {
            (st, scr, Ok(()))
        }
    }

    /// The state, screen and outcome of one tick: when execution is held nothing runs (but
    /// with monotonic timing the cycle is still counted); otherwise the cycle is counted, the
    /// opcode at the program counter is fetched and decoded, the program counter advances
    /// past it, and it runs. Running onto a breakpoint pauses the CPU and reports it.
    pub open spec fn tick(self, screen: Seq<u8>, random: u8) -> (CpuState, Seq<u8>, Result<(), Error>) {
        if self.flags.spec_is_paused() {
            (if self.flags.monotonic is Some { self.count_cycle() } else { self }, screen, Ok(()))
        } else {
            let st = self.count_cycle();
            if self.pc + 2 > self.mem.len() {
                (
                    st,
                    screen,
                    Err(
                        Error::InvalidAddressRange {
                            range: AnyRange::Range((self.pc as usize)..((self.pc + 2) as usize)),
                        },
                    ),
                )
            } else {
                let word = word_of(self.mem[self.pc as int], self.mem[self.pc + 1]);
                let decoded = decode_word(word);
                if decoded is Some && is_executable(decoded->0) {
                    st.run_fetched(decoded->0, screen, random)
                } else {
                    (st, screen, Err(Error::UnimplementedInstruction { word: word as u16 }))
                }
            }
        }
    }

    /// One tick run with the user pause lifted, after which the CPU is paused again (and no
    /// longer waits for a frame) unless the tick failed.
    pub open spec fn singlestep(self, screen: Seq<u8>, random: u8) -> (CpuState, Seq<u8>, Result<(), Error>) {
        let (st, scr, res) = CpuState { flags: Flags { pause: false, ..self.flags }, ..self }.tick(
            screen,
            random,
        );
        if res is Err {
            (st, scr, res)
        } else {
            (CpuState { flags: Flags { draw_wait: false, pause: true, ..st.flags }, ..st }, scr, Ok(()))
        }
    }

    /// The state after a vertical blank during which `elapsed` sub-frames passed. Nothing
    /// changes while the user pause is on. With monotonic timing at `speed` ticks per frame
    /// the timers lose a `speed`th of a frame, and a wait for the frame ends; with real-time
    /// timing the timers lose `elapsed`, and a wait for the frame ends once more than a frame
    /// has passed.
    pub open spec fn vblank(self, elapsed: u64) -> CpuState {
        if self.flags.pause {
            self
        } else {
            match self.flags.monotonic {
                Some(speed) => {
                    let step: u64 = if speed == 0 {
                        u64::MAX
                    } else {
                        (SUBFRAMES / (speed as u64)) as u64
                    };
                    CpuState {
                        flags: Flags {
                            draw_wait: false,
                            ..self.flags
                        },
                        delay: sub_floor(self.delay, step),
                        sound: sub_floor(self.sound, step),
                        ..self
                    }
                },
                None => CpuState {
                    flags: Flags {
                        draw_wait: self.flags.draw_wait && elapsed <= SUBFRAMES,
                        ..self.flags
                    },
                    delay: sub_floor(self.delay, elapsed),
                    sound: sub_floor(self.sound, elapsed),
                    ..self
                },
            }
        }
    }

    /// The state, screen and outcome after `steps` rounds of a tick and a vertical blank,
    /// stopping at the first failed tick; round `k` draws `randoms[k]` and lasts
    /// `elapsed[k]` sub-frames.
    pub open spec fn run(self, screen: Seq<u8>, steps: nat, randoms: Seq<u8>, elapsed: Seq<u64>) -> (
        CpuState,
        Seq<u8>,
        Result<(), Error>,
    )
        decreases steps,
    {
        if steps == 0 {
            (self, screen, Ok(()))
        } else {
            let (st, scr, res) = self.run(screen, (steps - 1) as nat, randoms, elapsed);
            if res is Err {
                (st, scr, res)
            } else {
                let (st2, scr2, res2) = st.tick(scr, randoms[steps - 1]);
                if res2 is Err {
                    (st2, scr2, res2)
                } else {
                    (st2.vblank(elapsed[steps - 1]), scr2, Ok(()))
                }
            }
        }
    }

    /// This state with one more cycle counted.
    pub open spec fn count_cycle(self) -> CpuState {
        CpuState { cycle: (self.cycle + 1) as usize, ..self }
    }
}

} // verus!
