//! The effect of each instruction on a [CPU](super::CPU).
//!
//! Each method performs one instruction; its contract is the matching `op_` function of
//! [CpuState](super::state::CpuState).

use super::state::{draw_row, draw_rows, toggle_pixel, SUBFRAMES};
use super::{random_byte, CPU};
use crate::screen::Screen;
use vstd::prelude::*;
use vstd::slice::slice_subrange;

verus! {

broadcast use vstd::array::group_array_axioms;

/// Draws one row of a sprite: the eight pixels of `bits` at column `x0` of row `py`.
fn draw_sprite_row(screen: &mut Screen, bits: u8, x0: usize, py: usize, wrap: bool) -> (hit: bool)
    requires
        x0 < 64,
        py < 32,
    ensures
        (final(screen).bytes(), hit) == draw_row(old(screen).bytes(), bits, x0 as int, py as int, wrap, 8),
{
    let mut hit = false;
    let mut b: u8 = 0;
    while b < 8
        invariant
            b <= 8,
            x0 < 64,
            py < 32,
            (screen.bytes(), hit) == draw_row(old(screen).bytes(), bits, x0 as int, py as int, wrap, b as nat),
        decreases 8 - b,
    {
        let ghost before = screen.bytes();
        let px = x0 + b as usize;
        if (bits >> (7 - b)) & 1 == 1 && (px < 64 || wrap) {
            let px = px % 64;
            let addr = py * 8 + px / 8;
            let mask = 0x80u8 >> ((px % 8) as u8);
            let old_byte = screen.read_byte(addr);
            screen.write_byte(addr, old_byte ^ mask);
            let was_on = old_byte & mask != 0;
            proof {
                if !(addr < before.len()) {
                    assert(old_byte == 0);
                    assert(0u8 & mask == 0) by (bit_vector);
                }
                assert((screen.bytes(), was_on) == toggle_pixel(before, px as int, py as int));
            }
            hit = hit || was_on;
        }
        b = b + 1;
    }
    hit
}

impl CPU {
    /// |`00e0`| Clears the screen memory to 0
    pub fn clear_screen(&self, screen: &mut Screen)
        ensures
            final(screen).bytes() == Seq::new(old(screen).bytes().len(), |i: int| 0u8),
    {
        screen.clear();
    }

    /// |`00ee`| Returns from subroutine
    pub fn ret(&mut self)
        ensures
            final(self)@ == old(self)@.op_ret(),
    {
        if let Some(addr) = self.stack.pop() {
            self.pc = addr;
        }
    }

    /// |`1aaa`| Sets the program counter to an absolute address
    pub fn jump(&mut self, addr: u16)
        ensures
            final(self)@ == old(self)@.op_jump(addr),
    {
        self.pc = addr;
    }

    /// |`2aaa`| Pushes pc onto the stack, then jumps to a
    pub fn call(&mut self, addr: u16)
        ensures
            final(self)@ == old(self)@.op_call(addr),
    {
        self.stack.push(self.pc);
        self.pc = addr;
    }

    /// Skips the next instruction when `cond` holds.
    fn skip_when(&mut self, cond: bool)
        ensures
            final(self)@ == old(self)@.skip_if(cond),
    {
        if cond {
            self.pc = self.pc.wrapping_add(2);
        }
    }

    /// |`3xbb`| Skips the next instruction if the register X == b
    pub fn skip_equals_immediate(&mut self, x: usize, byte: u8)
        requires
            x < 16,
        ensures
            final(self)@ == old(self)@.op_skip_equals_immediate(x as int, byte),
    {
        let cond = self.v[x] == byte;
        self.skip_when(cond);
    }

    /// |`4xbb`| Skips the next instruction if the register X != b
    pub fn skip_not_equals_immediate(&mut self, x: usize, byte: u8)
        requires
            x < 16,
        ensures
            final(self)@ == old(self)@.op_skip_not_equals_immediate(x as int, byte),
    {
        let cond = self.v[x] != byte;
        self.skip_when(cond);
    }

    /// |`5xy0`| Skips the next instruction if vX == vY
    pub fn skip_equals(&mut self, x: usize, y: usize)
        requires
            x < 16,
            y < 16,
        ensures
            final(self)@ == old(self)@.op_skip_equals(x as int, y as int),
    {
        let cond = self.v[x] == self.v[y];
        self.skip_when(cond);
    }

    /// |`9xy0`| Skips the next instruction if vX != vY
    pub fn skip_not_equals(&mut self, x: usize, y: usize)
        requires
            x < 16,
            y < 16,
        ensures
            final(self)@ == old(self)@.op_skip_not_equals(x as int, y as int),
    {
        let cond = self.v[x] != self.v[y];
        self.skip_when(cond);
    }

    /// |`6xbb`| Loads immediate byte b into register vX
    pub fn load_immediate(&mut self, x: usize, byte: u8)
        requires
            x < 16,
        ensures
            final(self)@ == old(self)@.op_load_immediate(x as int, byte),
    {
        self.v[x] = byte;
    }

    /// |`7xbb`| Adds immediate byte b to register vX, without touching vF
    pub fn add_immediate(&mut self, x: usize, byte: u8)
        requires
            x < 16,
        ensures
            final(self)@ == old(self)@.op_add_immediate(x as int, byte),
    {
        self.v[x] = self.v[x].wrapping_add(byte);
    }

    /// |`8xy0`| Loads the value of y into x
    pub fn load(&mut self, x: usize, y: usize)
        requires
            x < 16,
            y < 16,
        ensures
            final(self)@ == old(self)@.op_load(x as int, y as int),
    {
        self.v[x] = self.v[y];
    }

    /// Clears vF after a logic operation, unless the `bin_ops` quirk is set.
    fn clear_flag_after_logic(&mut self)
        ensures
            final(self)@ == (if old(self)@.flags.quirks.bin_ops {
                old(self)@
            } else {
                old(self)@.with_v(15, 0)
            }),
    {
        if !self.flags.quirks.bin_ops {
            self.v[15] = 0;
        }
    }

    /// |`8xy1`| Performs bitwise or of vX and vY, and stores the result in vX
    pub fn or(&mut self, x: usize, y: usize)
        requires
            x < 16,
            y < 16,
        ensures
            final(self)@ == old(self)@.op_or(x as int, y as int),
    {
        self.v[x] = self.v[x] | self.v[y];
        self.clear_flag_after_logic();
    }

    /// |`8xy2`| Performs bitwise and of vX and vY, and stores the result in vX
    pub fn and(&mut self, x: usize, y: usize)
        requires
            x < 16,
            y < 16,
        ensures
            final(self)@ == old(self)@.op_and(x as int, y as int),
    {
        self.v[x] = self.v[x] & self.v[y];
        self.clear_flag_after_logic();
    }

    /// |`8xy3`| Performs bitwise xor of vX and vY, and stores the result in vX
    pub fn xor(&mut self, x: usize, y: usize)
        requires
            x < 16,
            y < 16,
        ensures
            final(self)@ == old(self)@.op_xor(x as int, y as int),
    {
        self.v[x] = self.v[x] ^ self.v[y];
        self.clear_flag_after_logic();
    }

    /// |`8xy4`| Performs addition of vX and vY, and stores the result in vX, the carry in vF
    pub fn add(&mut self, x: usize, y: usize)
        requires
            x < 16,
            y < 16,
        ensures
            final(self)@ == old(self)@.op_add(x as int, y as int),
    {
        let sum: u16 = self.v[x] as u16 + self.v[y] as u16;
        self.v[x] = (sum % 256) as u8;
        self.v[15] = if sum >= 256 { 1 } else { 0 };
    }

    /// |`8xy5`| Performs subtraction of vX and vY, and stores the result in vX, the inverted
    /// borrow in vF
    pub fn sub(&mut self, x: usize, y: usize)
        requires
            x < 16,
            y < 16,
        ensures
            final(self)@ == old(self)@.op_sub(x as int, y as int),
    {
        let (a, b) = (self.v[x], self.v[y]);
        self.v[x] = a.wrapping_sub(b);
        self.v[15] = if a >= b { 1 } else { 0 };
    }

    /// The operand of a shift: vX with the `shift` quirk, else vY.
    fn shift_operand(&self, x: usize, y: usize) -> (r: u8)
        requires
            x < 16,
            y < 16,
        ensures
            r == self@.shift_source(x as int, y as int),
    {
        if self.flags.quirks.shift {
            self.v[x]
        } else {
            self.v[y]
        }
    }

    /// |`8xy6`| Performs bitwise right shift of vY (or vX), stores carry-out in vF
    pub fn shift_right(&mut self, x: usize, y: usize)
        requires
            x < 16,
            y < 16,
        ensures
            final(self)@ == old(self)@.op_shift_right(x as int, y as int),
    {
        let src = self.shift_operand(x, y);
        assert(src >> 1 == src / 2 && src & 1 == src % 2) by (bit_vector);
        self.v[x] = src >> 1;
        self.v[15] = src & 1;
    }

    /// |`8xy7`| Performs subtraction of vY and vX, and stores the result in vX, the inverted
    /// borrow in vF
    pub fn backwards_sub(&mut self, x: usize, y: usize)
        requires
            x < 16,
            y < 16,
        ensures
            final(self)@ == old(self)@.op_backwards_sub(x as int, y as int),
    {
        let (a, b) = (self.v[x], self.v[y]);
        self.v[x] = b.wrapping_sub(a);
        self.v[15] = if b >= a { 1 } else { 0 };
    }

    /// |`8xyE`| Performs bitwise left shift of vY (or vX), stores carry-out in vF
    pub fn shift_left(&mut self, x: usize, y: usize)
        requires
            x < 16,
            y < 16,
        ensures
            final(self)@ == old(self)@.op_shift_left(x as int, y as int),
    {
        let src = self.shift_operand(x, y);
        assert(src << 1 == ((src * 2) % 256) as u8 && src >> 7 == src / 128) by (bit_vector);
        self.v[x] = src << 1;
        self.v[15] = src >> 7;
    }

    /// |`Aaaa`| Loads address #a into register I
    pub fn load_i_immediate(&mut self, addr: u16)
        ensures
            final(self)@ == old(self)@.op_load_i_immediate(addr),
    {
        self.i = addr;
    }

    /// |`Baaa`| Jumps to a + v0 (with the `stupid_jumps` quirk, to a + vA, where A is the
    /// high nibble of a)
    pub fn jump_indexed(&mut self, addr: u16)
        ensures
            final(self)@ == old(self)@.op_jump_indexed(addr),
    {
        let reg: usize = if self.flags.quirks.stupid_jumps {
            assert((addr >> 8u16) & 0xf == (addr / 256) % 16) by (bit_vector);
            ((addr >> 8u16) & 0xf) as usize
        } else {
            0
        };
        self.pc = addr.wrapping_add(self.v[reg] as u16);
    }

    /// |`Cxbb`| Stores `random & b` into vX, for the byte `random`
    pub fn rand_with(&mut self, x: usize, byte: u8, random: u8)
        requires
            x < 16,
        ensures
            final(self)@ == old(self)@.op_rand(x as int, byte, random),
            final(self)@.v[x as int] & !byte == 0,
            final(self)@.v[x as int] & byte == random & byte,
    {
        let got = random & byte;
        assert(got & !byte == 0 && got & byte == random & byte) by (bit_vector)
            requires
                got == random & byte,
        ;
        self.v[x] = got;
    }

    /// |`Cxbb`| Stores a random number & the provided byte into vX
    pub fn rand(&mut self, x: usize, byte: u8)
        requires
            x < 16,
        ensures
            exists|random: u8| final(self)@ == old(self)@.op_rand(x as int, byte, random),
    {
        let random = random_byte();
        self.rand_with(x, byte, random);
    }

    /// |`Dxyn`| Draws the n-byte sprite at I to the screen at coordinates (vX, vY)
    #[verifier::rlimit(40)]
    pub fn draw(&mut self, x: usize, y: usize, n: u8, screen: &mut Screen)
        requires
            x < 16,
            y < 16,
        ensures
            (final(self)@, final(screen).bytes()) == old(self)@.op_draw(
                old(screen).bytes(),
                x as int,
                y as int,
                n,
            ),
    {
        let x0 = (self.v[x] % 64) as usize;
        let y0 = (self.v[y] % 32) as usize;
        let wrap = self.flags.quirks.screen_wrap;
        let mut hit = false;
        let mut r: u8 = 0;
        while r < n
            invariant
                r <= n,
                x0 < 64,
                y0 < 32,
                x0 == old(self)@.v[x as int] % 64,
                y0 == old(self)@.v[y as int] % 32,
                wrap == old(self)@.flags.quirks.screen_wrap,
                self@ == old(self)@,
                (screen.bytes(), hit) == draw_rows(
                    old(screen).bytes(),
                    old(self)@.mem,
                    old(self)@.i,
                    x0 as int,
                    y0 as int,
                    wrap,
                    r as nat,
                ),
            decreases n - r,
        {
            let py = y0 + r as usize;
            if py < 32 || wrap {
                let addr = self.i.wrapping_add(r as u16);
                let bits = self.mem.read_byte(addr as usize);
                let row_hit = draw_sprite_row(screen, bits, x0, py % 32, wrap);
                hit = hit || row_hit;
            }
            r = r + 1;
        }
        self.v[15] = if hit { 1 } else { 0 };
        if !self.flags.quirks.draw_wait {
            self.flags.draw_wait = true;
        }
    }

    /// |`Ex9E`| Skips the next instruction if the key named by vX is held
    pub fn skip_key_equals(&mut self, x: usize)
        requires
            x < 16,
        ensures
            final(self)@ == old(self)@.op_skip_key_equals(x as int),
    {
        let key = self.v[x];
        assert(key & 0xf == key % 16) by (bit_vector);
        let cond = self.keys[(key & 0xf) as usize];
        self.skip_when(cond);
    }

    /// |`ExA1`| Skips the next instruction if the key named by vX is not held
    pub fn skip_key_not_equals(&mut self, x: usize)
        requires
            x < 16,
        ensures
            final(self)@ == old(self)@.op_skip_key_not_equals(x as int),
    {
        let key = self.v[x];
        assert(key & 0xf == key % 16) by (bit_vector);
        let cond = !self.keys[(key & 0xf) as usize];
        self.skip_when(cond);
    }

    /// |`Fx0A`| Waits for a key to be pressed and released, then stores it in vX
    ///
    /// Until a key is released, the program counter stays on this instruction.
    pub fn wait_for_key(&mut self, x: usize)
        requires
            x < 16,
        ensures
            final(self)@ == old(self)@.op_wait_for_key(x as int),
    {
        match self.flags.lastkey {
            Some(key) => {
                self.v[x] = key as u8;
                self.flags.lastkey = None;
            },
            None => {
                self.pc = self.pc.wrapping_sub(2);
                self.flags.keypause = true;
            },
        }
    }

    /// |`Fx07`| Loads the delay timer, in whole frames, into vX
    pub fn load_delay_timer(&mut self, x: usize)
        requires
            x < 16,
        ensures
            final(self)@ == old(self)@.op_load_delay_timer(x as int),
    {
        let frames = self.delay / SUBFRAMES;
        self.v[x] = if frames >= 255 { 255 } else { frames as u8 };
    }

    /// |`Fx15`| Sets the delay timer to vX frames
    pub fn store_delay_timer(&mut self, x: usize)
        requires
            x < 16,
        ensures
            final(self)@ == old(self)@.op_store_delay_timer(x as int),
    {
        self.delay = self.v[x] as u64 * SUBFRAMES;
    }

    /// |`Fx18`| Sets the sound timer to vX frames
    pub fn store_sound_timer(&mut self, x: usize)
        requires
            x < 16,
        ensures
            final(self)@ == old(self)@.op_store_sound_timer(x as int),
    {
        self.sound = self.v[x] as u64 * SUBFRAMES;
    }

    /// |`Fx1E`| Adds vX to I
    pub fn add_i(&mut self, x: usize)
        requires
            x < 16,
        ensures
            final(self)@ == old(self)@.op_add_i(x as int),
    {
        self.i = self.i.wrapping_add(self.v[x] as u16);
    }

    /// |`Fx29`| Loads the address of the sprite for the character in vX into I
    pub fn load_sprite(&mut self, x: usize)
        requires
            x < 16,
        ensures
            final(self)@ == old(self)@.op_load_sprite(x as int),
    {
        let offset = 5 * (self.v[x] % 16) as u16;
        self.i = self.font.wrapping_add(offset);
    }

    /// |`Fx33`| Converts vX to binary-coded decimal, and stores the digits at I, I+1, I+2
    pub fn bcd_convert(&mut self, x: usize)
        requires
            x < 16,
        ensures
            final(self)@ == old(self)@.op_bcd_convert(x as int),
    {
        let value = self.v[x];
        let i = self.i as usize;
        self.mem.write_byte(i + 2, value % 10);
        self.mem.write_byte(i + 1, (value / 10) % 10);
        self.mem.write_byte(i, value / 100);
    }

    /// I after a DMA over v0..=vX.
    fn dma_next_i(&self, x: usize) -> (r: u16)
        requires
            x < 16,
        ensures
            r == self@.dma_i(x as int),
    {
        if self.flags.quirks.dma_inc {
            self.i
        } else {
            self.i.wrapping_add(x as u16 + 1)
        }
    }

    /// |`Fx55`| Stores registers v0..=vX to memory starting at I
    pub fn store_dma(&mut self, x: usize)
        requires
            x < 16,
        ensures
            final(self)@ == old(self)@.op_store_dma(x as int),
    {
        let i = self.i as usize;
        if i + x + 1 <= self.mem.len() {
            let regs = slice_subrange(self.v.as_slice(), 0, x + 1);
            assert(regs@ == old(self)@.v.take(x + 1));
            let _ = self.mem.write_bytes(i, regs);
        }
        self.i = self.dma_next_i(x);
    }

    /// |`Fx65`| Loads registers v0..=vX from memory starting at I
    pub fn load_dma(&mut self, x: usize)
        requires
            x < 16,
        ensures
            final(self)@ == old(self)@.op_load_dma(x as int),
    {
        let i = self.i as usize;
        if i + x + 1 <= self.mem.len() {
            let mut k: usize = 0;
            while k <= x
                invariant
                    x < 16,
                    k <= x + 1,
                    i == old(self)@.i,
                    i + x + 1 <= old(self)@.mem.len(),
                    self@ == (super::state::CpuState { v: self@.v, ..old(self)@ }),
                    self@.v.len() == 16,
                    self@.v == old(self)@.mem.subrange(i as int, i + k) + old(self)@.v.skip(k as int),
                decreases x + 1 - k,
            {
                let byte = self.mem.read_byte(i + k);
                self.v[k] = byte;
                k = k + 1;
                assert(self@.v =~= old(self)@.mem.subrange(i as int, i + k) + old(self)@.v.skip(k as int));
            }
        }
        self.i = self.dma_next_i(x);
    }
}

} // verus!
