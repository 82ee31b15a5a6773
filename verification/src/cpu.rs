//! The Chip-8 processor: its instruction set, memory, flags and execution.

pub mod behavior;
pub mod bus;
pub mod disassemble;
pub mod emu;
pub mod execution;
pub mod flags;
pub mod hotkeys;
pub mod instruction;
pub mod laws;
pub mod mem;
pub mod mode;
pub mod quirks;
pub mod state;

use self::flags::{default_flags, Flags};
use self::instruction::disassembler::Dis;
use self::mem::{Mem, Region};
use self::state::{timer_value, CpuState, PROGRAM_START, SUBFRAMES};
use crate::error::{Error, Result};
use crate::text::{dec_text, hex_text, pad_left, push_char, push_dec, push_dec_padded, push_hex};
use std::time::{Duration, Instant};
use vstd::prelude::*;

verus! {

broadcast use vstd::array::group_array_axioms;

#[verifier::external_type_specification]
#[verifier::external_body]
pub struct ExInstant(Instant);

/// `Instant::clone`: `Instant` is `Copy`, so a clone is the same instant.
pub assume_specification[ <Instant as Clone>::clone ](i: &Instant) -> (r: Instant)
    ensures
        r == *i,
;

/// `Instant::now`: the current time of the monotonic clock. Nothing is claimed of it.
#[verifier::external_body]
fn instant_now() -> (r: Instant) {
    Instant::now()
}

/// `Instant::saturating_duration_since`: the time from `earlier` to `now` (zero when
/// `earlier` is later). It depends on the clock, so nothing is claimed of it.
#[verifier::external_body]
fn duration_since(now: &Instant, earlier: &Instant) -> (r: Duration) {
    now.saturating_duration_since(*earlier)
}

/// `Duration::as_nanos`: the whole nanoseconds in a duration. The duration is opaque here,
/// so nothing is claimed of the count.
#[verifier::external_body]
fn duration_nanos(d: &Duration) -> (r: u128) {
    d.as_nanos()
}

/// `rand::random::<u8>()`: a byte from the thread-local generator. Any byte may come back.
#[verifier::external_body]
fn random_byte() -> (r: u8) {
    rand::random::<u8>()
}

/// The sixteen character sprites (`0`..`F`), five bytes each, that a fresh CPU holds at
/// [CHARSET_START].
pub open spec fn font_sprites() -> Seq<u8> {
    seq![
        0xf0, 0x90, 0x90, 0x90, 0xf0,
        0x20, 0x60, 0x20, 0x20, 0x70,
        0xf0, 0x10, 0xf0, 0x80, 0xf0,
        0xf0, 0x10, 0xf0, 0x10, 0xf0,
        0x90, 0x90, 0xf0, 0x10, 0x10,
        0xf0, 0x80, 0xf0, 0x10, 0xf0,
        0xf0, 0x80, 0xf0, 0x90, 0xf0,
        0xf0, 0x10, 0x20, 0x40, 0x40,
        0xf0, 0x90, 0xf0, 0x90, 0xf0,
        0xf0, 0x90, 0xf0, 0x10, 0xf0,
        0xf0, 0x90, 0xf0, 0x90, 0x90,
        0xe0, 0x90, 0xe0, 0x90, 0xe0,
        0xf0, 0x80, 0x80, 0x80, 0xf0,
        0xe0, 0x90, 0x90, 0x90, 0xe0,
        0xf0, 0x80, 0xf0, 0x80, 0xf0,
        0xf0, 0x80, 0xf0, 0x80, 0x80,
    ]
}

/// Where the character sprites start in a fresh CPU's memory.
pub const CHARSET_START: usize = 0x50;

/// The size of a fresh CPU's memory.
pub const MEMORY_SIZE: usize = 0x1000;

/// The memory of a fresh CPU: the character sprites at [CHARSET_START], zeroes elsewhere.
pub open spec fn initial_memory() -> Seq<u8> {
    Seq::new(
        MEMORY_SIZE as nat,
        |a: int|
            if CHARSET_START <= a < CHARSET_START + 80 {
                font_sprites()[a - CHARSET_START]
            } else {
                0u8
            },
    )
}

/// The state of a CPU built with `screen`, `font`, `pc`, `sp`, `breakpoints` and `flags`, and
/// defaults for the rest.
pub open spec fn initial_state(
    screen: u16,
    font: u16,
    pc: u16,
    sp: u16,
    breakpoints: Seq<u16>,
    flags: Flags,
) -> CpuState {
    CpuState {
        flags,
        screen,
        font,
        pc,
        sp,
        i: 0,
        v: Seq::new(16, |k: int| 0u8),
        delay: 0,
        sound: 0,
        stack: Seq::empty(),
        keys: Seq::new(16, |k: int| false),
        cycle: 0,
        breakpoints,
        mem: initial_memory(),
        charset: Some(CHARSET_START..(CHARSET_START + 80) as usize),
        program: Some((PROGRAM_START as usize)..MEMORY_SIZE),
    }
}

/// The state of [CPU::default]: [initial_state] with the screen at `0x0f00`, the font at
/// [CHARSET_START], execution starting at [PROGRAM_START], the stack's top at `0x0efe`, no
/// breakpoints, and live disassembly on.
pub open spec fn default_state() -> CpuState {
    initial_state(
        0x0f00,
        CHARSET_START as u16,
        PROGRAM_START,
        0x0efe,
        Seq::empty(),
        Flags { debug: true, ..default_flags() },
    )
}

/// The lines of register values in [CPU::dump]: `vX: xx ` for the first `count` registers,
/// four to a line.
pub open spec fn registers_text(v: Seq<u8>, count: nat) -> Seq<char>
    decreases count,
{
    if count == 0 {
        Seq::empty()
    } else {
        let k = (count - 1) as nat;
        registers_text(v, k) + seq!['v'] + hex_text(k, 1, true) + seq![':', ' '] + hex_text(
            v[k as int] as nat,
            2,
            false,
        ) + seq![' '] + if k % 4 == 3 {
            seq!['\n']
        } else {
            Seq::empty()
        }
    }
}

/// The stack pointer that [CPU::dump] shows: the initial top of the stack, less two bytes for
/// each return address held, wrapping around the 16-bit address space.
pub open spec fn stack_pointer(st: CpuState) -> u16 {
    let down = 2 * (st.stack.len() % 0x8000);
    if st.sp >= down {
        (st.sp - down) as u16
    } else {
        (st.sp + 0x10000 - down) as u16
    }
}

/// The text of [CPU::dump]: the program counter, stack depth and `I` in hexadecimal, the
/// registers, then the timers in whole frames and the cycle count.
pub open spec fn dump_text(st: CpuState) -> Seq<char> {
    seq!['P', 'C', ':', ' '] + hex_text(st.pc as nat, 4, false) + seq![',', ' ', 'S', 'P', ':', ' ']
        + hex_text(stack_pointer(st) as nat, 4, false) + seq![',', ' ', 'I', ':', ' '] + hex_text(
        st.i as nat,
        4,
        false,
    ) + seq!['\n'] + registers_text(st.v, 16) + seq!['D', 'L', 'Y', ':', ' '] + dec_text(
        timer_value(st.delay) as nat,
    ) + seq![',', ' ', 'S', 'N', 'D', ':', ' '] + dec_text(timer_value(st.sound) as nat) + seq![
        ',',
        ' ',
        'C',
        'Y',
        'C',
        ':',
        ' ',
    ] + pad_left(dec_text(st.cycle as nat), 6)
}

/// Represents the internal state of the CPU interpreter
#[derive(Clone, Debug, PartialEq)]
pub struct CPU {
    /// Flags that control how the CPU behaves, but which aren't inherent to the
    /// chip-8. Includes [quirks::Quirks], target IPF, etc.
    pub flags: Flags,
    // memory map info
    screen: u16,
    font: u16,
    // registers
    pc: u16,
    sp: u16,
    i: u16,
    v: [u8; 16],
    delay: u64,
    sound: u64,
    stack: Vec<u16>,
    // I/O
    keys: [bool; 16],
    // Execution data
    frame: Instant,
    cycle: usize,
    breakpoints: Vec<u16>,
    disassembler: Dis,
    mem: Mem,
}

impl CPU {
    /// The disassembler the CPU was built with.
    pub closed spec fn disassembler(&self) -> Dis {
        self.disassembler
    }
}

impl View for CPU {
    type V = CpuState;

    closed spec fn view(&self) -> CpuState {
        CpuState {
            flags: self.flags,
            screen: self.screen,
            font: self.font,
            pc: self.pc,
            sp: self.sp,
            i: self.i,
            v: self.v@,
            delay: self.delay,
            sound: self.sound,
            stack: self.stack@,
            keys: self.keys@,
            cycle: self.cycle,
            breakpoints: self.breakpoints@,
            mem: self.mem.bytes(),
            charset: self.mem.range_of(Region::Charset),
            program: self.mem.range_of(Region::Program),
        }
    }
}

/// The memory of a fresh CPU, with its two regions.
fn initial_mem() -> (r: Mem)
    ensures
        r.bytes() == initial_memory(),
        r.range_of(Region::Charset) == Some(CHARSET_START..(CHARSET_START + 80) as usize),
        r.range_of(Region::Program) == Some((PROGRAM_START as usize)..MEMORY_SIZE),
{
    let font: [u8; 80] = [
        0xf0, 0x90, 0x90, 0x90, 0xf0,
        0x20, 0x60, 0x20, 0x20, 0x70,
        0xf0, 0x10, 0xf0, 0x80, 0xf0,
        0xf0, 0x10, 0xf0, 0x10, 0xf0,
        0x90, 0x90, 0xf0, 0x10, 0x10,
        0xf0, 0x80, 0xf0, 0x10, 0xf0,
        0xf0, 0x80, 0xf0, 0x90, 0xf0,
        0xf0, 0x10, 0x20, 0x40, 0x40,
        0xf0, 0x90, 0xf0, 0x90, 0xf0,
        0xf0, 0x90, 0xf0, 0x10, 0xf0,
        0xf0, 0x90, 0xf0, 0x90, 0x90,
        0xe0, 0x90, 0xe0, 0x90, 0xe0,
        0xf0, 0x80, 0x80, 0x80, 0xf0,
        0xe0, 0x90, 0x90, 0x90, 0xe0,
        0xf0, 0x80, 0xf0, 0x80, 0xf0,
        0xf0, 0x80, 0xf0, 0x80, 0x80,
    ];
    assert(font@ =~= font_sprites());
    let mem = Mem::new().add_region_owned(Region::Charset, CHARSET_START..CHARSET_START + 80);
    assert(mem.valid_range(Region::Charset) == Some(CHARSET_START..(CHARSET_START + 80) as usize));
    let mem = mem.load_region_owned(Region::Charset, font.as_slice());
    let mem = mem.add_region_owned(Region::Program, (PROGRAM_START as usize)..MEMORY_SIZE);
    assert(mem.bytes() =~= initial_memory());
    mem
}

impl CPU {
    /// Constructs a new CPU, taking all configurable parameters: where the screen is mapped,
    /// where the font lies, where execution starts, the initial top of the stack, the
    /// disassembler for live disassembly, the breakpoints and the flags
    pub fn new(
        screen: u16,
        font: u16,
        pc: u16,
        sp: u16,
        disassembler: Dis,
        breakpoints: Vec<u16>,
        flags: Flags,
    ) -> (r: Self)
        ensures
            r@ == initial_state(screen, font, pc, sp, breakpoints@, flags),
            r@.wf(),
            r.disassembler() == disassembler,
    {
        let r = CPU {
            flags,
            screen,
            font,
            pc,
            sp,
            i: 0,
            v: [0; 16],
            delay: 0,
            sound: 0,
            stack: Vec::new(),
            keys: [false; 16],
            frame: instant_now(),
            cycle: 0,
            breakpoints,
            disassembler,
            mem: initial_mem(),
        };
        assert(r@.v =~= Seq::new(16, |k: int| 0u8));
        assert(r@.keys =~= Seq::new(16, |k: int| false));
        r
    }
}

impl CPU {
    /// Presses a key, and reports whether the key's state changed.
    /// If key does not exist, returns [Error::InvalidKey].
    pub fn press(&mut self, key: usize) -> (r: Result<bool>)
        ensures
            key < 16 ==> final(self)@ == old(self)@.pressed(key as int),
            key < 16 ==> (r matches Ok(changed) && changed == !old(self)@.keys[key as int]),
            key >= 16 ==> final(self)@ == old(self)@,
            key >= 16 ==> (r matches Err(Error::InvalidKey { key: k }) && k == key),
    {
        if key < 16 {
            let changed = !self.keys[key];
            self.keys[key] = true;
            Ok(changed)
        } else {
            Err(Error::InvalidKey { key })
        }
    }

    /// Releases a key, and reports whether the key's state changed.
    /// If key is outside range `0..=0xF`, returns [Error::InvalidKey].
    ///
    /// If [Flags::keypause] was enabled, it is disabled,
    /// and the [Flags::lastkey] is recorded.
    pub fn release(&mut self, key: usize) -> (r: Result<bool>)
        ensures
            key < 16 ==> final(self)@ == old(self)@.released(key as int),
            key < 16 ==> (r matches Ok(changed) && changed == old(self)@.keys[key as int]),
            key >= 16 ==> final(self)@ == old(self)@,
            key >= 16 ==> (r matches Err(Error::InvalidKey { key: k }) && k == key),
    {
        if key < 16 {
            if self.keys[key] {
                self.keys[key] = false;
                if self.flags.keypause {
                    self.flags.lastkey = Some(key);
                    self.flags.keypause = false;
                }
                Ok(true)
            } else {
                Ok(false)
            }
        } else {
            Err(Error::InvalidKey { key })
        }
    }

    /// Sets a general purpose register in the CPU.
    /// If the register doesn't exist, returns [Error::InvalidRegister]
    pub fn set_v(&mut self, reg: usize, value: u8) -> (r: Result<()>)
        ensures
            reg < 16 ==> final(self)@ == old(self)@.with_v(reg as int, value) && r is Ok,
            reg >= 16 ==> final(self)@ == old(self)@,
            reg >= 16 ==> (r matches Err(Error::InvalidRegister { reg: k }) && k == reg),
    {
        if reg < 16 {
            self.v[reg] = value;
            Ok(())
        } else {
            Err(Error::InvalidRegister { reg })
        }
    }

    /// Gets a slice of the entire general purpose registers
    pub fn v(&self) -> (r: &[u8])
        ensures
            r@ == self@.v,
    {
        self.v.as_slice()
    }

    /// Gets the program counter
    pub fn pc(&self) -> (r: u16)
        ensures
            r == self@.pc,
    {
        self.pc
    }

    /// Gets the I register
    pub fn i(&self) -> (r: u16)
        ensures
            r == self@.i,
    {
        self.i
    }

    /// Gets the value in the Sound Timer register, in whole frames
    pub fn sound(&self) -> (r: u8)
        ensures
            r == timer_value(self@.sound),
    {
        let frames = self.sound / SUBFRAMES;
        if frames >= 255 {
            255
        } else {
            frames as u8
        }
    }

    /// Gets the value in the Delay Timer register, in whole frames
    pub fn delay(&self) -> (r: u8)
        ensures
            r == timer_value(self@.delay),
    {
        let frames = self.delay / SUBFRAMES;
        if frames >= 255 {
            255
        } else {
            frames as u8
        }
    }

    /// Gets the number of cycles the CPU has executed
    ///
    /// If cpu.flags.monotonic is Some, the cycle count will be
    /// updated even when the CPU is in drawpause or keypause
    pub fn cycle(&self) -> (r: usize)
        ensures
            r == self@.cycle,
    {
        self.cycle
    }

    /// Soft resets the CPU, releasing keypause and
    /// reinitializing the program counter to 0x200
    pub fn soft_reset(&mut self)
        ensures
            final(self)@ == old(self)@.soft_reset(),
    {
        self.pc = PROGRAM_START;
        self.flags.keypause = false;
        self.flags.draw_wait = false;
    }

    /// Set a breakpoint
    pub fn set_break(&mut self, point: u16) -> (r: &mut Self)
        ensures
            *final(r) == *final(self),
            r@ == old(self)@.with_break(point),
    {
        let mut k: usize = 0;
        let mut found = false;
        while k < self.breakpoints.len()
            invariant
                k <= self.breakpoints@.len(),
                found <==> exists|j: int| 0 <= j < k && self.breakpoints@[j] == point,
            decreases self.breakpoints@.len() - k,
        {
            if self.breakpoints[k] == point {
                found = true;
            }
            k = k + 1;
        }
        if !found {
            self.breakpoints.push(point);
        }
        self
    }

    /// Unset a breakpoint
    pub fn unset_break(&mut self, point: u16) -> (r: &mut Self)
        ensures
            *final(r) == *final(self),
            r@ == old(self)@.without_break(point),
    {
        let mut k: usize = 0;
        while k < self.breakpoints.len()
            invariant
                k <= self.breakpoints@.len(),
                self@ == old(self)@,
                forall|j: int| 0 <= j < k ==> self.breakpoints@[j] != point,
            decreases self.breakpoints@.len() - k,
        {
            if self.breakpoints[k] == point {
                proof {
                    self.breakpoints@.index_of_first_ensures(point);
                }
                let removed = self.breakpoints.swap_remove(k);
                return self;
            }
            k = k + 1;
        }
        proof {
            self.breakpoints@.index_of_first_ensures(point);
        }
        self
    }

    /// Gets a slice of breakpoints
    pub fn breakpoints(&self) -> (r: &[u16])
        ensures
            r@ == self@.breakpoints,
    {
        self.breakpoints.as_slice()
    }

    /// Loads a program into the program region of memory.
    ///
    /// The program must fit in that region.
    pub fn load_program_bytes(&mut self, rom: &[u8]) -> (r: Result<&mut Self>)
        requires
            old(self)@.program_fits(rom@),
        ensures
            r matches Ok(cpu) && *final(cpu) == *final(self) && cpu@ == old(self)@.with_program(rom@),
    {
        let _ = self.mem.load_region(Region::Program, rom);
        Ok(self)
    }

    /// The CPU's memory.
    pub fn memory(&self) -> (r: &Mem)
        ensures
            r.bytes() == self@.mem,
            r.range_of(Region::Charset) == self@.charset,
            r.range_of(Region::Program) == self@.program,
    {
        &self.mem
    }

    /// The CPU's memory, to change.
    pub fn memory_mut(&mut self) -> (r: &mut Mem)
        ensures
            r.bytes() == old(self)@.mem,
            r.range_of(Region::Charset) == old(self)@.charset,
            r.range_of(Region::Program) == old(self)@.program,
            final(self)@ == (CpuState {
                mem: final(r).bytes(),
                charset: final(r).range_of(Region::Charset),
                program: final(r).range_of(Region::Program),
                ..old(self)@
            }),
    {
        &mut self.mem
    }
}

impl CPU {
    /// Appends `chars` to `s`.
    fn push_chars(s: &mut String, chars: &[char])
        ensures
            final(s)@ == old(s)@ + chars@,
    {
        let ghost start = s@;
        let mut k: usize = 0;
        while k < chars.len()
            invariant
                k <= chars@.len(),
                s@ == start + chars@.take(k as int),
            decreases chars@.len() - k,
        {
            push_char(s, chars[k]);
            k = k + 1;
            assert(s@ =~= start + chars@.take(k as int));
        }
        assert(chars@.take(k as int) =~= chars@);
    }

    /// Dumps the current state of all CPU registers, and the cycle count, as text
    ///
    /// ```text
    /// PC: 0200, SP: 0efe, I: 0000
    /// v0: 00 v1: 00 v2: 00 v3: 00
    /// v4: 00 v5: 00 v6: 00 v7: 00
    /// v8: 00 v9: 00 vA: 00 vB: 00
    /// vC: 00 vD: 00 vE: 00 vF: 00
    /// DLY: 0, SND: 0, CYC:      0
    /// ```
    pub fn dump(&self) -> (r: String)
        ensures
            r@ == dump_text(self@),
    {
        let mut s = String::new();
        Self::push_chars(&mut s, &['P', 'C', ':', ' ']);
        push_hex(&mut s, self.pc as u64, 4, false);
        Self::push_chars(&mut s, &[',', ' ', 'S', 'P', ':', ' ']);
        let down: u16 = 2 * ((self.stack.len() % 0x8000) as u16);
        let sp: u16 = if self.sp >= down {
            self.sp - down
        } else {
            (self.sp as u32 + 0x10000 - down as u32) as u16
        };
        push_hex(&mut s, sp as u64, 4, false);
        Self::push_chars(&mut s, &[',', ' ', 'I', ':', ' ']);
        push_hex(&mut s, self.i as u64, 4, false);
        push_char(&mut s, '\n');
        let ghost head = s@;
        let mut k: usize = 0;
        while k < 16
            invariant
                k <= 16,
                s@ == head + registers_text(self@.v, k as nat),
            decreases 16 - k,
        {
            push_char(&mut s, 'v');
            push_hex(&mut s, k as u64, 1, true);
            Self::push_chars(&mut s, &[':', ' ']);
            push_hex(&mut s, self.v[k] as u64, 2, false);
            push_char(&mut s, ' ');
            if k % 4 == 3 {
                push_char(&mut s, '\n');
            }
            k = k + 1;
            assert(s@ =~= head + registers_text(self@.v, k as nat));
        }
        Self::push_chars(&mut s, &['D', 'L', 'Y', ':', ' ']);
        push_dec(&mut s, self.delay() as u64);
        Self::push_chars(&mut s, &[',', ' ', 'S', 'N', 'D', ':', ' ']);
        push_dec(&mut s, self.sound() as u64);
        Self::push_chars(&mut s, &[',', ' ', 'C', 'Y', 'C', ':', ' ']);
        push_dec_padded(&mut s, self.cycle as u64, 6);
        assert(s@ =~= dump_text(self@));
        s
    }
}

impl Default for CPU {
    /// Constructs a new CPU with sane defaults and debug mode ON
    ///
    /// | value  | default | description
    /// |--------|---------|------------
    /// | font   |`0x0050` | Location of font memory.
    /// | pc     |`0x0200` | Start location. Generally 0x200 or 0x600.
    fn default() -> (r: Self)
        ensures
            r@ == default_state(),
            r@.wf(),
    {
        let flags = Flags { debug: true, ..Flags::default() };
        CPU::new(0x0f00, CHARSET_START as u16, PROGRAM_START, 0x0efe, Dis::default(), Vec::new(), flags)
    }
}



impl CPU {
    /// Every CPU has sixteen registers and sixteen keys, whatever it has done.
    pub proof fn lemma_wf(&self)
        ensures
            self@.wf(),
    {
    }
}

} // verus!
