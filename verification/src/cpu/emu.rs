//! An emulator session: a [CPU], the screen it draws on, how many instructions run per
//! frame, the program it was started with, and the colours its screen is shown in.

use super::flags::Flags;
use super::laws::{lemma_run_keeps_screen_size, lemma_singlestep_keeps_screen_size};
use super::quirks::Quirks;
use super::state::CpuState;
use super::{default_state, dump_text, CPU};
use crate::error::Result;
use crate::screen::{row_width, rows_text, Screen};
use crate::text::{dec_text, push_dec, push_str};
use vstd::prelude::*;

verus! {

/// The number of bytes of an emulator's screen: 64 × 32 pixels, eight to a byte.
pub const SCREEN_BYTES: usize = 256;

/// The state of the application
#[derive(Debug)]
pub struct Emulator {
    screen: Screen,
    cpu: CPU,
    /// Instructions run per frame
    pub ipf: usize,
    /// The path of the program file
    pub rom: String,
    /// The colours of lit and unlit pixels, as RGBA
    pub colors: [[u8; 4]; 2],
}

/// The RGBA frame of a 64 × 32 pixel screen: four bytes per pixel, row by row; a pixel
/// whose bit is set in `bytes` takes the colour `colors[0]`, any other `colors[1]`.
pub open spec fn frame_rgba(bytes: Seq<u8>, colors: [[u8; 4]; 2]) -> Seq<u8> {
    Seq::new(
        (SCREEN_BYTES * 32) as nat,
        |idx: int|
            if bytes[idx / 32] & (0x80u8 >> ((idx / 4) % 8) as u8) > 0 {
                colors[0][idx % 4]
            } else {
                colors[1][idx % 4]
            },
    )
}

/// The state after the keys of the keypad change: for each of the first `count` Chip-8 keys
/// in order, the key is released if `released` says so, then pressed if `pressed` says so.
pub open spec fn after_input(st: CpuState, released: Seq<bool>, pressed: Seq<bool>, count: nat) -> CpuState
    decreases count,
{
    if count == 0 {
        st
    } else {
        let k = count - 1;
        let before = after_input(st, released, pressed, k as nat);
        let up = if released[k] {
            before.released(k)
        } else {
            before
        };
        if pressed[k] {
            up.pressed(k)
        } else {
            up
        }
    }
}

/// The state of a freshly built CPU that runs `program`, with `flags`.
pub open spec fn loaded_state(flags: Flags, program: Seq<u8>) -> CpuState {
    CpuState { flags, ..default_state() }.with_program(program)
}

impl Emulator {
    /// The state of the emulator's CPU.
    pub closed spec fn cpu_state(&self) -> CpuState {
        self.cpu@
    }

    /// The bytes of the emulator's screen.
    pub closed spec fn screen_bytes(&self) -> Seq<u8> {
        self.screen.bytes()
    }

    /// The screen keeps its size of [SCREEN_BYTES].
    pub closed spec fn wf(&self) -> bool {
        self.screen_bytes().len() == SCREEN_BYTES
    }

    /// The instructions run per frame, the program's path and the colours.
    pub closed spec fn setup(&self) -> (usize, String, [[u8; 4]; 2]) {
        (self.ipf, self.rom, self.colors)
    }

    /// Constructs a new CPU, with the provided program loaded at 0x0200, a blank screen,
    /// lit pixels in yellow and unlit ones in brown.
    ///
    /// The program must fit in the program region.
    pub fn new(ipf: usize, rom: String, program: &[u8]) -> (r: Self)
        requires
            default_state().program_fits(program@),
        ensures
            r.wf(),
            r.cpu_state() == loaded_state(default_state().flags, program@),
            r.screen_bytes() == Seq::new(SCREEN_BYTES as nat, |i: int| 0u8),
            r.setup().0 == ipf,
            r.setup().1 == rom,
            r.setup().2[0]@ == seq![0xffu8, 0xff, 0x00, 0xff],
            r.setup().2[1]@ == seq![0x62u8, 0x37, 0x01, 0xff],
    {
        let screen = Screen::default();
        let mut cpu = CPU::default();
        let _ = cpu.load_program_bytes(program);
        let r = Self {
            cpu,
            ipf,
            rom,
            screen,
            colors: [[0xff, 0xff, 0x00, 0xff], [0x62, 0x37, 0x01, 0xff]],
        };
        assert(CpuState { flags: default_state().flags, ..default_state() } == default_state());
        r
    }

    /// Runs a single epoch: [Emulator::ipf] instructions, each followed by a vertical blank.
    /// Stops at the first instruction that fails, and returns its error.
    pub fn update(&mut self) -> (r: Result<()>)
        requires
            old(self).wf(),
            old(self).cpu_state().cycle + old(self).setup().0 <= usize::MAX,
        ensures
            final(self).wf(),
            final(self).setup() == old(self).setup(),
            exists|randoms: Seq<u8>, elapsed: Seq<u64>|
                {
                    let (st, scr, res) = #[trigger] old(self).cpu_state().run(
                        old(self).screen_bytes(),
                        old(self).setup().0 as nat,
                        randoms,
                        elapsed,
                    );
                    &&& final(self).cpu_state() == st
                    &&& final(self).screen_bytes() == scr
                    &&& r == res
                },
    {
        let ghost before = self.cpu@;
        let ghost screen_before = self.screen.bytes();
        let r = match self.cpu.multistep(&mut self.screen, self.ipf) {
            Ok(_) => Ok(()),
            Err(e) => Err(e),
        };
        proof {
            let (randoms, elapsed) = choose|randoms: Seq<u8>, elapsed: Seq<u64>|
                {
                    let (st, scr, res) = #[trigger] before.run(
                        screen_before,
                        self.ipf as nat,
                        randoms,
                        elapsed,
                    );
                    &&& randoms.len() == self.ipf
                    &&& elapsed.len() == self.ipf
                    &&& self.screen.bytes() == scr
                    &&& res is Ok ==> self.cpu@ == st && r is Ok
                    &&& res is Err ==> (r matches Err(e) && res == Err::<(), crate::error::Error>(
                        e,
                    ) && self.cpu@ == st)
                };
            lemma_run_keeps_screen_size(before, screen_before, self.ipf as nat, randoms, elapsed);
        }
        r
    }

    /// Rasterizes the screen into an RGBA frame, and gives its width and height in pixels
    pub fn draw(&self) -> (r: (u32, u32, Vec<u8>))
        requires
            self.wf(),
        ensures
            r.0 == 64 && r.1 == 32,
            r.2@ == frame_rgba(self.screen_bytes(), self.setup().2),
    {
        let screen = self.screen.as_slice();
        let mut frame: Vec<u8> = Vec::new();
        let mut idx: usize = 0;
        while idx < SCREEN_BYTES * 32
            invariant
                screen@ == self.screen_bytes(),
                screen@.len() == SCREEN_BYTES,
                idx <= SCREEN_BYTES * 32,
                frame@ == frame_rgba(self.screen_bytes(), self.setup().2).take(idx as int),
            decreases SCREEN_BYTES * 32 - idx,
        {
            let (byte, bit, component) = (idx >> 5, (idx >> 2) % 8, idx & 0b11);
            assert(byte == idx / 32 && bit == (idx / 4) % 8 && component == idx % 4) by (bit_vector)
                requires
                    byte == idx >> 5,
                    bit == (idx >> 2) % 8,
                    component == idx & 0b11,
            ;
            let pixel = if screen[byte] & (0x80u8 >> bit as u8) > 0 {
                self.colors[0][component]
            } else {
                self.colors[1][component]
            };
            frame.push(pixel);
            idx = idx + 1;
            assert(frame@ =~= frame_rgba(self.screen_bytes(), self.setup().2).take(idx as int));
        }
        assert(frame@ =~= frame_rgba(self.screen_bytes(), self.setup().2));
        (64, 32, frame)
    }

    /// Processes keyboard input: for each Chip-8 key in order, releases it if `released`
    /// says so, then presses it if `pressed` says so.
    pub fn input(&mut self, released: [bool; 16], pressed: [bool; 16]) -> (r: Result<()>)
        ensures
            r is Ok,
            final(self).cpu_state() == after_input(old(self).cpu_state(), released@, pressed@, 16),
            final(self).screen_bytes() == old(self).screen_bytes(),
            final(self).setup() == old(self).setup(),
    {
        let mut id: usize = 0;
        while id < 16
            invariant
                id <= 16,
                self.cpu@ == after_input(old(self).cpu_state(), released@, pressed@, id as nat),
                self.screen.bytes() == old(self).screen_bytes(),
                self.setup() == old(self).setup(),
            decreases 16 - id,
        {
            if released[id] {
                let _ = self.cpu.release(id);
            }
            if pressed[id] {
                let _ = self.cpu.press(id);
            }
            id = id + 1;
        }
        Ok(())
    }

    /// The quirks the CPU runs with
    pub fn quirks(&mut self) -> (r: Quirks)
        ensures
            r == old(self).cpu_state().flags.quirks,
            *final(self) == *old(self),
    {
        self.cpu.flags.quirks
    }

    /// Sets the quirks the CPU runs with
    pub fn set_quirks(&mut self, quirks: Quirks)
        ensures
            final(self).cpu_state() == (CpuState {
                flags: Flags { quirks, ..old(self).cpu_state().flags },
                ..old(self).cpu_state()
            }),
            final(self).screen_bytes() == old(self).screen_bytes(),
            final(self).setup() == old(self).setup(),
    {
        self.cpu.flags.quirks = quirks
    }

    /// The CPU registers and cycle count, as text
    pub fn print_registers(&self) -> (r: String)
        ensures
            r@ == dump_text(self.cpu_state()),
    {
        self.cpu.dump()
    }

    /// The screen, as text
    pub fn print_screen(&self) -> (r: String)
        requires
            self.wf(),
        ensures
            r@ == rows_text(self.screen_bytes(), row_width(SCREEN_BYTES as nat), SCREEN_BYTES as nat),
    {
        self.screen.print_screen()
    }

    /// What to save when the screen is dumped: the file name `{stem}_{cycle}.bin`, where
    /// `stem` is the name of the program file without its extension, and the raw screen
    /// bytes.
    pub fn dump_screen(&self, stem: &str) -> (r: (String, Vec<u8>))
        ensures
            r.0@ == stem@ + "_"@ + dec_text(self.cpu_state().cycle as nat) + ".bin"@,
            r.1@ == self.screen_bytes(),
    {
        let mut path = String::new();
        push_str(&mut path, stem);
        push_str(&mut path, "_");
        push_dec(&mut path, self.cpu.cycle() as u64);
        push_str(&mut path, ".bin");
        (path, vstd::slice::slice_to_vec(self.screen.as_slice()))
    }

    /// Sets live disassembly
    pub fn set_disasm(&mut self, enabled: bool)
        ensures
            final(self).cpu_state() == (CpuState {
                flags: Flags { debug: enabled, ..old(self).cpu_state().flags },
                ..old(self).cpu_state()
            }),
            final(self).screen_bytes() == old(self).screen_bytes(),
            final(self).setup() == old(self).setup(),
    {
        self.cpu.flags.debug = enabled;
    }

    /// Whether live disassembly is on, as a message
    pub fn is_disasm(&mut self) -> (r: String)
        ensures
            *final(self) == *old(self),
            r@ == if old(self).cpu_state().flags.debug {
                "Live Disassembly Enabled"@
            } else {
                "Live Disassembly Disabled"@
            },
    {
        if self.cpu.flags.debug {
            String::from_str("Live Disassembly Enabled")
        } else {
            String::from_str("Live Disassembly Disabled")
        }
    }

    /// Toggles emulator pause, and reports the new setting
    pub fn pause(&mut self) -> (r: String)
        ensures
            final(self).cpu_state() == (CpuState {
                flags: Flags { pause: !old(self).cpu_state().flags.pause, ..old(self).cpu_state().flags },
                ..old(self).cpu_state()
            }),
            final(self).screen_bytes() == old(self).screen_bytes(),
            final(self).setup() == old(self).setup(),
            r@ == if old(self).cpu_state().flags.pause {
                "Unpaused"@
            } else {
                "Paused"@
            },
    {
        self.cpu.flags.pause();
        if self.cpu.flags.pause {
            String::from_str("Paused")
        } else {
            String::from_str("Unpaused")
        }
    }

    /// Single-steps the emulator, pausing afterward
    pub fn singlestep(&mut self) -> (r: Result<()>)
        requires
            old(self).wf(),
            old(self).cpu_state().cycle < usize::MAX,
        ensures
            final(self).wf(),
            final(self).setup() == old(self).setup(),
            exists|random: u8|
                {
                    let (st, scr, res) = #[trigger] old(self).cpu_state().singlestep(
                        old(self).screen_bytes(),
                        random,
                    );
                    &&& final(self).cpu_state() == st
                    &&& final(self).screen_bytes() == scr
                    &&& r == res
                },
    {
        let ghost before = self.cpu@;
        let ghost screen_before = self.screen.bytes();
        let r = match self.cpu.singlestep(&mut self.screen) {
            Ok(_) => Ok(()),
            Err(e) => Err(e),
        };
        proof {
            let random = choose|random: u8|
                {
                    let (st, scr, res) = #[trigger] before.singlestep(screen_before, random);
                    &&& self.screen.bytes() == scr
                    &&& res is Ok ==> self.cpu@ == st && r is Ok
                    &&& res is Err ==> (r matches Err(e) && res == Err::<(), crate::error::Error>(
                        e,
                    ) && self.cpu@ == st)
                };
            lemma_singlestep_keeps_screen_size(before, screen_before, random);
        }
        r
    }

    /// Sets a breakpoint at the current address, and reports it
    pub fn set_break(&mut self) -> (r: String)
        ensures
            final(self).cpu_state() == old(self).cpu_state().with_break(old(self).cpu_state().pc),
            final(self).screen_bytes() == old(self).screen_bytes(),
            final(self).setup() == old(self).setup(),
            r@ == "Set breakpoint at "@ + dec_text(old(self).cpu_state().pc as nat),
    {
        let pc = self.cpu.pc();
        self.cpu.set_break(pc);
        let mut s = String::from_str("Set breakpoint at ");
        push_dec(&mut s, pc as u64);
        s
    }

    /// Unsets a breakpoint at the current address, and reports it
    pub fn unset_break(&mut self) -> (r: String)
        ensures
            final(self).cpu_state() == old(self).cpu_state().without_break(
                old(self).cpu_state().pc,
            ),
            final(self).screen_bytes() == old(self).screen_bytes(),
            final(self).setup() == old(self).setup(),
            r@ == "Unset breakpoint at "@ + dec_text(old(self).cpu_state().pc as nat),
    {
        let pc = self.cpu.pc();
        self.cpu.unset_break(pc);
        let mut s = String::from_str("Unset breakpoint at ");
        push_dec(&mut s, pc as u64);
        s
    }

    /// Soft-resets the CPU, keeping the program in memory, and clears the screen
    pub fn soft_reset(&mut self) -> (r: String)
        ensures
            final(self).cpu_state() == old(self).cpu_state().soft_reset(),
            final(self).screen_bytes() == Seq::new(old(self).screen_bytes().len(), |i: int| 0u8),
            final(self).setup() == old(self).setup(),
            r@ == "Soft Reset"@,
    {
        self.cpu.soft_reset();
        self.screen.clear();
        String::from_str("Soft Reset")
    }

    /// Creates a new CPU with the current CPU's flags, running `program` (the program file
    /// read anew), and clears the screen
    pub fn hard_reset(&mut self, program: &[u8]) -> (r: String)
        requires
            default_state().program_fits(program@),
        ensures
            final(self).cpu_state() == loaded_state(old(self).cpu_state().soft_reset().flags, program@),
            final(self).screen_bytes() == Seq::new(old(self).screen_bytes().len(), |i: int| 0u8),
            final(self).setup() == old(self).setup(),
            r@ == "Hard Reset"@,
    {
        self.cpu.soft_reset();
        self.screen.clear();
        // keep the flags
        let flags = self.cpu.flags;
        // instantiate a completely new CPU, and load the program again
        self.cpu = CPU::default();
        self.cpu.flags = flags;
        let _ = self.cpu.load_program_bytes(program);
        String::from_str("Hard Reset")
    }
}

} // verus!
