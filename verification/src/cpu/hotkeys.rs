//! What the keys of the host keyboard do in an interactive session: the keys of the keypad
//! press and release Chip-8 keys, and the debugging hotkeys inspect and steer the CPU.
//!
//! | Key             | Command
//! |-----------------|-----------------------------------------------
//! | F1 or `,`       | print the registers
//! | F2 or `.`       | print the screen
//! | F3              | save the screen to a file
//! | F4 or `/`       | toggle live disassembly
//! | F5 or `\`       | toggle pause
//! | F6 or Enter     | run one instruction
//! | F7              | set a breakpoint at the program counter
//! | F8              | unset the breakpoint at the program counter
//! | F9 or Delete    | soft-reset the CPU and clear the screen
//! | F10 or Backspace| hard-reset the CPU (keeping its memory) and clear the screen
//! | Escape          | quit

use super::flags::Flags;
use super::state::CpuState;
use super::{default_state, dump_text, CPU};
use crate::error::Result;
use crate::keypad::{keypad_key, keypad_key_spec};
use crate::screen::{row_width, rows_text, Screen};
use crate::text::{hex_text, push_hex, push_str};
use vstd::prelude::*;

verus! {

/// A key of the host keyboard, as far as the emulator tells keys apart.
#[derive(Clone, Copy, Debug, PartialEq, Eq, Structural)]
pub enum HostKey {
    /// A function key: `F(1)` is F1
    F(u8),
    /// A key that types a character: a letter (as upper case), a digit or a punctuation mark
    Char(char),
    /// The Enter key
    Enter,
    /// The Delete key
    Delete,
    /// The Backspace key
    Backspace,
    /// The Escape key
    Escape,
    /// Any other key
    Other,
}

/// What a hotkey asks of the emulator.
#[derive(Clone, Copy, Debug, PartialEq, Eq, Structural)]
pub enum Command {
    /// Print the registers
    DumpRegisters,
    /// Print the screen
    PrintScreen,
    /// Save the screen to a file
    SaveScreen,
    /// Toggle live disassembly
    ToggleDebug,
    /// Toggle pause
    TogglePause,
    /// Run one instruction
    Step,
    /// Set a breakpoint at the program counter
    SetBreak,
    /// Unset the breakpoint at the program counter
    UnsetBreak,
    /// Soft-reset the CPU and clear the screen
    SoftReset,
    /// Replace the CPU by a fresh one that keeps the memory, and clear the screen
    HardReset,
    /// Leave the session
    Quit,
}

/// What the frontend is to do after a key was handled.
#[derive(Debug)]
pub enum Reply {
    /// Nothing
    Nothing,
    /// Print this text to standard output
    Print(String),
    /// Print this note to standard error
    Note(String),
    /// Save these screen bytes, taken at this cycle count, to a file
    SaveScreen { cycle: usize, bytes: Vec<u8> },
    /// End the session
    Quit,
}

/// The hotkey command that `key` stands for, if any.
pub open spec fn command_of(key: HostKey) -> Option<Command> {
    match key {
        HostKey::F(1) | HostKey::Char(',') => Some(Command::DumpRegisters),
        HostKey::F(2) | HostKey::Char('.') => Some(Command::PrintScreen),
        HostKey::F(3) => Some(Command::SaveScreen),
        HostKey::F(4) | HostKey::Char('/') => Some(Command::ToggleDebug),
        HostKey::F(5) | HostKey::Char('\\') => Some(Command::TogglePause),
        HostKey::F(6) | HostKey::Enter => Some(Command::Step),
        HostKey::F(7) => Some(Command::SetBreak),
        HostKey::F(8) => Some(Command::UnsetBreak),
        HostKey::F(9) | HostKey::Delete => Some(Command::SoftReset),
        HostKey::F(10) | HostKey::Backspace => Some(Command::HardReset),
        HostKey::Escape => Some(Command::Quit),
        _ => None,
    }
}

/// The Chip-8 key that host key `key` stands for, if any.
pub open spec fn keypad_of(key: HostKey) -> Option<usize> {
    match key {
        HostKey::Char(c) => keypad_key_spec(c),
        _ => None,
    }
}

/// Whether command `cmd` answers with a note for standard error.
pub open spec fn has_note(cmd: Command) -> bool {
    ||| cmd is ToggleDebug
    ||| cmd is TogglePause
    ||| cmd is Step
    ||| cmd is SetBreak
    ||| cmd is UnsetBreak
    ||| cmd is SoftReset
    ||| cmd is HardReset
}

/// The note that command `cmd` leaves, given the CPU state before it: toggles report the
/// new setting, and the breakpoint and reset commands the program counter, in hexadecimal.
pub open spec fn note_of(cmd: Command, st: CpuState) -> Seq<char> {
    match cmd {
        Command::ToggleDebug => if st.flags.debug {
            "Debug disabled."@
        } else {
            "Debug enabled."@
        },
        Command::TogglePause => if st.flags.pause {
            "Unpaused."@
        } else {
            "Paused."@
        },
        Command::Step => "Step"@,
        Command::SetBreak => "Set breakpoint "@ + hex_text(st.pc as nat, 3, false) + "."@,
        Command::UnsetBreak => "Unset breakpoint "@ + hex_text(st.pc as nat, 3, false) + "."@,
        Command::SoftReset => "Soft reset state.cpu "@ + hex_text(st.pc as nat, 3, false),
        Command::HardReset => "Hard reset state.cpu"@,
        _ => Seq::empty(),
    }
}

/// The hotkey command that `key` stands for, if any.
pub fn command_for(key: HostKey) -> (r: Option<Command>)
    ensures
        r == command_of(key),
{
    match key {
        HostKey::F(1) | HostKey::Char(',') => Some(Command::DumpRegisters),
        HostKey::F(2) | HostKey::Char('.') => Some(Command::PrintScreen),
        HostKey::F(3) => Some(Command::SaveScreen),
        HostKey::F(4) | HostKey::Char('/') => Some(Command::ToggleDebug),
        HostKey::F(5) | HostKey::Char('\\') => Some(Command::TogglePause),
        HostKey::F(6) | HostKey::Enter => Some(Command::Step),
        HostKey::F(7) => Some(Command::SetBreak),
        HostKey::F(8) => Some(Command::UnsetBreak),
        HostKey::F(9) | HostKey::Delete => Some(Command::SoftReset),
        HostKey::F(10) | HostKey::Backspace => Some(Command::HardReset),
        HostKey::Escape => Some(Command::Quit),
        _ => None,
    }
}

/// The Chip-8 key that a key of the host keyboard stands for, if any
pub fn identify_key(key: HostKey) -> (r: Option<usize>)
    ensures
        r == keypad_of(key),
        r matches Some(k) ==> k < 16,
{
    match key {
        HostKey::Char(c) => keypad_key(c),
        _ => None,
    }
}

/// The keys of `keys` that are not in `other`, in order: with the keys held at the last look
/// as `keys` and those held now as `other`, the keys let go since; swapped, the keys pressed
/// since.
pub open spec fn keys_not_in(keys: Seq<HostKey>, other: Seq<HostKey>) -> Seq<HostKey>
    decreases keys.len(),
{
    if keys.len() == 0 {
        Seq::empty()
    } else {
        let rest = keys_not_in(keys.drop_last(), other);
        if other.contains(keys.last()) {
            rest
        } else {
            rest.push(keys.last())
        }
    }
}

/// Whether `key` is among `keys`.
fn holds_key(keys: &[HostKey], key: HostKey) -> (r: bool)
    ensures
        r == keys@.contains(key),
{
    let mut k: usize = 0;
    while k < keys.len()
        invariant
            k <= keys@.len(),
            forall|j: int| 0 <= j < k ==> keys@[j] != key,
        decreases keys@.len() - k,
    {
        if keys[k] == key {
            return true;
        }
        k = k + 1;
    }
    false
}

/// The keys of `keys` that are not in `other`, in order. Called with the keys held at the
/// last look and those held now, it gives the keys let go since; with the two swapped, the
/// keys pressed since.
pub fn keys_not_held(keys: &[HostKey], other: &[HostKey]) -> (r: Vec<HostKey>)
    ensures
        r@ == keys_not_in(keys@, other@),
{
    let mut r: Vec<HostKey> = Vec::new();
    let mut k: usize = 0;
    while k < keys.len()
        invariant
            k <= keys@.len(),
            r@ == keys_not_in(keys@.take(k as int), other@),
        decreases keys@.len() - k,
    {
        let key = keys[k];
        proof {
            assert(keys@.take(k + 1).drop_last() =~= keys@.take(k as int));
        }
        if !holds_key(other, key) {
            r.push(key);
        }
        k = k + 1;
    }
    assert(keys@.take(k as int) =~= keys@);
    r
}

/// The note of a command about the program counter: `head`, the program counter in three
/// hexadecimal digits, then `tail`.
fn pc_note(head: &str, pc: u16, tail: &str) -> (r: String)
    ensures
        r@ == head@ + hex_text(pc as nat, 3, false) + tail@,
{
    let mut s = String::new();
    push_str(&mut s, head);
    push_hex(&mut s, pc as u64, 3, false);
    push_str(&mut s, tail);
    s
}

/// Handles a key of the host keyboard going down: a hotkey runs its [Command], and a key of
/// the keypad presses its Chip-8 key. Returns what the frontend is to do, and the outcome of
/// the instruction that [Command::Step] runs (`Ok` for every other key).
///
/// Printing the screen needs a screen of at least four bytes, and a step a cycle count
/// below `usize::MAX`.
pub fn key_down(cpu: &mut CPU, screen: &mut Screen, key: HostKey) -> (r: (Reply, Result<()>))
    requires
        command_of(key) == Some(Command::PrintScreen) ==> old(screen).bytes().len() >= 4,
        command_of(key) == Some(Command::Step) ==> old(cpu)@.cycle < usize::MAX,
    ensures
        command_of(key) != Some(Command::Step) ==> r.1 is Ok,
        command_of(key) != Some(Command::Step) && command_of(key) != Some(Command::SoftReset)
            && command_of(key) != Some(Command::HardReset)
            ==> final(screen).bytes() == old(screen).bytes(),
        command_of(key) is Some && has_note(command_of(key)->0) ==> (r.0 matches Reply::Note(s) && s@
            == note_of(command_of(key)->0, old(cpu)@)),
        command_of(key) == Some(Command::DumpRegisters) ==> final(cpu)@ == old(cpu)@ && (r.0 matches
            Reply::Print(s) && s@ == dump_text(old(cpu)@)),
        command_of(key) == Some(Command::PrintScreen) ==> final(cpu)@ == old(cpu)@ && (r.0 matches
            Reply::Print(s) && s@ == rows_text(
            old(screen).bytes(),
            row_width(old(screen).bytes().len()),
            old(screen).bytes().len(),
        )),
        command_of(key) == Some(Command::SaveScreen) ==> final(cpu)@ == old(cpu)@ && (r.0 matches
            Reply::SaveScreen { cycle, bytes } && cycle == old(cpu)@.cycle && bytes@ == old(
            screen,
        ).bytes()),
        command_of(key) == Some(Command::ToggleDebug) ==> final(cpu)@ == (CpuState {
            flags: Flags { debug: !old(cpu)@.flags.debug, ..old(cpu)@.flags },
            ..old(cpu)@
        }),
        command_of(key) == Some(Command::TogglePause) ==> final(cpu)@ == (CpuState {
            flags: Flags { pause: !old(cpu)@.flags.pause, ..old(cpu)@.flags },
            ..old(cpu)@
        }),
        command_of(key) == Some(Command::Step) ==> exists|random: u8|
            {
                let (st, scr, res) = #[trigger] old(cpu)@.singlestep(old(screen).bytes(), random);
                &&& final(cpu)@ == st
                &&& final(screen).bytes() == scr
                &&& r.1 == res
            },
        command_of(key) == Some(Command::SetBreak) ==> final(cpu)@ == old(cpu)@.with_break(
            old(cpu)@.pc,
        ),
        command_of(key) == Some(Command::UnsetBreak) ==> final(cpu)@ == old(cpu)@.without_break(
            old(cpu)@.pc,
        ),
        command_of(key) == Some(Command::HardReset) ==> final(cpu)@ == (CpuState {
            mem: old(cpu)@.mem,
            charset: old(cpu)@.charset,
            program: old(cpu)@.program,
            ..default_state()
        }) && final(screen).bytes() == Seq::new(old(screen).bytes().len(), |i: int| 0u8),
        command_of(key) == Some(Command::SoftReset) ==> final(cpu)@ == old(cpu)@.soft_reset()
            && final(screen).bytes() == Seq::new(old(screen).bytes().len(), |i: int| 0u8),
        command_of(key) == Some(Command::Quit) ==> final(cpu)@ == old(cpu)@ && r.0 is Quit,
        command_of(key) is None ==> r.0 is Nothing && final(cpu)@ == (match keypad_of(key) {
            Some(k) => old(cpu)@.pressed(k as int),
            None => old(cpu)@,
        }),
{
    match command_for(key) {
        Some(Command::DumpRegisters) => (Reply::Print(cpu.dump()), Ok(())),
        Some(Command::PrintScreen) => (Reply::Print(screen.print_screen()), Ok(())),
        Some(Command::SaveScreen) => {
            let bytes = vstd::slice::slice_to_vec(screen.as_slice());
            (Reply::SaveScreen { cycle: cpu.cycle(), bytes }, Ok(()))
        },
        Some(Command::ToggleDebug) => {
            cpu.flags.debug();
            let note = if cpu.flags.debug {
                String::from_str("Debug enabled.")
            } else {
                String::from_str("Debug disabled.")
            };
            (Reply::Note(note), Ok(()))
        },
        Some(Command::TogglePause) => {
            cpu.flags.pause();
            let note = if cpu.flags.pause {
                String::from_str("Paused.")
            } else {
                String::from_str("Unpaused.")
            };
            (Reply::Note(note), Ok(()))
        },
        Some(Command::Step) => {
            let note = String::from_str("Step");
            match cpu.singlestep(screen) {
                Ok(_) => (Reply::Note(note), Ok(())),
                Err(e) => (Reply::Note(note), Err(e)),
            }
        },
        Some(Command::SetBreak) => {
            let pc = cpu.pc();
            let note = pc_note("Set breakpoint ", pc, ".");
            cpu.set_break(pc);
            (Reply::Note(note), Ok(()))
        },
        Some(Command::UnsetBreak) => {
            let pc = cpu.pc();
            let note = pc_note("Unset breakpoint ", pc, ".");
            cpu.unset_break(pc);
            (Reply::Note(note), Ok(()))
        },
        Some(Command::SoftReset) => {
            let note = pc_note("Soft reset state.cpu ", cpu.pc(), "");
            proof {
                reveal_strlit("");
                assert(note@ =~= note_of(Command::SoftReset, old(cpu)@));
            }
            cpu.soft_reset();
            screen.clear();
            (Reply::Note(note), Ok(()))
        },
        Some(Command::HardReset) => {
            let note = String::from_str("Hard reset state.cpu");
            let mut fresh = CPU::default();
            std::mem::swap(&mut fresh.mem, &mut cpu.mem);
            *cpu = fresh;
            screen.clear();
            (Reply::Note(note), Ok(()))
        },
        Some(Command::Quit) => (Reply::Quit, Ok(())),
        None => {
            if let Some(k) = identify_key(key) {
                let _ = cpu.press(k);
            }
            (Reply::Nothing, Ok(()))
        },
    }
}

/// Handles a key of the host keyboard going up: a key of the keypad releases its Chip-8
/// key; other keys change nothing.
pub fn key_up(cpu: &mut CPU, key: HostKey) -> (r: Result<()>)
    ensures
        r is Ok,
        final(cpu)@ == (match keypad_of(key) {
            Some(k) => old(cpu)@.released(k as int),
            None => old(cpu)@,
        }),
{
    if let Some(k) = identify_key(key) {
        let _ = cpu.release(k);
    }
    Ok(())
}

} // verus!
