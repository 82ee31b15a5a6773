//! Represents flags that aid in implementation but aren't a part of the Chip-8 spec

use super::{mode::Mode, quirks::{quirks_of, Quirks}};
use vstd::prelude::*;

verus! {

/// Represents flags that aid in operation, but aren't inherent to the CPU
#[derive(Clone, Copy, Debug, PartialEq, Eq, Structural, PartialOrd, Ord, Hash)]
pub struct Flags {
    /// Set when debug (live disassembly) mode enabled
    pub debug: bool,
    /// Set when the emulator is paused by the user and should not update
    pub pause: bool,
    /// Set when the emulator is waiting for a keypress
    pub keypause: bool,
    /// Set when the emulator is waiting for a frame to be drawn
    pub draw_wait: bool,
    /// Set when the emulator is in high-res mode
    pub draw_mode: bool,
    /// Set to the last key that's been *released* after a keypause
    pub lastkey: Option<usize>,
    /// Represents the current emulator [Mode]
    pub mode: Mode,
    /// Represents the set of emulator [Quirks] to enable, independent of the [Mode]
    pub quirks: Quirks,
    /// Represents the number of instructions to run per tick of the internal timer
    pub monotonic: Option<usize>,
}

impl Flags {
    /// Whether execution is held: by the user, by a wait for a key, or by a wait for the
    /// next frame.
    pub open spec fn spec_is_paused(&self) -> bool {
        self.pause || self.keypause || self.draw_wait
    }

    /// Toggles debug mode
    pub fn debug(&mut self)
        ensures
            *final(self) == (Flags { debug: !old(self).debug, ..*old(self) }),
    {
        self.debug = !self.debug
    }

    /// Toggles pause
    pub fn pause(&mut self)
        ensures
            *final(self) == (Flags { pause: !old(self).pause, ..*old(self) }),
    {
        self.pause = !self.pause
    }

    /// Whether execution is held: by the user, by a wait for a key, or by a wait for the
    /// next frame.
    pub fn is_paused(&self) -> (r: bool)
        ensures
            r == self.spec_is_paused(),
    {
        self.pause || self.keypause || self.draw_wait
    }
}

/// The flags that [Flags::default] gives: everything off, [Mode::Chip8], no quirks, and
/// real-time timers.
pub open spec fn default_flags() -> Flags {
    Flags {
        debug: false,
        pause: false,
        keypause: false,
        draw_wait: false,
        draw_mode: false,
        lastkey: None,
        mode: Mode::Chip8,
        quirks: quirks_of(false),
        monotonic: None,
    }
}

impl Default for Flags {
    fn default() -> (r: Self)
        ensures
            r == default_flags(),
    {
        Flags {
            debug: false,
            pause: false,
            keypause: false,
            draw_wait: false,
            draw_mode: false,
            lastkey: None,
            mode: Mode::Chip8,
            quirks: Quirks::from(false),
            monotonic: None,
        }
    }
}

/// Toggling debug mode or pause twice gives the flags back.
pub proof fn lemma_toggle_twice(flags: Flags)
    ensures
        (Flags { debug: !(Flags { debug: !flags.debug, ..flags }).debug, ..flags }) == flags,
        (Flags { pause: !(Flags { pause: !flags.pause, ..flags }).pause, ..flags }) == flags,
{
}

} // verus!
