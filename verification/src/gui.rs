//! The state of a frontend's menus, and what the user asked for through them.

use vstd::prelude::*;

verus! {

/// Queries the state of the menus
#[derive(Clone, Copy, Debug, PartialEq, Eq, Structural, PartialOrd, Ord, Hash)]
#[non_exhaustive]
pub enum Wants {
    /// Leave the program
    Quit,
    /// Show live disassembly
    Disasm,
    /// Soft-reset the CPU
    SoftReset,
    /// Rebuild the CPU from scratch
    HardReset,
    /// Reset the CPU
    Reset,
}

/// The File menu
#[derive(Clone, Copy, Debug, Default, PartialEq, Eq, Structural, PartialOrd, Ord, Hash)]
pub struct File {
    /// "Reset" was chosen
    pub reset: bool,
    /// "Quit" was chosen
    pub quit: bool,
}

/// The Debug menu
#[derive(Clone, Copy, Debug, Default, PartialEq, Eq, Structural, PartialOrd, Ord, Hash)]
pub struct Debug {
    /// "Reset" was chosen
    pub reset: bool,
    /// "Live Disassembly" is checked
    pub dis: bool,
}

impl Debug {
    /// Whether "Reset" was chosen
    pub fn reset(&self) -> (r: bool)
        ensures
            r == self.reset,
    {
        self.reset
    }

    /// Whether "Live Disassembly" is checked
    pub fn dis(&self) -> (r: bool)
        ensures
            r == self.dis,
    {
        self.dis
    }
}

/// The Help menu
#[derive(Clone, Copy, Debug, Default, PartialEq, Eq, Structural, PartialOrd, Ord, Hash)]
pub struct Help {
    /// "About..." was chosen
    pub about_open: bool,
}

/// The About window
#[derive(Clone, Copy, Debug, Default, PartialEq, Eq, Structural, PartialOrd, Ord, Hash)]
pub struct About {
    /// The window is open
    pub open: bool,
}

/// The menus whose state the emulator queries.
#[derive(Clone, Copy, Debug, Default, PartialEq, Eq, Structural)]
pub struct Menus {
    /// The File menu
    pub file: File,
    /// The Debug menu
    pub debug: Debug,
    /// The Help menu
    pub about: Help,
}

impl Menus {
    /// Whether the user asked for `wants` (one of quit, live disassembly and reset). Asking
    /// for a reset is answered once: the request is then cleared.
    pub fn wants(&mut self, wants: Wants) -> (r: bool)
        requires
            wants == Wants::Quit || wants == Wants::Disasm || wants == Wants::Reset,
        ensures
            wants == Wants::Quit ==> r == old(self).file.quit && *final(self) == *old(self),
            wants == Wants::Disasm ==> r == old(self).debug.dis && *final(self) == *old(self),
            wants == Wants::Reset ==> r == old(self).debug.reset && *final(self) == (Menus {
                debug: Debug { reset: false, ..old(self).debug },
                ..*old(self)
            }),
    {
        match wants {
            Wants::Quit => self.file.quit,
            Wants::Disasm => self.debug.dis,
            _ => {
                let reset = self.debug.reset;
                self.debug.reset = false;
                reset
            },
        }
    }
}

} // verus!
