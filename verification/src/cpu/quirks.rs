//! Controls the [Quirks] behavior of the CPU on a granular level.

use vstd::prelude::*;

verus! {

/// Controls the quirk behavior of the CPU on a granular level.
///
/// `false` is Cosmac-VIP-like behavior
#[derive(Clone, Copy, Debug, PartialEq, Eq, Structural, PartialOrd, Ord, Hash)]
pub struct Quirks {
    /// Super Chip: Binary ops in `8xy`(`1`, `2`, `3`) shouldn't set vF to 0
    pub bin_ops: bool,
    /// Super Chip: Shift ops in `8xy`(`6`, `E`) shouldn't source from vY instead of vX
    pub shift: bool,
    /// Super Chip: Draw operations shouldn't pause execution until the next timer tick
    pub draw_wait: bool,
    /// XO-Chip:    Draw operations should wrap from bottom to top and side to side
    pub screen_wrap: bool,
    /// Super Chip: DMA instructions `Fx55`/`Fx65` shouldn't change I to I + x + 1
    pub dma_inc: bool,
    /// Super Chip: Indexed jump instructions should go to `adr` + v`a` where `a` is high nibble of `adr`.
    pub stupid_jumps: bool,
}

/// The quirk set that `true` (the Super Chip quirks, but not its indexed jumps) or `false`
/// (none) selects.
pub open spec fn quirks_of(value: bool) -> Quirks {
    Quirks {
        bin_ops: value,
        shift: value,
        draw_wait: value,
        screen_wrap: false,
        dma_inc: value,
        stupid_jumps: false,
    }
}

impl From<bool> for Quirks {
    fn from(value: bool) -> (r: Self)
        ensures
            r == quirks_of(value),
    {
        if value {
            Quirks {
                bin_ops: true,
                shift: true,
                draw_wait: true,
                screen_wrap: false,
                dma_inc: true,
                stupid_jumps: false,
            }
        } else {
            Quirks {
                bin_ops: false,
                shift: false,
                draw_wait: false,
                screen_wrap: false,
                dma_inc: false,
                stupid_jumps: false,
            }
        }
    }
}

impl vstd::std_specs::convert::FromSpecImpl<bool> for Quirks {
    open spec fn obeys_from_spec() -> bool {
        true
    }

    open spec fn from_spec(v: bool) -> Self {
        quirks_of(v)
    }
}

impl Default for Quirks {
    /// No quirks: Cosmac-VIP-like behavior.
    fn default() -> (r: Self)
        ensures
            r == quirks_of(false),
    {
        Self::from(false)
    }
}

} // verus!
