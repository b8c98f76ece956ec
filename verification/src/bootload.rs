//! The latch that sends the next boot into the ROM bootloader.
//!
//! The latch is one word that survives a reset. Before anything else runs,
//! the boot code shows it to `check`, stores what `check` hands back, and
//! jumps to the ROM if told so.

use vstd::prelude::*;

verus! {

/// The latch value that asks for the bootloader.
pub const FLAG_VALUE: u32 = 0xB00110AD;

/// Where a boot goes.
#[derive(Copy, Clone, PartialEq, Eq, Structural, Debug)]
pub enum Boot {
    /// On into the firmware.
    Normal,
    /// System memory is mapped at address 0 and the ROM bootloader runs.
    Rom,
}

/// Where the boot goes for a latch value, and what the latch holds after it:
/// a latch that holds the flag is cleared and sends the boot to the ROM; any
/// other value, a corrupted flag too, is left alone and boots normally.
pub open spec fn spec_check(latch: u32) -> (u32, Boot) {
    if latch == FLAG_VALUE {
        (0u32, Boot::Rom)
    } else {
        (latch, Boot::Normal)
    }
}

/// Decides where the boot goes, and what to store in the latch.
pub fn check(latch: u32) -> (r: (u32, Boot))
    ensures
        r == spec_check(latch),
{
    if latch != FLAG_VALUE {
        return (latch, Boot::Normal);
    }
    (0, Boot::Rom)
}

/// The value to store in the latch before the system reset that enters the
/// bootloader.
pub fn bootload() -> (latch: u32)
    ensures
        latch == FLAG_VALUE,
        spec_check(latch).1 == Boot::Rom,
{
    FLAG_VALUE
}

/// A boot goes to the ROM exactly when the latch holds the flag, and the
/// latch never holds the flag after a boot: a bootload request takes one boot
/// into the ROM, and the boot after it is a normal one.
pub proof fn lemma_bootload_once(latch: u32)
    ensures
        spec_check(latch).1 == Boot::Rom <==> latch == FLAG_VALUE,
        spec_check(latch).0 != FLAG_VALUE,
        spec_check(spec_check(latch).0).1 == Boot::Normal,
        latch != FLAG_VALUE ==> spec_check(latch).0 == latch,
{
}

} // verus!
