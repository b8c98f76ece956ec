//! The option-byte fixer: at start-up the user option byte is checked, and
//! reprogrammed if it is not what the firmware needs.

use vstd::prelude::*;

verus! {

/// First key of the unlock sequences.
pub const KEY1: u32 = 0x4567_0123;

/// Second key of the unlock sequences.
pub const KEY2: u32 = 0xCDEF_89AB;

/// The readout-protection byte for "protection off".
pub const OPT_RDP_VALUE: u8 = 0xAA;

/// The user option byte that the firmware needs.
pub const OPT_USER_VALUE: u8 = 0x7F;

/// One step of reprogramming the option bytes.
#[derive(Copy, Clone, PartialEq, Eq, Structural, Debug)]
pub enum FlashStep {
    /// Write both keys to the flash key register.
    UnlockFlash,
    /// Write both keys to the option key register.
    UnlockOpt,
    /// Erase all option bytes. This turns readout protection on.
    EraseOpt,
    /// Program the readout-protection byte.
    ProgramRdp(u8),
    /// Program the user byte.
    ProgramUser(u8),
    LockOpt,
    LockFlash,
    /// Reload the option bytes, which resets the system.
    ReloadOpt,
}

/// The flash controller.
pub struct Flash {}

impl Flash {
    /// The user option byte in a value of the option byte register: bits 8
    /// to 15.
    pub open spec fn spec_read_option_byte(obr: u32) -> u8 {
        ((obr & 0x0000_FF00) >> 8) as u8
    }

    pub fn read_option_byte(obr: u32) -> (r: u8)
        ensures
            r == Self::spec_read_option_byte(obr),
    {
        ((obr & 0x0000_FF00) >> 8) as u8
    }

    /// The steps that program the user byte to `value`: unlock, erase,
    /// program readout protection off and the user byte, lock, reload.
    pub open spec fn spec_set_option_byte(value: u8) -> Seq<FlashStep> {
        seq![
            FlashStep::UnlockFlash,
            FlashStep::UnlockOpt,
            FlashStep::EraseOpt,
            FlashStep::ProgramRdp(OPT_RDP_VALUE),
            FlashStep::ProgramUser(value),
            FlashStep::LockOpt,
            FlashStep::LockFlash,
            FlashStep::ReloadOpt,
        ]
    }

    pub fn set_option_byte(value: u8) -> (r: Vec<FlashStep>)
        ensures
            r@ == Self::spec_set_option_byte(value),
    {
        let r: Vec<FlashStep> = vec![
            FlashStep::UnlockFlash,
            FlashStep::UnlockOpt,
            FlashStep::EraseOpt,
            FlashStep::ProgramRdp(OPT_RDP_VALUE),
            FlashStep::ProgramUser(value),
            FlashStep::LockOpt,
            FlashStep::LockFlash,
            FlashStep::ReloadOpt,
        ];
        assert(r@ =~= Self::spec_set_option_byte(value));
        r
    }

    /// What start-up does about the option bytes, for the value read from
    /// the option byte register: nothing if the user byte is as needed, else
    /// the steps that reprogram it.
    pub fn setup(obr: u32) -> (r: Vec<FlashStep>)
        ensures
            Self::spec_read_option_byte(obr) == OPT_USER_VALUE ==> r@.len() == 0,
            Self::spec_read_option_byte(obr) != OPT_USER_VALUE ==> r@
                == Self::spec_set_option_byte(OPT_USER_VALUE),
    {
        if Self::read_option_byte(obr) != OPT_USER_VALUE {
            Self::set_option_byte(OPT_USER_VALUE)
        } else {
            Vec::new()
        }
    }
}

/// The option byte register after the user byte has been programmed to
/// `value`.
pub open spec fn obr_programmed(obr: u32, value: u8) -> u32 {
    (obr & !0x0000_FF00u32) | ((value as u32) << 8)
}

/// The fixer runs once: after the user byte has been programmed, start-up
/// finds it as needed and reprograms nothing.
pub proof fn lemma_fix_once(obr: u32)
    ensures
        Flash::spec_read_option_byte(obr_programmed(obr, OPT_USER_VALUE)) == OPT_USER_VALUE,
{
    assert((((((obr & !0x0000_FF00u32) | ((0x7Fu8 as u32) << 8)) & 0x0000_FF00) >> 8) as u8)
        == 0x7Fu8) by (bit_vector);
}

} // verus!
