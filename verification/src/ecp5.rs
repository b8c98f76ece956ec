//! The status word, device codes and commands of the ECP5 FPGA family, as
//! the host needs them to program a device through the adapter.

use vstd::prelude::*;

verus! {

/// Devices of the family.
#[allow(non_camel_case_types)]
#[derive(Copy, Clone, PartialEq, Eq, Structural, Debug)]
pub enum ECP5IDCODE {
    LFE5U_12,
    LFE5U_25,
    LFE5U_45,
    LFE5U_85,
    LFE5UM_25,
    LFE5UM_45,
    LFE5UM_85,
    LFE5UM5G_25,
    LFE5UM5G_45,
    LFE5UM5G_85,
}

impl ECP5IDCODE {
    /// The device with JTAG IDCODE `idcode`, if it is one of the family.
    pub open spec fn spec_from_idcode(idcode: u32) -> Option<ECP5IDCODE> {
        match idcode {
            0x21111043 => Some(ECP5IDCODE::LFE5U_12),
            0x41111043 => Some(ECP5IDCODE::LFE5U_25),
            0x41112043 => Some(ECP5IDCODE::LFE5U_45),
            0x41113043 => Some(ECP5IDCODE::LFE5U_85),
            0x01111043 => Some(ECP5IDCODE::LFE5UM_25),
            0x01112043 => Some(ECP5IDCODE::LFE5UM_45),
            0x01113043 => Some(ECP5IDCODE::LFE5UM_85),
            0x81111043 => Some(ECP5IDCODE::LFE5UM5G_25),
            0x81112043 => Some(ECP5IDCODE::LFE5UM5G_45),
            0x81113043 => Some(ECP5IDCODE::LFE5UM5G_85),
            _ => None,
        }
    }

    pub fn from_idcode(idcode: u32) -> (r: Option<ECP5IDCODE>)
        ensures
            r == Self::spec_from_idcode(idcode),
    {
        match idcode {
            0x21111043 => Some(ECP5IDCODE::LFE5U_12),
            0x41111043 => Some(ECP5IDCODE::LFE5U_25),
            0x41112043 => Some(ECP5IDCODE::LFE5U_45),
            0x41113043 => Some(ECP5IDCODE::LFE5U_85),
            0x01111043 => Some(ECP5IDCODE::LFE5UM_25),
            0x01112043 => Some(ECP5IDCODE::LFE5UM_45),
            0x01113043 => Some(ECP5IDCODE::LFE5UM_85),
            0x81111043 => Some(ECP5IDCODE::LFE5UM5G_25),
            0x81112043 => Some(ECP5IDCODE::LFE5UM5G_45),
            0x81113043 => Some(ECP5IDCODE::LFE5UM5G_85),
            _ => None,
        }
    }

    /// The IDCODE of a device.
    pub open spec fn spec_idcode(self) -> u32 {
        match self {
            ECP5IDCODE::LFE5U_12 => 0x21111043u32,
            ECP5IDCODE::LFE5U_25 => 0x41111043u32,
            ECP5IDCODE::LFE5U_45 => 0x41112043u32,
            ECP5IDCODE::LFE5U_85 => 0x41113043u32,
            ECP5IDCODE::LFE5UM_25 => 0x01111043u32,
            ECP5IDCODE::LFE5UM_45 => 0x01112043u32,
            ECP5IDCODE::LFE5UM_85 => 0x01113043u32,
            ECP5IDCODE::LFE5UM5G_25 => 0x81111043u32,
            ECP5IDCODE::LFE5UM5G_45 => 0x81112043u32,
            ECP5IDCODE::LFE5UM5G_85 => 0x81113043u32,
        }
    }

    pub fn idcode(self) -> (r: u32)
        ensures
            r == self.spec_idcode(),
            Self::spec_from_idcode(r) == Some(self),
    {
        match self {
            ECP5IDCODE::LFE5U_12 => 0x21111043,
            ECP5IDCODE::LFE5U_25 => 0x41111043,
            ECP5IDCODE::LFE5U_45 => 0x41112043,
            ECP5IDCODE::LFE5U_85 => 0x41113043,
            ECP5IDCODE::LFE5UM_25 => 0x01111043,
            ECP5IDCODE::LFE5UM_45 => 0x01112043,
            ECP5IDCODE::LFE5UM_85 => 0x01113043,
            ECP5IDCODE::LFE5UM5G_25 => 0x81111043,
            ECP5IDCODE::LFE5UM5G_45 => 0x81112043,
            ECP5IDCODE::LFE5UM5G_85 => 0x81113043,
        }
    }

    /// The part name of a device.
    pub fn name(&self) -> (r: &'static str)
        ensures
            r@ == (match self {
                ECP5IDCODE::LFE5U_12 => "LFE5U-12"@,
                ECP5IDCODE::LFE5U_25 => "LFE5U-25"@,
                ECP5IDCODE::LFE5U_45 => "LFE5U-45"@,
                ECP5IDCODE::LFE5U_85 => "LFE5U-85"@,
                ECP5IDCODE::LFE5UM_25 => "LFE5UM-25"@,
                ECP5IDCODE::LFE5UM_45 => "LFE5UM-45"@,
                ECP5IDCODE::LFE5UM_85 => "LFE5UM-85"@,
                ECP5IDCODE::LFE5UM5G_25 => "LFE5UM5G-25"@,
                ECP5IDCODE::LFE5UM5G_45 => "LFE5UM5G-45"@,
                ECP5IDCODE::LFE5UM5G_85 => "LFE5UM5G-85"@,
            }),
    {
        match self {
            ECP5IDCODE::LFE5U_12 => "LFE5U-12",
            ECP5IDCODE::LFE5U_25 => "LFE5U-25",
            ECP5IDCODE::LFE5U_45 => "LFE5U-45",
            ECP5IDCODE::LFE5U_85 => "LFE5U-85",
            ECP5IDCODE::LFE5UM_25 => "LFE5UM-25",
            ECP5IDCODE::LFE5UM_45 => "LFE5UM-45",
            ECP5IDCODE::LFE5UM_85 => "LFE5UM-85",
            ECP5IDCODE::LFE5UM5G_25 => "LFE5UM5G-25",
            ECP5IDCODE::LFE5UM5G_45 => "LFE5UM5G-45",
            ECP5IDCODE::LFE5UM5G_85 => "LFE5UM5G-85",
        }
    }
}

/// Instructions of the configuration logic.
#[allow(non_camel_case_types)]
#[derive(Copy, Clone, PartialEq, Eq, Structural, Debug)]
pub enum Command {
    ISC_NOOP,
    READ_ID,
    USERCODE,
    LSC_READ_STATUS,
    LSB_CHECK_BUSY,
    LSC_REFRESH,
    ISC_ENABLE,
    ISC_ENABLE_X,
    ISC_DISABLE,
    ISC_PROGRAM_USERCODE,
    ISC_ERASE,
    ISC_PROGRAM_DONE,
    ISC_PROGRAM_SECURITY,
    LSC_INIT_ADDRESS,
    LSC_WRITE_ADDRESS,
    LSC_BITSTREAM_BURST,
    LSC_PROG_INCR_RTI,
    LSC_PROG_INCR_ENC,
    LSC_PROG_INCR_CMP,
    LSC_PROG_INCR_CNE,
    LSC_VERIFY_INCR_RTI,
    LSC_PROG_CTRL0,
    LSC_READ_CTRL0,
    LSB_RESET_CRC,
    LSC_READ_CRC,
    LSC_PROG_SED_CRC,
    LSC_READ_SED_CRC,
    LSC_PROG_PASSWORD,
    LSC_READ_PASSWORD,
    LSC_SHIFT_PASSWORD,
    LSC_PROG_CIPHER_KEY,
    LSC_READ_CIPHER_KEY,
    LSC_PROG_FEATURE,
    LSC_READ_FEATURE,
    LSC_PROG_FEABITS,
    LSC_READ_FEABITS,
    LSC_PROG_OTP,
    LSC_READ_OTP,
    LSC_BACKGROUND_SPI,
}

impl Command {
    /// The instruction code.
    pub open spec fn spec_code(self) -> u8 {
        match self {
            Command::ISC_NOOP => 0xFFu8,
            Command::READ_ID => 0xE0u8,
            Command::USERCODE => 0xC0u8,
            Command::LSC_READ_STATUS => 0x3Cu8,
            Command::LSB_CHECK_BUSY => 0xF0u8,
            Command::LSC_REFRESH => 0x79u8,
            Command::ISC_ENABLE => 0xC6u8,
            Command::ISC_ENABLE_X => 0x74u8,
            Command::ISC_DISABLE => 0x26u8,
            Command::ISC_PROGRAM_USERCODE => 0xC2u8,
            Command::ISC_ERASE => 0x0Eu8,
            Command::ISC_PROGRAM_DONE => 0x5Eu8,
            Command::ISC_PROGRAM_SECURITY => 0xCEu8,
            Command::LSC_INIT_ADDRESS => 0x46u8,
            Command::LSC_WRITE_ADDRESS => 0xB4u8,
            Command::LSC_BITSTREAM_BURST => 0x7Au8,
            Command::LSC_PROG_INCR_RTI => 0x82u8,
            Command::LSC_PROG_INCR_ENC => 0xB6u8,
            Command::LSC_PROG_INCR_CMP => 0xB8u8,
            Command::LSC_PROG_INCR_CNE => 0xBAu8,
            Command::LSC_VERIFY_INCR_RTI => 0x6Au8,
            Command::LSC_PROG_CTRL0 => 0x22u8,
            Command::LSC_READ_CTRL0 => 0x20u8,
            Command::LSB_RESET_CRC => 0x3Bu8,
            Command::LSC_READ_CRC => 0x60u8,
            Command::LSC_PROG_SED_CRC => 0xA2u8,
            Command::LSC_READ_SED_CRC => 0xA4u8,
            Command::LSC_PROG_PASSWORD => 0xF1u8,
            Command::LSC_READ_PASSWORD => 0xF2u8,
            Command::LSC_SHIFT_PASSWORD => 0xBCu8,
            Command::LSC_PROG_CIPHER_KEY => 0xF3u8,
            Command::LSC_READ_CIPHER_KEY => 0xF4u8,
            Command::LSC_PROG_FEATURE => 0xE4u8,
            Command::LSC_READ_FEATURE => 0xE7u8,
            Command::LSC_PROG_FEABITS => 0xF8u8,
            Command::LSC_READ_FEABITS => 0xFBu8,
            Command::LSC_PROG_OTP => 0xF9u8,
            Command::LSC_READ_OTP => 0xFAu8,
            Command::LSC_BACKGROUND_SPI => 0x3Au8,
        }
    }

    pub fn code(self) -> (r: u8)
        ensures
            r == self.spec_code(),
    {
        match self {
            Command::ISC_NOOP => 0xFF,
            Command::READ_ID => 0xE0,
            Command::USERCODE => 0xC0,
            Command::LSC_READ_STATUS => 0x3C,
            Command::LSB_CHECK_BUSY => 0xF0,
            Command::LSC_REFRESH => 0x79,
            Command::ISC_ENABLE => 0xC6,
            Command::ISC_ENABLE_X => 0x74,
            Command::ISC_DISABLE => 0x26,
            Command::ISC_PROGRAM_USERCODE => 0xC2,
            Command::ISC_ERASE => 0x0E,
            Command::ISC_PROGRAM_DONE => 0x5E,
            Command::ISC_PROGRAM_SECURITY => 0xCE,
            Command::LSC_INIT_ADDRESS => 0x46,
            Command::LSC_WRITE_ADDRESS => 0xB4,
            Command::LSC_BITSTREAM_BURST => 0x7A,
            Command::LSC_PROG_INCR_RTI => 0x82,
            Command::LSC_PROG_INCR_ENC => 0xB6,
            Command::LSC_PROG_INCR_CMP => 0xB8,
            Command::LSC_PROG_INCR_CNE => 0xBA,
            Command::LSC_VERIFY_INCR_RTI => 0x6A,
            Command::LSC_PROG_CTRL0 => 0x22,
            Command::LSC_READ_CTRL0 => 0x20,
            Command::LSB_RESET_CRC => 0x3B,
            Command::LSC_READ_CRC => 0x60,
            Command::LSC_PROG_SED_CRC => 0xA2,
            Command::LSC_READ_SED_CRC => 0xA4,
            Command::LSC_PROG_PASSWORD => 0xF1,
            Command::LSC_READ_PASSWORD => 0xF2,
            Command::LSC_SHIFT_PASSWORD => 0xBC,
            Command::LSC_PROG_CIPHER_KEY => 0xF3,
            Command::LSC_READ_CIPHER_KEY => 0xF4,
            Command::LSC_PROG_FEATURE => 0xE4,
            Command::LSC_READ_FEATURE => 0xE7,
            Command::LSC_PROG_FEABITS => 0xF8,
            Command::LSC_READ_FEABITS => 0xFB,
            Command::LSC_PROG_OTP => 0xF9,
            Command::LSC_READ_OTP => 0xFA,
            Command::LSC_BACKGROUND_SPI => 0x3A,
        }
    }
}

/// Errors of the bitstream engine, bits 23 to 25 of the status word.
#[derive(Copy, Clone, PartialEq, Eq, Structural, Debug)]
pub enum BSEError {
    NoError,
    IDError,
    CMDError,
    CRCError,
    PRMBError,
    ABRTError,
    OVFLError,
    SDMError,
}

impl BSEError {
    /// The error for a code; only the low three bits count.
    pub open spec fn spec_from_u8(v: u8) -> BSEError {
        let c = v & 7;
        if c == 1 {
            BSEError::IDError
        } else if c == 2 {
            BSEError::CMDError
        } else if c == 3 {
            BSEError::CRCError
        } else if c == 4 {
            BSEError::PRMBError
        } else if c == 5 {
            BSEError::ABRTError
        } else if c == 6 {
            BSEError::OVFLError
        } else if c == 7 {
            BSEError::SDMError
        } else {
            BSEError::NoError
        }
    }

    pub fn from_u8(v: u8) -> (r: BSEError)
        ensures
            r == Self::spec_from_u8(v),
    {
        let c: u8 = v & 7;
        if c == 1 {
            BSEError::IDError
        } else if c == 2 {
            BSEError::CMDError
        } else if c == 3 {
            BSEError::CRCError
        } else if c == 4 {
            BSEError::PRMBError
        } else if c == 5 {
            BSEError::ABRTError
        } else if c == 6 {
            BSEError::OVFLError
        } else if c == 7 {
            BSEError::SDMError
        } else {
            BSEError::NoError
        }
    }
}

/// What the configuration logic writes to, bits 1 to 3 of the status word.
#[allow(non_camel_case_types)]
#[derive(Copy, Clone, PartialEq, Eq, Structural, Debug)]
pub enum ConfigTarget {
    SRAM,
    eFuse,
    Unknown,
}

/// The 32-bit status word of the configuration logic.
#[derive(Copy, Clone, PartialEq, Eq, Structural, Debug)]
pub struct Status(pub u32);

/// Whether bit `n` of `word` is set.
pub open spec fn flag(word: u32, n: u32) -> bool {
    ((word >> n) & 1) == 1
}

impl Status {
    pub fn new(word: u32) -> (r: Status)
        ensures
            r.0 == word,
    {
        Status(word)
    }

    pub fn config_target(&self) -> (r: ConfigTarget)
        ensures
            r == (if (self.0 >> 1) & 0b111 == 0 {
                ConfigTarget::SRAM
            } else if (self.0 >> 1) & 0b111 == 1 {
                ConfigTarget::eFuse
            } else {
                ConfigTarget::Unknown
            }),
    {
        let t: u32 = (self.0 >> 1) & 0b111;
        if t == 0 {
            ConfigTarget::SRAM
        } else if t == 1 {
            ConfigTarget::eFuse
        } else {
            ConfigTarget::Unknown
        }
    }

    pub fn bse_error(&self) -> (r: BSEError)
        ensures
            r == BSEError::spec_from_u8(((self.0 >> 23) & 0b111) as u8),
    {
        BSEError::from_u8(((self.0 >> 23) & 0b111) as u8)
    }

    /// Bit 0 of the status word.
    pub fn transparent(&self) -> (r: bool)
        ensures
            r == flag(self.0, 0),
    {
        ((self.0 >> 0u32) & 1) == 1
    }

    /// Bit 4 of the status word.
    pub fn jtag_active(&self) -> (r: bool)
        ensures
            r == flag(self.0, 4),
    {
        ((self.0 >> 4u32) & 1) == 1
    }

    /// Bit 5 of the status word.
    pub fn pwd_protection(&self) -> (r: bool)
        ensures
            r == flag(self.0, 5),
    {
        ((self.0 >> 5u32) & 1) == 1
    }

    /// Bit 7 of the status word.
    pub fn decrypt_enable(&self) -> (r: bool)
        ensures
            r == flag(self.0, 7),
    {
        ((self.0 >> 7u32) & 1) == 1
    }

    /// Bit 8 of the status word.
    pub fn done(&self) -> (r: bool)
        ensures
            r == flag(self.0, 8),
    {
        ((self.0 >> 8u32) & 1) == 1
    }

    /// Bit 9 of the status word.
    pub fn isc_enable(&self) -> (r: bool)
        ensures
            r == flag(self.0, 9),
    {
        ((self.0 >> 9u32) & 1) == 1
    }

    /// Bit 10 of the status word.
    pub fn write_enable(&self) -> (r: bool)
        ensures
            r == flag(self.0, 10),
    {
        ((self.0 >> 10u32) & 1) == 1
    }

    /// Bit 11 of the status word.
    pub fn read_enable(&self) -> (r: bool)
        ensures
            r == flag(self.0, 11),
    {
        ((self.0 >> 11u32) & 1) == 1
    }

    /// Bit 12 of the status word.
    pub fn busy(&self) -> (r: bool)
        ensures
            r == flag(self.0, 12),
    {
        ((self.0 >> 12u32) & 1) == 1
    }

    /// Bit 13 of the status word.
    pub fn fail(&self) -> (r: bool)
        ensures
            r == flag(self.0, 13),
    {
        ((self.0 >> 13u32) & 1) == 1
    }

    /// Bit 14 of the status word.
    pub fn feature_otp(&self) -> (r: bool)
        ensures
            r == flag(self.0, 14),
    {
        ((self.0 >> 14u32) & 1) == 1
    }

    /// Bit 15 of the status word.
    pub fn decrypt_only(&self) -> (r: bool)
        ensures
            r == flag(self.0, 15),
    {
        ((self.0 >> 15u32) & 1) == 1
    }

    /// Bit 16 of the status word.
    pub fn pwd_enable(&self) -> (r: bool)
        ensures
            r == flag(self.0, 16),
    {
        ((self.0 >> 16u32) & 1) == 1
    }

    /// Bit 20 of the status word.
    pub fn encrypt_preamble(&self) -> (r: bool)
        ensures
            r == flag(self.0, 20),
    {
        ((self.0 >> 20u32) & 1) == 1
    }

    /// Bit 21 of the status word.
    pub fn standard_preamble(&self) -> (r: bool)
        ensures
            r == flag(self.0, 21),
    {
        ((self.0 >> 21u32) & 1) == 1
    }

    /// Bit 22 of the status word.
    pub fn spi_m_fail_1(&self) -> (r: bool)
        ensures
            r == flag(self.0, 22),
    {
        ((self.0 >> 22u32) & 1) == 1
    }

    /// Bit 26 of the status word.
    pub fn execution_error(&self) -> (r: bool)
        ensures
            r == flag(self.0, 26),
    {
        ((self.0 >> 26u32) & 1) == 1
    }

    /// Bit 27 of the status word.
    pub fn id_error(&self) -> (r: bool)
        ensures
            r == flag(self.0, 27),
    {
        ((self.0 >> 27u32) & 1) == 1
    }

    /// Bit 28 of the status word.
    pub fn invalid_command(&self) -> (r: bool)
        ensures
            r == flag(self.0, 28),
    {
        ((self.0 >> 28u32) & 1) == 1
    }

    /// Bit 29 of the status word.
    pub fn sed_error(&self) -> (r: bool)
        ensures
            r == flag(self.0, 29),
    {
        ((self.0 >> 29u32) & 1) == 1
    }

    /// Bit 30 of the status word.
    pub fn bypass_mode(&self) -> (r: bool)
        ensures
            r == flag(self.0, 30),
    {
        ((self.0 >> 30u32) & 1) == 1
    }

    /// Bit 31 of the status word.
    pub fn flow_through_mode(&self) -> (r: bool)
        ensures
            r == flag(self.0, 31),
    {
        ((self.0 >> 31u32) & 1) == 1
    }

}

} // verus!
