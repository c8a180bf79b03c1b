//! The chip's three registers, as fields, and their byte encodings.
use vstd::prelude::*;

use crate::frame::{register_read_command, register_write_command, register_write_frame};
use crate::model::{gated_write, is_register_read, register_value, status_value, BusEvent};
use crate::{FlashCommandError, W25N01GV};

verus! {

/// Sub-address that selects the protection register.
pub const PROTECTION_REGISTER_ADDRESS: u8 = 0xA0;

/// Sub-address that selects the configuration register.
pub const CONFIGURATION_REGISTER_ADDRESS: u8 = 0xB0;

/// Sub-address that selects the status register.
pub const STATUS_REGISTER_ADDRESS: u8 = 0xC0;

pub const SRP0_BIT: u8 = 0x80;
pub const BP3_BIT: u8 = 0x40;
pub const BP2_BIT: u8 = 0x20;
pub const BP1_BIT: u8 = 0x10;
pub const BP0_BIT: u8 = 0x08;
pub const TB_BIT: u8 = 0x04;
pub const WPE_BIT: u8 = 0x02;
pub const SRP1_BIT: u8 = 0x01;

pub const OTP_L_BIT: u8 = 0x80;
pub const OTP_E_BIT: u8 = 0x40;
pub const SR1_L_BIT: u8 = 0x20;
pub const ECC_E_BIT: u8 = 0x10;
pub const BUF_BIT: u8 = 0x08;

pub const BBM_LUT_FULL_BIT: u8 = 0x40;
pub const ECC1_STATUS_BIT: u8 = 0x20;
pub const ECC0_STATUS_BIT: u8 = 0x10;
pub const PROGRAM_FAILURE_BIT: u8 = 0x08;
pub const ERASE_FAILURE_BIT: u8 = 0x04;
pub const WRITE_ENABLE_LATCH_BIT: u8 = 0x02;
pub const BUSY_BIT: u8 = 0x01;

/// `bit` when `set` holds, else no bit.
pub open spec fn bit_if(set: bool, bit: u8) -> u8 {
    if set {
        bit
    } else {
        0
    }
}

#[derive(Debug, Clone, Copy, PartialEq, Eq, Structural)]
pub enum ECCStatus {
    /// Data output is successful with no ECC correction.
    Successful,
    /// Data output is successful but had ECC correction for one or more pages.
    CorrectedSuccessfully,
    /// Data output had more errors than was fixable by ECC in a single page.
    SinglePageError,
    /// Data output had more errors than was fixable by ECC in many pages.
    MultiPageError,
}

impl ECCStatus {
    /// The status that the two ECC bits of the status register stand for.
    pub open spec fn spec_from_bits(ecc_0: bool, ecc_1: bool) -> ECCStatus {
        match (ecc_0, ecc_1) {
            (false, false) => ECCStatus::Successful,
            (true, false) => ECCStatus::CorrectedSuccessfully,
            (false, true) => ECCStatus::SinglePageError,
            (true, true) => ECCStatus::MultiPageError,
        }
    }

    pub fn from_bits(ecc_0: bool, ecc_1: bool) -> (r: ECCStatus)
        ensures
            r == Self::spec_from_bits(ecc_0, ecc_1),
    {
        if ecc_1 {
            if ecc_0 {
                ECCStatus::MultiPageError
            } else {
                ECCStatus::SinglePageError
            }
        } else {
            if ecc_0 {
                ECCStatus::CorrectedSuccessfully
            } else {
                ECCStatus::Successful
            }
        }
    }
}

#[derive(Debug, Clone, Copy, PartialEq, Eq, Structural)]
pub struct ProtectionRegister {
    pub srp0: bool,
    pub bp3: bool,
    pub bp2: bool,
    pub bp1: bool,
    pub bp0: bool,
    pub tb: bool,
    pub wpe: bool,
    pub srp1: bool,
}

#[derive(Debug, Clone, Copy, PartialEq, Eq, Structural)]
pub struct ConfigurationRegister {
    pub otp_l: bool,
    pub otp_e: bool,
    pub sr1_l: bool,
    pub ecc_e: bool,
    pub buf: bool,
}

#[derive(Debug, Clone, Copy, PartialEq, Eq, Structural)]
pub struct StatusRegister {
    /// Is true if the Bad Block Management Look-Up-Table (BBM LUT) has been completely filled
    pub bbm_lut_full: bool,
    /// The status of ECC for the last read operation(s)
    pub ecc_status: ECCStatus,
    /// Is true if a program/write operation failed for any reason
    pub write_failure: bool,
    /// Is true if an erase operation failed for any reason
    pub erase_failure: bool,
    /// Is true if device write is enabled
    pub write_enable_latch: bool,
    /// Is true if there's an operation in progress and the client must wait for the device to finish
    pub device_busy: bool,
}

impl ProtectionRegister {
    /// The register's byte: each field is one bit of it.
    pub open spec fn spec_to_u8(&self) -> u8 {
        bit_if(self.srp0, SRP0_BIT) | bit_if(self.bp3, BP3_BIT) | bit_if(self.bp2, BP2_BIT)
            | bit_if(self.bp1, BP1_BIT) | bit_if(self.bp0, BP0_BIT) | bit_if(self.tb, TB_BIT)
            | bit_if(self.wpe, WPE_BIT) | bit_if(self.srp1, SRP1_BIT)
    }

    /// The fields that a byte of the register holds.
    pub open spec fn spec_from_u8(value: u8) -> ProtectionRegister {
        ProtectionRegister {
            srp0: value & SRP0_BIT != 0,
            bp3: value & BP3_BIT != 0,
            bp2: value & BP2_BIT != 0,
            bp1: value & BP1_BIT != 0,
            bp0: value & BP0_BIT != 0,
            tb: value & TB_BIT != 0,
            wpe: value & WPE_BIT != 0,
            srp1: value & SRP1_BIT != 0,
        }
    }

    pub fn to_u8(&self) -> (r: u8)
        ensures
            r == self.spec_to_u8(),
    {
        (if self.srp0 { SRP0_BIT } else { 0 }) | (if self.bp3 { BP3_BIT } else { 0 }) | (if self.bp2 {
            BP2_BIT
        } else {
            0
        }) | (if self.bp1 { BP1_BIT } else { 0 }) | (if self.bp0 { BP0_BIT } else { 0 }) | (
        if self.tb {
            TB_BIT
        } else {
            0
        }) | (if self.wpe { WPE_BIT } else { 0 }) | (if self.srp1 { SRP1_BIT } else { 0 })
    }

    /// The register with the block-protect bits and the top/bottom bit
    /// replaced, and its other bits kept.
    pub fn with_block_protection(self, tb: bool, bp3: bool, bp2: bool, bp1: bool, bp0: bool) -> (r:
        ProtectionRegister)
        ensures
            r == (ProtectionRegister { tb, bp3, bp2, bp1, bp0, ..self }),
    {
        ProtectionRegister { tb, bp3, bp2, bp1, bp0, ..self }
    }

    pub fn from_u8(value: u8) -> (r: ProtectionRegister)
        ensures
            r == Self::spec_from_u8(value),
    {
        ProtectionRegister {
            srp0: value & SRP0_BIT != 0,
            bp3: value & BP3_BIT != 0,
            bp2: value & BP2_BIT != 0,
            bp1: value & BP1_BIT != 0,
            bp0: value & BP0_BIT != 0,
            tb: value & TB_BIT != 0,
            wpe: value & WPE_BIT != 0,
            srp1: value & SRP1_BIT != 0,
        }
    }
}

impl ConfigurationRegister {
    /// The register's byte: each field is one bit of it, and the three low
    /// bits are clear.
    pub open spec fn spec_to_u8(&self) -> u8 {
        bit_if(self.otp_l, OTP_L_BIT) | bit_if(self.otp_e, OTP_E_BIT) | bit_if(
            self.sr1_l,
            SR1_L_BIT,
        ) | bit_if(self.ecc_e, ECC_E_BIT) | bit_if(self.buf, BUF_BIT)
    }

    /// The fields that a byte of the register holds.
    pub open spec fn spec_from_u8(value: u8) -> ConfigurationRegister {
        ConfigurationRegister {
            otp_l: value & OTP_L_BIT != 0,
            otp_e: value & OTP_E_BIT != 0,
            sr1_l: value & SR1_L_BIT != 0,
            ecc_e: value & ECC_E_BIT != 0,
            buf: value & BUF_BIT != 0,
        }
    }

    pub fn to_u8(&self) -> (r: u8)
        ensures
            r == self.spec_to_u8(),
    {
        (if self.otp_l { OTP_L_BIT } else { 0 }) | (if self.otp_e { OTP_E_BIT } else { 0 }) | (
        if self.sr1_l {
            SR1_L_BIT
        } else {
            0
        }) | (if self.ecc_e { ECC_E_BIT } else { 0 }) | (if self.buf { BUF_BIT } else { 0 })
    }

    /// The register set for continuous reads (the buffer flag clear) or
    /// buffered reads (set), with its other bits kept.
    pub fn with_continuous_read(self, continuous_read: bool) -> (r: ConfigurationRegister)
        ensures
            r == (ConfigurationRegister { buf: !continuous_read, ..self }),
    {
        ConfigurationRegister { buf: !continuous_read, ..self }
    }

    pub fn from_u8(value: u8) -> (r: ConfigurationRegister)
        ensures
            r == Self::spec_from_u8(value),
    {
        ConfigurationRegister {
            otp_l: value & OTP_L_BIT != 0,
            otp_e: value & OTP_E_BIT != 0,
            sr1_l: value & SR1_L_BIT != 0,
            ecc_e: value & ECC_E_BIT != 0,
            buf: value & BUF_BIT != 0,
        }
    }
}

impl StatusRegister {
    /// The fields that a byte of the register holds.
    pub open spec fn spec_from_u8(value: u8) -> StatusRegister {
        StatusRegister {
            bbm_lut_full: value & BBM_LUT_FULL_BIT != 0,
            ecc_status: ECCStatus::spec_from_bits(
                value & ECC0_STATUS_BIT != 0,
                value & ECC1_STATUS_BIT != 0,
            ),
            write_failure: value & PROGRAM_FAILURE_BIT != 0,
            erase_failure: value & ERASE_FAILURE_BIT != 0,
            write_enable_latch: value & WRITE_ENABLE_LATCH_BIT != 0,
            device_busy: value & BUSY_BIT != 0,
        }
    }

    pub fn from_u8(value: u8) -> (r: StatusRegister)
        ensures
            r == Self::spec_from_u8(value),
    {
        StatusRegister {
            bbm_lut_full: value & BBM_LUT_FULL_BIT != 0,
            ecc_status: ECCStatus::from_bits(
                value & ECC0_STATUS_BIT != 0,
                value & ECC1_STATUS_BIT != 0,
            ),
            write_failure: value & PROGRAM_FAILURE_BIT != 0,
            erase_failure: value & ERASE_FAILURE_BIT != 0,
            write_enable_latch: value & WRITE_ENABLE_LATCH_BIT != 0,
            device_busy: value & BUSY_BIT != 0,
        }
    }
}

/// Encoding a protection register and decoding the byte gives back the
/// register, whatever its fields.
pub proof fn lemma_protection_register_round_trip(reg: ProtectionRegister)
    ensures
        ProtectionRegister::spec_from_u8(reg.spec_to_u8()) == reg,
{
    let (a, b, c, d, e, f, g, h) = (reg.srp0, reg.bp3, reg.bp2, reg.bp1, reg.bp0, reg.tb, reg.wpe, reg.srp1);
    let v = reg.spec_to_u8();
    assert((v & 0x80 != 0 <==> a) && (v & 0x40 != 0 <==> b) && (v & 0x20 != 0 <==> c) && (v & 0x10 != 0
        <==> d) && (v & 0x08 != 0 <==> e) && (v & 0x04 != 0 <==> f) && (v & 0x02 != 0 <==> g) && (v
        & 0x01 != 0 <==> h)) by (bit_vector)
        requires
            v == bit_if(a, 0x80) | bit_if(b, 0x40) | bit_if(c, 0x20) | bit_if(d, 0x10) | bit_if(e, 0x08)
                | bit_if(f, 0x04) | bit_if(g, 0x02) | bit_if(h, 0x01),
    ;
}

/// Encoding a configuration register and decoding the byte gives back the
/// register, whatever its fields.
pub proof fn lemma_configuration_register_round_trip(reg: ConfigurationRegister)
    ensures
        ConfigurationRegister::spec_from_u8(reg.spec_to_u8()) == reg,
{
    let (a, b, c, d, e) = (reg.otp_l, reg.otp_e, reg.sr1_l, reg.ecc_e, reg.buf);
    let v = reg.spec_to_u8();
    assert((v & 0x80 != 0 <==> a) && (v & 0x40 != 0 <==> b) && (v & 0x20 != 0 <==> c) && (v & 0x10 != 0
        <==> d) && (v & 0x08 != 0 <==> e)) by (bit_vector)
        requires
            v == bit_if(a, 0x80) | bit_if(b, 0x40) | bit_if(c, 0x20) | bit_if(d, 0x10) | bit_if(e, 0x08),
    ;
}

/// A single read of the register at `sub_address`.
pub open spec fn register_query(events: Seq<BusEvent>, sub_address: u8) -> bool {
    events.len() == 1 && is_register_read(events[0], sub_address)
}

impl<CLK, NCS, IO0, IO1, IO2, IO3, MODE> W25N01GV<(CLK, NCS, IO0, IO1, IO2, IO3), MODE> {
    /// Reads one register, selected by its sub-address.
    fn read_register(&mut self, address: u8) -> (r: Result<u8, FlashCommandError>)
        ensures
            final(self).continues(*old(self)),
            register_query(final(self).sent_after(*old(self)), address),
            r == register_value(final(self).sent_after(*old(self))[0]),
    {
        let mut value = [0u8; 1];
        let sub_address = [address];
        match self.transfer_frame(register_read_command(&sub_address), &mut value) {
            Ok(()) => Ok(value[0]),
            Err(e) => Err(FlashCommandError::from_qspi_error(e)),
        }
    }

    /// Writes one byte to a register selected by its sub-address, once the chip is idle.
    fn write_register(&mut self, address: u8, value: u8) -> (r: Result<(), FlashCommandError>)
        ensures
            final(self).continues(*old(self)),
            gated_write(final(self).sent_after(*old(self)), register_write_frame(address, value), r),
    {
        let payload = [address, value];
        self.send_when_idle(register_write_command(&payload))
    }

    pub fn write_protection_register(&mut self, protection_register: ProtectionRegister) -> (r:
        Result<(), FlashCommandError>)
        ensures
            final(self).continues(*old(self)),
            gated_write(
                final(self).sent_after(*old(self)),
                register_write_frame(PROTECTION_REGISTER_ADDRESS, protection_register.spec_to_u8()),
                r,
            ),
    {
        let value = protection_register.to_u8();
        self.write_register(PROTECTION_REGISTER_ADDRESS, value)
    }

    pub fn read_protection_register(&mut self) -> (r: Result<ProtectionRegister, FlashCommandError>)
        ensures
            final(self).continues(*old(self)),
            register_query(final(self).sent_after(*old(self)), PROTECTION_REGISTER_ADDRESS),
            r == (match register_value(final(self).sent_after(*old(self))[0]) {
                Ok(b) => Ok(ProtectionRegister::spec_from_u8(b)),
                Err(e) => Err(e),
            }),
    {
        match self.read_register(PROTECTION_REGISTER_ADDRESS) {
            Ok(value) => Ok(ProtectionRegister::from_u8(value)),
            Err(e) => Err(e),
        }
    }

    pub fn write_configuration_register(
        &mut self,
        configuration_register: ConfigurationRegister,
    ) -> (r: Result<(), FlashCommandError>)
        ensures
            final(self).continues(*old(self)),
            gated_write(
                final(self).sent_after(*old(self)),
                register_write_frame(CONFIGURATION_REGISTER_ADDRESS, configuration_register.spec_to_u8()),
                r,
            ),
    {
        let value = configuration_register.to_u8();
        self.write_register(CONFIGURATION_REGISTER_ADDRESS, value)
    }

    pub fn read_configuration_register(&mut self) -> (r: Result<ConfigurationRegister, FlashCommandError>)
        ensures
            final(self).continues(*old(self)),
            register_query(final(self).sent_after(*old(self)), CONFIGURATION_REGISTER_ADDRESS),
            r == (match register_value(final(self).sent_after(*old(self))[0]) {
                Ok(b) => Ok(ConfigurationRegister::spec_from_u8(b)),
                Err(e) => Err(e),
            }),
    {
        match self.read_register(CONFIGURATION_REGISTER_ADDRESS) {
            Ok(value) => Ok(ConfigurationRegister::from_u8(value)),
            Err(e) => Err(e),
        }
    }

    pub fn read_status_register(&mut self) -> (r: Result<StatusRegister, FlashCommandError>)
        ensures
            final(self).continues(*old(self)),
            register_query(final(self).sent_after(*old(self)), STATUS_REGISTER_ADDRESS),
            r == status_value(final(self).sent_after(*old(self))[0]),
    {
        match self.read_register(STATUS_REGISTER_ADDRESS) {
            Ok(value) => Ok(StatusRegister::from_u8(value)),
            Err(e) => Err(e),
        }
    }
}

} // verus!
