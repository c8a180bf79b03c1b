//! Changing the memory: the mode changes, loading the page buffer, programming
//! it into a page, erasing a block, and the protection and read-mode settings.
use stm32l4xx_hal::qspi::QspiMode;
use vstd::prelude::*;

use crate::frame::{
    command_frame, instruction_command, load_command, load_frame, page_address_bytes,
    page_address_command, page_bytes, page_frame, DISABLE_WRITE, ENABLE_WRITE, ERASE_128KB_BLOCK,
    PROGRAM_EXECUTE,
};
use crate::model::{gated_update, gated_write, gated_write_checked, lemma_sent_chain, sent_since};
use crate::status::{
    ConfigurationRegister, ProtectionRegister, CONFIGURATION_REGISTER_ADDRESS,
    PROTECTION_REGISTER_ADDRESS,
};
use crate::{erase_failure_answer, refuse_when, FlashCommandError, ReadMode, WriteMode, W25N01GV};

verus! {

/// The instructions that load the chip's page buffer. The plain loads first
/// set the whole buffer to the erased value; the random loads keep what the
/// buffer holds outside the bytes they carry.
#[derive(Debug, Clone, Copy, PartialEq, Eq, Structural)]
pub enum WriteMethod {
    SingleLoad,
    RandomSingleLoad,
    QuadLoad,
    RandomQuadLoad,
}

impl WriteMethod {
    pub open spec fn spec_opcode(&self) -> u8 {
        match self {
            WriteMethod::SingleLoad => 0x02,
            WriteMethod::RandomSingleLoad => 0x84,
            WriteMethod::QuadLoad => 0x32,
            WriteMethod::RandomQuadLoad => 0x34,
        }
    }

    pub open spec fn spec_dummy_cycles(&self) -> u8 {
        0
    }

    pub open spec fn spec_address_mode(&self) -> QspiMode {
        QspiMode::SingleChannel
    }

    pub open spec fn spec_data_mode(&self) -> QspiMode {
        match self {
            WriteMethod::SingleLoad => QspiMode::SingleChannel,
            WriteMethod::RandomSingleLoad => QspiMode::SingleChannel,
            WriteMethod::QuadLoad => QspiMode::QuadChannel,
            WriteMethod::RandomQuadLoad => QspiMode::QuadChannel,
        }
    }

    pub fn opcode(&self) -> (r: u8)
        ensures
            r == self.spec_opcode(),
    {
        match self {
            WriteMethod::SingleLoad => 0x02,
            WriteMethod::RandomSingleLoad => 0x84,
            WriteMethod::QuadLoad => 0x32,
            WriteMethod::RandomQuadLoad => 0x34,
        }
    }

    pub fn dummy_cycles(&self) -> (r: u8)
        ensures
            r == self.spec_dummy_cycles(),
    {
        0
    }

    pub fn address_mode(&self) -> (r: QspiMode)
        ensures
            r == self.spec_address_mode(),
    {
        QspiMode::SingleChannel
    }

    pub fn data_mode(&self) -> (r: QspiMode)
        ensures
            r == self.spec_data_mode(),
    {
        match self {
            WriteMethod::SingleLoad => QspiMode::SingleChannel,
            WriteMethod::RandomSingleLoad => QspiMode::SingleChannel,
            WriteMethod::QuadLoad => QspiMode::QuadChannel,
            WriteMethod::RandomQuadLoad => QspiMode::QuadChannel,
        }
    }
}

impl<CLK, NCS, IO0, IO1, IO2, IO3> W25N01GV<(CLK, NCS, IO0, IO1, IO2, IO3), ReadMode> {
    /// Sets the chip's write-enable latch. When that fails, the handle comes
    /// back in read mode with the error.
    pub fn into_write_mode(self) -> (r: Result<
        W25N01GV<(CLK, NCS, IO0, IO1, IO2, IO3), WriteMode>,
        (W25N01GV<(CLK, NCS, IO0, IO1, IO2, IO3), ReadMode>, FlashCommandError),
    >)
        ensures
            r matches Ok(flash) ==> flash.continues(self) && gated_write(
                flash.sent_after(self),
                command_frame(ENABLE_WRITE),
                Ok(()),
            ),
            r matches Err((flash, e)) ==> flash.continues(self) && gated_write(
                flash.sent_after(self),
                command_frame(ENABLE_WRITE),
                Err(e),
            ),
    {
        let mut flash = self;
        match flash.send_when_idle(instruction_command(ENABLE_WRITE)) {
            Ok(()) => Ok(flash.retag()),
            Err(e) => Err((flash, e)),
        }
    }
}

impl<CLK, NCS, IO0, IO1, IO2, IO3> W25N01GV<(CLK, NCS, IO0, IO1, IO2, IO3), WriteMode> {
    /// Clears the chip's write-enable latch. When that fails, the handle comes
    /// back in write mode with the error.
    pub fn into_read_mode(self) -> (r: Result<
        W25N01GV<(CLK, NCS, IO0, IO1, IO2, IO3), ReadMode>,
        (W25N01GV<(CLK, NCS, IO0, IO1, IO2, IO3), WriteMode>, FlashCommandError),
    >)
        ensures
            r matches Ok(flash) ==> flash.continues(self) && gated_write(
                flash.sent_after(self),
                command_frame(DISABLE_WRITE),
                Ok(()),
            ),
            r matches Err((flash, e)) ==> flash.continues(self) && gated_write(
                flash.sent_after(self),
                command_frame(DISABLE_WRITE),
                Err(e),
            ),
    {
        let mut flash = self;
        match flash.send_when_idle(instruction_command(DISABLE_WRITE)) {
            Ok(()) => Ok(flash.retag()),
            Err(e) => Err((flash, e)),
        }
    }

    /// Erases the 128 KB block that holds the page. The chip is still busy
    /// with the erase when this returns: wait for it before the next command.
    /// An erase failure that the status register already shows is reported
    /// as `WriteFailure`. The handle comes back in read mode, with the error
    /// on failure: the erase clears the write-enable latch, and a refused
    /// erase leaves a handle that must enable writes again, which is harmless.
    pub fn erase_128kb_block(self, page_address: u16) -> (r: Result<
        W25N01GV<(CLK, NCS, IO0, IO1, IO2, IO3), ReadMode>,
        (W25N01GV<(CLK, NCS, IO0, IO1, IO2, IO3), ReadMode>, FlashCommandError),
    >)
        ensures
            r matches Ok(flash) ==> flash.continues(self) && gated_write_checked(
                flash.sent_after(self),
                page_frame(ERASE_128KB_BLOCK, page_bytes(page_address)),
                false,
                Ok(()),
            ),
            r matches Err((flash, e)) ==> flash.continues(self) && gated_write_checked(
                flash.sent_after(self),
                page_frame(ERASE_128KB_BLOCK, page_bytes(page_address)),
                false,
                Err(e),
            ),
    {
        let mut flash = self;
        let ghost t0 = flash.trace();
        let page = page_address_bytes(page_address);
        match flash.send_when_idle(page_address_command(ERASE_128KB_BLOCK, &page)) {
            Ok(()) => {},
            Err(e) => return Err((flash.retag(), e)),
        }
        let ghost t1 = flash.trace();
        let failed = erase_failure_answer(flash.read_status_register());
        proof {
            lemma_sent_chain(t0, t1, flash.trace());
        }
        match refuse_when(failed, FlashCommandError::WriteFailure) {
            Ok(()) => Ok(flash.retag()),
            Err(e) => Err((flash.retag(), e)),
        }
    }

    /// Loads `bytes` into the chip's page buffer from byte `starting_address` on.
    pub fn load_to_data_buffer(&mut self, bytes: &[u8], starting_address: u16, write_method: WriteMethod) -> (r:
        Result<(), FlashCommandError>)
        requires
            0 < bytes@.len() <= u32::MAX,
        ensures
            final(self).continues(*old(self)),
            gated_write(
                final(self).sent_after(*old(self)),
                load_frame(bytes@, starting_address, write_method),
                r,
            ),
    {
        self.send_when_idle(load_command(bytes, starting_address, write_method))
    }

    /// Loads on one data line; with `clear`, the rest of the buffer is set to
    /// the erased value first.
    pub fn single_load_to_data_buffer(&mut self, bytes: &[u8], starting_address: u16, clear: bool) -> (r:
        Result<(), FlashCommandError>)
        requires
            0 < bytes@.len() <= u32::MAX,
        ensures
            final(self).continues(*old(self)),
            gated_write(
                final(self).sent_after(*old(self)),
                load_frame(
                    bytes@,
                    starting_address,
                    if clear {
                        WriteMethod::SingleLoad
                    } else {
                        WriteMethod::RandomSingleLoad
                    },
                ),
                r,
            ),
    {
        let method = if clear {
            WriteMethod::SingleLoad
        } else {
            WriteMethod::RandomSingleLoad
        };
        self.load_to_data_buffer(bytes, starting_address, method)
    }

    /// Loads on four data lines; with `clear`, the rest of the buffer is set
    /// to the erased value first.
    pub fn quad_load_to_data_buffer(&mut self, bytes: &[u8], starting_address: u16, clear: bool) -> (r:
        Result<(), FlashCommandError>)
        requires
            0 < bytes@.len() <= u32::MAX,
        ensures
            final(self).continues(*old(self)),
            gated_write(
                final(self).sent_after(*old(self)),
                load_frame(
                    bytes@,
                    starting_address,
                    if clear {
                        WriteMethod::QuadLoad
                    } else {
                        WriteMethod::RandomQuadLoad
                    },
                ),
                r,
            ),
    {
        let method = if clear {
            WriteMethod::QuadLoad
        } else {
            WriteMethod::RandomQuadLoad
        };
        self.load_to_data_buffer(bytes, starting_address, method)
    }

    /// Programs the page buffer into the page. A program or erase failure
    /// that the status register shows afterwards is reported as
    /// `WriteFailure`. The handle comes back in read mode, with the error on
    /// failure, as for an erase.
    pub fn write_data_buffer_to_memory(self, page_address: u16) -> (r: Result<
        W25N01GV<(CLK, NCS, IO0, IO1, IO2, IO3), ReadMode>,
        (W25N01GV<(CLK, NCS, IO0, IO1, IO2, IO3), ReadMode>, FlashCommandError),
    >)
        ensures
            r matches Ok(flash) ==> flash.continues(self) && gated_write_checked(
                flash.sent_after(self),
                page_frame(PROGRAM_EXECUTE, page_bytes(page_address)),
                true,
                Ok(()),
            ),
            r matches Err((flash, e)) ==> flash.continues(self) && gated_write_checked(
                flash.sent_after(self),
                page_frame(PROGRAM_EXECUTE, page_bytes(page_address)),
                true,
                Err(e),
            ),
    {
        let mut flash = self;
        let ghost t0 = flash.trace();
        let page = page_address_bytes(page_address);
        match flash.send_when_idle(page_address_command(PROGRAM_EXECUTE, &page)) {
            Ok(()) => {},
            Err(e) => return Err((flash.retag(), e)),
        }
        let ghost t1 = flash.trace();
        let failed = flash.check_write_or_erase_failure();
        proof {
            lemma_sent_chain(t0, t1, flash.trace());
        }
        match refuse_when(failed, FlashCommandError::WriteFailure) {
            Ok(()) => Ok(flash.retag()),
            Err(e) => Err((flash.retag(), e)),
        }
    }
}

impl<CLK, NCS, IO0, IO1, IO2, IO3, MODE> W25N01GV<(CLK, NCS, IO0, IO1, IO2, IO3), MODE> {
    /// Sets the block-protect bits and the top/bottom bit of the protection
    /// register, and keeps its other bits.
    pub fn set_write_protection(&mut self, tb: bool, bp3: bool, bp2: bool, bp1: bool, bp0: bool) -> (r:
        Result<(), FlashCommandError>)
        ensures
            final(self).continues(*old(self)),
            gated_update(
                final(self).sent_after(*old(self)),
                PROTECTION_REGISTER_ADDRESS,
                |v: u8|
                    (ProtectionRegister {
                        tb,
                        bp3,
                        bp2,
                        bp1,
                        bp0,
                        ..ProtectionRegister::spec_from_u8(v)
                    }).spec_to_u8(),
                r,
            ),
    {
        let ghost t0 = self.trace();
        match self.ensure_idle() {
            Ok(()) => {},
            Err(e) => return Err(e),
        }
        let ghost t1 = self.trace();
        match self.read_protection_register() {
            Ok(protection_register) => {
                let ghost t2 = self.trace();
                let updated = protection_register.with_block_protection(tb, bp3, bp2, bp1, bp0);
                let r = self.write_protection_register(updated);
                proof {
                    lemma_sent_chain(t0, t1, t2);
                    lemma_sent_chain(t0, t2, self.trace());
                    let events = sent_since(t0, self.trace());
                    assert(events.subrange(2, events.len() as int) =~= sent_since(t2, self.trace()));
                }
                r
            },
            Err(e) => {
                proof {
                    lemma_sent_chain(t0, t1, self.trace());
                }
                Err(e)
            },
        }
    }

    /// Chooses continuous reads (the page buffer flag clear) or buffered
    /// reads (set), and keeps the other configuration bits.
    pub fn set_continuous_read_mode(&mut self, continuous_read: bool) -> (r: Result<(), FlashCommandError>)
        ensures
            final(self).continues(*old(self)),
            gated_update(
                final(self).sent_after(*old(self)),
                CONFIGURATION_REGISTER_ADDRESS,
                |v: u8|
                    (ConfigurationRegister {
                        buf: !continuous_read,
                        ..ConfigurationRegister::spec_from_u8(v)
                    }).spec_to_u8(),
                r,
            ),
    {
        let ghost t0 = self.trace();
        match self.ensure_idle() {
            Ok(()) => {},
            Err(e) => return Err(e),
        }
        let ghost t1 = self.trace();
        match self.read_configuration_register() {
            Ok(configuration_register) => {
                let ghost t2 = self.trace();
                let updated = configuration_register.with_continuous_read(continuous_read);
                let r = self.write_configuration_register(updated);
                proof {
                    lemma_sent_chain(t0, t1, t2);
                    lemma_sent_chain(t0, t2, self.trace());
                    let events = sent_since(t0, self.trace());
                    assert(events.subrange(2, events.len() as int) =~= sent_since(t2, self.trace()));
                }
                r
            },
            Err(e) => {
                proof {
                    lemma_sent_chain(t0, t1, self.trace());
                }
                Err(e)
            },
        }
    }
}

} // verus!
