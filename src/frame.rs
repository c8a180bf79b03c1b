//! The command descriptors that the driver hands to the QUADSPI peripheral:
//! instruction, address, alternate bytes, dummy cycles and data, each phase
//! with its bus width.
//!
//! Page addresses travel as two data bytes, most significant byte first, for
//! block erase, program execute and page data read alike. A column address
//! (the byte offset within the page buffer) travels in the peripheral's
//! address phase, which sends it most significant byte first as well.
use stm32l4xx_hal::qspi::{QspiMode, QspiReadCommand, QspiWriteCommand};
use vstd::prelude::*;

use crate::model::{read_frame_of, write_frame_of, Frame};
use crate::read::ReadMethod;
use crate::write::WriteMethod;
use crate::{MAX_BBM_LUT_ENTIRES, PAGE_SIZE_WITH_ECC_BYTES};

verus! {

pub const DEVICE_RESET: u8 = 0xFF;
pub const JEDEC_ID: u8 = 0x9F;
pub const READ_STATUS_REGISTER: u8 = 0x05;
pub const WRITE_STATUS_REGISTER: u8 = 0x01;
pub const ENABLE_WRITE: u8 = 0x06;
pub const DISABLE_WRITE: u8 = 0x04;
pub const ERASE_128KB_BLOCK: u8 = 0xD8;
pub const READ_BBM: u8 = 0xA5;
pub const PROGRAM_EXECUTE: u8 = 0x10;
pub const PAGE_DATA_READ: u8 = 0x13;

/// Dummy cycles before the answer to a JEDEC ID read or a table read, and
/// before the page address of the commands that take one.
pub const LONG_DUMMY_CYCLES: u8 = 8;

/// Bytes of the JEDEC ID.
pub const JEDEC_ID_BYTES: usize = 3;

/// Bytes of the bad-block lookup table: two addresses of two bytes per link.
pub const BBM_LUT_BYTES: usize = MAX_BBM_LUT_ENTIRES * 4;

/// The two bytes of a page address, most significant first.
pub open spec fn page_bytes(page_address: u16) -> Seq<u8> {
    seq![(page_address / 256) as u8, (page_address % 256) as u8]
}

/// An instruction byte alone.
pub open spec fn command_frame(opcode: u8) -> Frame {
    Frame {
        instruction: Some((opcode, QspiMode::SingleChannel)),
        address: None,
        alternative_bytes: None,
        dummy_cycles: 0,
        data: None,
        receive: None,
        double_data_rate: false,
    }
}

/// A command on a page: the instruction, the dummy cycles, then the page
/// address bytes as data.
pub open spec fn page_frame(opcode: u8, page: Seq<u8>) -> Frame {
    Frame {
        instruction: Some((opcode, QspiMode::SingleChannel)),
        address: None,
        alternative_bytes: None,
        dummy_cycles: LONG_DUMMY_CYCLES,
        data: Some((page, QspiMode::SingleChannel)),
        receive: None,
        double_data_rate: false,
    }
}

/// A register write: the sub-address and the value as data.
pub open spec fn register_write_frame(sub_address: u8, value: u8) -> Frame {
    Frame {
        instruction: Some((WRITE_STATUS_REGISTER, QspiMode::SingleChannel)),
        address: None,
        alternative_bytes: None,
        dummy_cycles: 0,
        data: Some((seq![sub_address, value], QspiMode::SingleChannel)),
        receive: None,
        double_data_rate: false,
    }
}

/// A register read: the sub-address as an alternate byte, one byte back.
pub open spec fn register_read_frame(sub_address: u8) -> Frame {
    Frame {
        instruction: Some((READ_STATUS_REGISTER, QspiMode::SingleChannel)),
        address: None,
        alternative_bytes: Some((seq![sub_address], QspiMode::SingleChannel)),
        dummy_cycles: 0,
        data: None,
        receive: Some((1, QspiMode::SingleChannel)),
        double_data_rate: false,
    }
}

pub open spec fn jedec_id_frame() -> Frame {
    Frame {
        instruction: Some((JEDEC_ID, QspiMode::SingleChannel)),
        address: None,
        alternative_bytes: None,
        dummy_cycles: LONG_DUMMY_CYCLES,
        data: None,
        receive: Some((JEDEC_ID_BYTES as u32, QspiMode::SingleChannel)),
        double_data_rate: false,
    }
}

pub open spec fn bbm_lut_frame() -> Frame {
    Frame {
        instruction: Some((READ_BBM, QspiMode::SingleChannel)),
        address: None,
        alternative_bytes: None,
        dummy_cycles: LONG_DUMMY_CYCLES,
        data: None,
        receive: Some((BBM_LUT_BYTES as u32, QspiMode::SingleChannel)),
        double_data_rate: false,
    }
}

/// A load of `bytes` into the page buffer from `column` on, by `method`.
pub open spec fn load_frame(bytes: Seq<u8>, column: u16, method: WriteMethod) -> Frame {
    Frame {
        instruction: Some((method.spec_opcode(), QspiMode::SingleChannel)),
        address: Some((column as u32, method.spec_address_mode())),
        alternative_bytes: None,
        dummy_cycles: method.spec_dummy_cycles(),
        data: Some((bytes, method.spec_data_mode())),
        receive: None,
        double_data_rate: false,
    }
}

/// A read of the whole staged page, spare area included, from column 0.
pub open spec fn page_read_frame(method: ReadMethod) -> Frame {
    Frame {
        instruction: Some((method.spec_opcode(), QspiMode::SingleChannel)),
        address: Some((0, method.spec_address_mode())),
        alternative_bytes: None,
        dummy_cycles: method.spec_dummy_cycles(),
        data: None,
        receive: Some((PAGE_SIZE_WITH_ECC_BYTES as u32, method.spec_data_mode())),
        double_data_rate: false,
    }
}

pub fn page_address_bytes(page_address: u16) -> (r: [u8; 2])
    ensures
        r@ == page_bytes(page_address),
{
    let r = [(page_address / 256) as u8, (page_address % 256) as u8];
    assert(r@ =~= page_bytes(page_address));
    r
}

pub fn instruction_command<'a>(opcode: u8) -> (c: QspiWriteCommand<'a>)
    ensures
        write_frame_of(c) == command_frame(opcode),
{
    QspiWriteCommand {
        instruction: Some((opcode, QspiMode::SingleChannel)),
        address: None,
        alternative_bytes: None,
        dummy_cycles: 0,
        data: None,
        double_data_rate: false,
    }
}

pub fn page_address_command<'a>(opcode: u8, page_address: &'a [u8; 2]) -> (c: QspiWriteCommand<'a>)
    ensures
        write_frame_of(c) == page_frame(opcode, page_address@),
{
    QspiWriteCommand {
        instruction: Some((opcode, QspiMode::SingleChannel)),
        address: None,
        alternative_bytes: None,
        dummy_cycles: LONG_DUMMY_CYCLES,
        data: Some((page_address.as_slice(), QspiMode::SingleChannel)),
        double_data_rate: false,
    }
}

/// A register write of `payload`: the sub-address, then the value.
pub fn register_write_command<'a>(payload: &'a [u8; 2]) -> (c: QspiWriteCommand<'a>)
    ensures
        write_frame_of(c) == register_write_frame(payload[0], payload[1]),
{
    assert(payload@ =~= seq![payload[0], payload[1]]);
    QspiWriteCommand {
        instruction: Some((WRITE_STATUS_REGISTER, QspiMode::SingleChannel)),
        address: None,
        alternative_bytes: None,
        dummy_cycles: 0,
        data: Some((payload.as_slice(), QspiMode::SingleChannel)),
        double_data_rate: false,
    }
}

pub fn register_read_command<'a>(sub_address: &'a [u8; 1]) -> (c: QspiReadCommand<'a>)
    ensures
        read_frame_of(c) == register_read_frame(sub_address[0]),
{
    assert(sub_address@ =~= seq![sub_address[0]]);
    QspiReadCommand {
        instruction: Some((READ_STATUS_REGISTER, QspiMode::SingleChannel)),
        address: None,
        alternative_bytes: Some((sub_address.as_slice(), QspiMode::SingleChannel)),
        dummy_cycles: 0,
        data_mode: QspiMode::SingleChannel,
        receive_length: 1,
        double_data_rate: false,
    }
}

pub fn jedec_id_command<'a>() -> (c: QspiReadCommand<'a>)
    ensures
        read_frame_of(c) == jedec_id_frame(),
{
    QspiReadCommand {
        instruction: Some((JEDEC_ID, QspiMode::SingleChannel)),
        address: None,
        alternative_bytes: None,
        dummy_cycles: LONG_DUMMY_CYCLES,
        data_mode: QspiMode::SingleChannel,
        receive_length: JEDEC_ID_BYTES as u32,
        double_data_rate: false,
    }
}

pub fn bbm_lut_command<'a>() -> (c: QspiReadCommand<'a>)
    ensures
        read_frame_of(c) == bbm_lut_frame(),
{
    QspiReadCommand {
        instruction: Some((READ_BBM, QspiMode::SingleChannel)),
        address: None,
        alternative_bytes: None,
        dummy_cycles: LONG_DUMMY_CYCLES,
        data_mode: QspiMode::SingleChannel,
        receive_length: BBM_LUT_BYTES as u32,
        double_data_rate: false,
    }
}

pub fn load_command<'a>(bytes: &'a [u8], column: u16, method: WriteMethod) -> (c: QspiWriteCommand<'a>)
    ensures
        write_frame_of(c) == load_frame(bytes@, column, method),
{
    QspiWriteCommand {
        instruction: Some((method.opcode(), QspiMode::SingleChannel)),
        address: Some((column as u32, method.address_mode())),
        alternative_bytes: None,
        dummy_cycles: method.dummy_cycles(),
        data: Some((bytes, method.data_mode())),
        double_data_rate: false,
    }
}

pub fn page_read_command<'a>(method: ReadMethod) -> (c: QspiReadCommand<'a>)
    ensures
        read_frame_of(c) == page_read_frame(method),
{
    QspiReadCommand {
        instruction: Some((method.opcode(), QspiMode::SingleChannel)),
        address: Some((0, method.address_mode())),
        alternative_bytes: None,
        dummy_cycles: method.dummy_cycles(),
        data_mode: method.data_mode(),
        receive_length: PAGE_SIZE_WITH_ECC_BYTES as u32,
        double_data_rate: false,
    }
}

} // verus!
