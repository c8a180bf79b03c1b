use stm32l4xx_hal::qspi::QspiMode;
use w25n01gv::frame::{
    bbm_lut_command, instruction_command, jedec_id_command, load_command, page_address_bytes,
    page_address_command, page_read_command, register_read_command, register_write_command,
    ERASE_128KB_BLOCK, PAGE_DATA_READ, PROGRAM_EXECUTE,
};
use w25n01gv::status::{ProtectionRegister, PROTECTION_REGISTER_ADDRESS, STATUS_REGISTER_ADDRESS};
use w25n01gv::{ReadMethod, WriteMethod, PAGE_SIZE_WITH_ECC_BYTES};

const SINGLE: QspiMode = QspiMode::SingleChannel;

#[test]
fn page_address_is_most_significant_byte_first() {
    assert_eq!(page_address_bytes(0), [0, 0]);
    assert_eq!(page_address_bytes(0x1234), [0x12, 0x34]);
    assert_eq!(page_address_bytes(0xFFFF), [0xFF, 0xFF]);
}

#[test]
fn reset_is_its_instruction_alone() {
    let c = instruction_command(0xFF);
    assert_eq!(c.instruction, Some((0xFF, SINGLE)));
    assert_eq!(c.address, None);
    assert!(c.alternative_bytes.is_none());
    assert_eq!(c.dummy_cycles, 0);
    assert!(c.data.is_none());
    assert!(!c.double_data_rate);
}

#[test]
fn jedec_id_read_frame() {
    let c = jedec_id_command();
    assert_eq!(c.instruction, Some((0x9F, SINGLE)));
    assert_eq!(c.dummy_cycles, 8);
    assert_eq!(c.receive_length, 3);
    assert_eq!(c.data_mode, SINGLE);
}

#[test]
fn register_frames_carry_the_sub_address() {
    let sub = [STATUS_REGISTER_ADDRESS];
    let read = register_read_command(&sub);
    assert_eq!(read.instruction, Some((0x05, SINGLE)));
    assert_eq!(read.alternative_bytes, Some((&[0xC0u8][..], SINGLE)));
    assert_eq!(read.receive_length, 1);
    assert_eq!(read.dummy_cycles, 0);

    let reg = ProtectionRegister {
        srp0: false,
        bp3: true,
        bp2: true,
        bp1: true,
        bp0: true,
        tb: false,
        wpe: true,
        srp1: false,
    };
    let payload = [PROTECTION_REGISTER_ADDRESS, reg.to_u8()];
    let write = register_write_command(&payload);
    assert_eq!(write.instruction, Some((0x01, SINGLE)));
    assert_eq!(write.data, Some((&[0xA0u8, 0x7A][..], SINGLE)));
    assert_eq!(write.dummy_cycles, 0);
}

#[test]
fn bad_block_table_read_frame() {
    let c = bbm_lut_command();
    assert_eq!(c.instruction, Some((0xA5, SINGLE)));
    assert_eq!(c.dummy_cycles, 8);
    assert_eq!(c.receive_length, 80);
}

#[test]
fn read_methods_opcodes_and_dummy_cycles() {
    let table = [
        (ReadMethod::FastRead, 0x0B, 8, SINGLE, SINGLE),
        (ReadMethod::DualFastRead, 0x3B, 8, SINGLE, QspiMode::DualChannel),
        (ReadMethod::QuadFastRead, 0x6B, 8, SINGLE, QspiMode::QuadChannel),
        (ReadMethod::FastReadDualIO, 0xBB, 4, QspiMode::DualChannel, QspiMode::DualChannel),
        (ReadMethod::FastReadQuadIO, 0xEB, 4, QspiMode::QuadChannel, QspiMode::QuadChannel),
    ];
    for (method, opcode, dummy, address, data) in table {
        let c = page_read_command(method);
        assert_eq!(c.instruction, Some((opcode, SINGLE)));
        assert_eq!(c.address, Some((0, address)));
        assert_eq!(c.dummy_cycles, dummy);
        assert_eq!(c.data_mode, data);
        assert_eq!(c.receive_length as usize, PAGE_SIZE_WITH_ECC_BYTES);
    }
}

#[test]
fn write_methods_opcodes_and_widths() {
    let table = [
        (WriteMethod::SingleLoad, 0x02, SINGLE),
        (WriteMethod::RandomSingleLoad, 0x84, SINGLE),
        (WriteMethod::QuadLoad, 0x32, QspiMode::QuadChannel),
        (WriteMethod::RandomQuadLoad, 0x34, QspiMode::QuadChannel),
    ];
    let bytes = [9u8, 8, 7];
    for (method, opcode, data) in table {
        let c = load_command(&bytes, 0x0102, method);
        assert_eq!(c.instruction, Some((opcode, SINGLE)));
        assert_eq!(c.address, Some((0x0102, SINGLE)));
        assert_eq!(c.dummy_cycles, 0);
        assert_eq!(c.data, Some((&bytes[..], data)));
    }
}

#[test]
fn write_then_read_back_scenario_frames() {
    let bytes = [0u8, 1, 2, 3, 42];
    let load = load_command(&bytes, 0, WriteMethod::SingleLoad);
    assert_eq!(load.instruction, Some((0x02, SINGLE)));
    assert_eq!(load.address, Some((0, SINGLE)));
    assert_eq!(load.data, Some((&[0u8, 1, 2, 3, 42][..], SINGLE)));

    let page = page_address_bytes(0);
    let program = page_address_command(PROGRAM_EXECUTE, &page);
    assert_eq!(program.instruction, Some((0x10, SINGLE)));
    assert_eq!(program.dummy_cycles, 8);
    assert_eq!(program.data, Some((&[0u8, 0][..], SINGLE)));

    let stage = page_address_command(PAGE_DATA_READ, &page);
    assert_eq!(stage.instruction, Some((0x13, SINGLE)));
    assert_eq!(stage.data, Some((&[0u8, 0][..], SINGLE)));

    let read = page_read_command(ReadMethod::FastRead);
    assert_eq!(read.instruction, Some((0x0B, SINGLE)));
    assert_eq!(read.receive_length, 2112);
}

#[test]
fn erase_scenario_frame() {
    let page = page_address_bytes(0);
    let erase = page_address_command(ERASE_128KB_BLOCK, &page);
    assert_eq!(erase.instruction, Some((0xD8, SINGLE)));
    assert_eq!(erase.address, None);
    assert_eq!(erase.dummy_cycles, 8);
    assert_eq!(erase.data, Some((&[0u8, 0][..], SINGLE)));

    let block_of_page_130 = page_address_bytes(130);
    assert_eq!(block_of_page_130, [0x00, 0x82]);
}
