//! Reading the memory: staging a page, reading the staged page out, and the
//! bad-block lookup table.
use stm32l4xx_hal::qspi::QspiMode;
use vstd::prelude::*;

use crate::frame::{
    bbm_lut_command, bbm_lut_frame, page_address_bytes, page_address_command, page_bytes, page_frame,
    page_read_command, page_read_frame, BBM_LUT_BYTES, PAGE_DATA_READ,
};
use crate::model::{gated_transfer, gated_write, received_of, unit_result};
use crate::{FlashCommandError, MAX_BBM_LUT_ENTIRES, PAGE_SIZE_WITH_ECC_BYTES, W25N01GV};

verus! {

/// The fast-read instructions, by the bus width of their address and data phases.
#[derive(Debug, Clone, Copy, PartialEq, Eq, Structural)]
pub enum ReadMethod {
    FastRead,
    DualFastRead,
    QuadFastRead,
    FastReadDualIO,
    FastReadQuadIO,
}

impl ReadMethod {
    pub open spec fn spec_opcode(&self) -> u8 {
        match self {
            ReadMethod::FastRead => 0x0B,
            ReadMethod::DualFastRead => 0x3B,
            ReadMethod::QuadFastRead => 0x6B,
            ReadMethod::FastReadDualIO => 0xBB,
            ReadMethod::FastReadQuadIO => 0xEB,
        }
    }

    /// The output-only variants wait 8 cycles; the I/O variants, whose
    /// address phase already runs on the wider bus, wait 4.
    pub open spec fn spec_dummy_cycles(&self) -> u8 {
        match self {
            ReadMethod::FastRead => 8,
            ReadMethod::DualFastRead => 8,
            ReadMethod::QuadFastRead => 8,
            ReadMethod::FastReadDualIO => 4,
            ReadMethod::FastReadQuadIO => 4,
        }
    }

    pub open spec fn spec_address_mode(&self) -> QspiMode {
        match self {
            ReadMethod::FastRead => QspiMode::SingleChannel,
            ReadMethod::DualFastRead => QspiMode::SingleChannel,
            ReadMethod::QuadFastRead => QspiMode::SingleChannel,
            ReadMethod::FastReadDualIO => QspiMode::DualChannel,
            ReadMethod::FastReadQuadIO => QspiMode::QuadChannel,
        }
    }

    pub open spec fn spec_data_mode(&self) -> QspiMode {
        match self {
            ReadMethod::FastRead => QspiMode::SingleChannel,
            ReadMethod::DualFastRead => QspiMode::DualChannel,
            ReadMethod::QuadFastRead => QspiMode::QuadChannel,
            ReadMethod::FastReadDualIO => QspiMode::DualChannel,
            ReadMethod::FastReadQuadIO => QspiMode::QuadChannel,
        }
    }

    pub fn opcode(&self) -> (r: u8)
        ensures
            r == self.spec_opcode(),
    {
        match self {
            ReadMethod::FastRead => 0x0B,
            ReadMethod::DualFastRead => 0x3B,
            ReadMethod::QuadFastRead => 0x6B,
            ReadMethod::FastReadDualIO => 0xBB,
            ReadMethod::FastReadQuadIO => 0xEB,
        }
    }

    pub fn dummy_cycles(&self) -> (r: u8)
        ensures
            r == self.spec_dummy_cycles(),
    {
        match self {
            ReadMethod::FastRead => 8,
            ReadMethod::DualFastRead => 8,
            ReadMethod::QuadFastRead => 8,
            ReadMethod::FastReadDualIO => 4,
            ReadMethod::FastReadQuadIO => 4,
        }
    }

    pub fn address_mode(&self) -> (r: QspiMode)
        ensures
            r == self.spec_address_mode(),
    {
        match self {
            ReadMethod::FastRead => QspiMode::SingleChannel,
            ReadMethod::DualFastRead => QspiMode::SingleChannel,
            ReadMethod::QuadFastRead => QspiMode::SingleChannel,
            ReadMethod::FastReadDualIO => QspiMode::DualChannel,
            ReadMethod::FastReadQuadIO => QspiMode::QuadChannel,
        }
    }

    pub fn data_mode(&self) -> (r: QspiMode)
        ensures
            r == self.spec_data_mode(),
    {
        match self {
            ReadMethod::FastRead => QspiMode::SingleChannel,
            ReadMethod::DualFastRead => QspiMode::DualChannel,
            ReadMethod::QuadFastRead => QspiMode::QuadChannel,
            ReadMethod::FastReadDualIO => QspiMode::DualChannel,
            ReadMethod::FastReadQuadIO => QspiMode::QuadChannel,
        }
    }
}

/// A 16-bit address of the lookup table: low byte first.
pub open spec fn le_u16(low: u8, high: u8) -> u16 {
    (low + high * 256) as u16
}

/// The link in slot `i` of a raw lookup table: logical then physical block
/// address, each low byte first, absent when both are zero.
pub open spec fn spec_bbm_link(raw: Seq<u8>, i: int) -> Option<(u16, u16)> {
    let lba = le_u16(raw[4 * i], raw[4 * i + 1]);
    let pba = le_u16(raw[4 * i + 2], raw[4 * i + 3]);
    if lba == 0 && pba == 0 {
        None
    } else {
        Some((lba, pba))
    }
}

/// Decodes the raw lookup table slot by slot, in the chip's own order.
pub fn decode_bbm_lookup_table(raw: &[u8; BBM_LUT_BYTES]) -> (links: [Option<(u16, u16)>; MAX_BBM_LUT_ENTIRES])
    ensures
        forall|i: int| 0 <= i < MAX_BBM_LUT_ENTIRES ==> links[i] == spec_bbm_link(raw@, i),
{
    let mut links: [Option<(u16, u16)>; MAX_BBM_LUT_ENTIRES] = [None; MAX_BBM_LUT_ENTIRES];
    let mut i: usize = 0;
    while i < MAX_BBM_LUT_ENTIRES
        invariant
            0 <= i <= MAX_BBM_LUT_ENTIRES,
            forall|j: int| 0 <= j < i ==> links[j] == spec_bbm_link(raw@, j),
        decreases MAX_BBM_LUT_ENTIRES - i,
    {
        let k: usize = 4 * i;
        let lba: u16 = raw[k] as u16 + raw[k + 1] as u16 * 256;
        let pba: u16 = raw[k + 2] as u16 + raw[k + 3] as u16 * 256;
        links[i] = if lba != 0 || pba != 0 {
            Some((lba, pba))
        } else {
            None
        };
        i = i + 1;
    }
    links
}

/// An address read from two bytes is zero exactly when both bytes are.
proof fn lemma_le_u16_zero(low: u8, high: u8)
    ensures
        (le_u16(low, high) == 0) == (low == 0 && high == 0),
{
    assert(0 <= low + high * 256 < 65536) by (nonlinear_arith);
}

/// A raw table of zeros holds no link. A raw table whose only non-zero bytes
/// lie in slot `k` holds exactly one link, in slot `k`, with the logical and
/// physical addresses of that slot.
pub proof fn lemma_bbm_single_link(raw: Seq<u8>, k: int)
    requires
        raw.len() == BBM_LUT_BYTES,
        0 <= k < MAX_BBM_LUT_ENTIRES,
        forall|b: int| 0 <= b < BBM_LUT_BYTES && !(4 * k <= b < 4 * k + 4) ==> raw[b] == 0,
    ensures
        forall|i: int| 0 <= i < MAX_BBM_LUT_ENTIRES && i != k ==> spec_bbm_link(raw, i) is None,
        (exists|b: int| 4 * k <= b < 4 * k + 4 && raw[b] != 0) ==> spec_bbm_link(raw, k) == Some(
            (le_u16(raw[4 * k], raw[4 * k + 1]), le_u16(raw[4 * k + 2], raw[4 * k + 3])),
        ),
        (forall|b: int| 4 * k <= b < 4 * k + 4 ==> raw[b] == 0) ==> spec_bbm_link(raw, k) is None,
{
    assert forall|i: int| 0 <= i < MAX_BBM_LUT_ENTIRES && i != k implies spec_bbm_link(
        raw,
        i,
    ) is None by {
        assert(raw[4 * i] == 0 && raw[4 * i + 1] == 0 && raw[4 * i + 2] == 0 && raw[4 * i + 3] == 0);
        lemma_le_u16_zero(0, 0);
    }
    lemma_le_u16_zero(raw[4 * k], raw[4 * k + 1]);
    lemma_le_u16_zero(raw[4 * k + 2], raw[4 * k + 3]);
}

impl<CLK, NCS, IO0, IO1, IO2, IO3, MODE> W25N01GV<(CLK, NCS, IO0, IO1, IO2, IO3), MODE> {
    /// Stages a page of the memory in the chip's data buffer.
    pub fn read_memory_to_data_buffer(&mut self, page_address: u16) -> (r: Result<(), FlashCommandError>)
        ensures
            final(self).continues(*old(self)),
            gated_write(
                final(self).sent_after(*old(self)),
                page_frame(PAGE_DATA_READ, page_bytes(page_address)),
                r,
            ),
    {
        let page = page_address_bytes(page_address);
        self.send_when_idle(page_address_command(PAGE_DATA_READ, &page))
    }

    /// Reads the staged page, spare area included, into `buffer` by `method`.
    /// A refused read leaves the buffer as it was.
    pub fn read_data_buffer(
        &mut self,
        buffer: &mut [u8; PAGE_SIZE_WITH_ECC_BYTES],
        method: ReadMethod,
    ) -> (r: Result<(), FlashCommandError>)
        ensures
            final(self).continues(*old(self)),
            gated_transfer(final(self).sent_after(*old(self)), page_read_frame(method), r),
            final(self).sent_after(*old(self)).len() == 1 ==> *final(buffer) == *old(buffer),
            final(self).sent_after(*old(self)).len() == 2 ==> final(buffer)@ == received_of(
                final(self).sent_after(*old(self))[1],
            ),
    {
        self.transfer_when_idle(page_read_command(method), buffer)
    }

    /// Reads the staged page on one data line.
    pub fn single_read_data_buffer(&mut self, buffer: &mut [u8; PAGE_SIZE_WITH_ECC_BYTES]) -> (r:
        Result<(), FlashCommandError>)
        ensures
            final(self).continues(*old(self)),
            gated_transfer(
                final(self).sent_after(*old(self)),
                page_read_frame(ReadMethod::FastRead),
                r,
            ),
            final(self).sent_after(*old(self)).len() == 1 ==> *final(buffer) == *old(buffer),
            final(self).sent_after(*old(self)).len() == 2 ==> final(buffer)@ == received_of(
                final(self).sent_after(*old(self))[1],
            ),
    {
        self.read_data_buffer(buffer, ReadMethod::FastRead)
    }

    /// Reads the staged page on four data lines, the address on one.
    pub fn quad_read_data_buffer(&mut self, buffer: &mut [u8; PAGE_SIZE_WITH_ECC_BYTES]) -> (r:
        Result<(), FlashCommandError>)
        ensures
            final(self).continues(*old(self)),
            gated_transfer(
                final(self).sent_after(*old(self)),
                page_read_frame(ReadMethod::QuadFastRead),
                r,
            ),
            final(self).sent_after(*old(self)).len() == 1 ==> *final(buffer) == *old(buffer),
            final(self).sent_after(*old(self)).len() == 2 ==> final(buffer)@ == received_of(
                final(self).sent_after(*old(self))[1],
            ),
    {
        self.read_data_buffer(buffer, ReadMethod::QuadFastRead)
    }

    /// Reads the chip's bad-block lookup table: its links in slot order, an
    /// empty slot as `None`.
    pub fn read_bbm_lookup_table(&mut self) -> (r: Result<
        [Option<(u16, u16)>; MAX_BBM_LUT_ENTIRES],
        FlashCommandError,
    >)
        ensures
            final(self).continues(*old(self)),
            gated_transfer(final(self).sent_after(*old(self)), bbm_lut_frame(), unit_result(r)),
            r matches Ok(links) ==> forall|i: int|
                0 <= i < MAX_BBM_LUT_ENTIRES ==> links[i] == spec_bbm_link(
                    received_of(final(self).sent_after(*old(self))[1]),
                    i,
                ),
    {
        let mut raw = [0u8; BBM_LUT_BYTES];
        match self.transfer_when_idle(bbm_lut_command(), &mut raw) {
            Ok(()) => Ok(decode_bbm_lookup_table(&raw)),
            Err(e) => Err(e),
        }
    }
}

} // verus!
