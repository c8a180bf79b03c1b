//! Driver for the Winbond W25N01GV serial NAND flash, attached to the QUADSPI
//! peripheral of an STM32L4.
//!
//! The handle carries its mode in its type: a handle in [`ReadMode`] offers the
//! operations that leave the memory as it is, and a handle in [`WriteMode`]
//! adds those that program or erase it. Every command but the device reset and
//! the JEDEC ID read first asks the chip whether it is busy, and is refused
//! with [`FlashCommandError::DeviceBusy`] without touching the bus when it is:
//! the chip would silently ignore it.
//!
//! Each handle keeps a ghost log of the commands it has handed to the bus and
//! the answers it got back; the contracts of the device operations state the
//! events each one adds and how its result follows from them.
use core::marker::PhantomData;
use stm32l4xx_hal::qspi::{Qspi, QspiError, QspiReadCommand, QspiWriteCommand};
use vstd::prelude::*;

pub mod bus;
pub mod frame;
pub mod model;
pub mod read;
pub mod status;
pub mod write;

pub use read::ReadMethod;
pub use write::WriteMethod;

use bus::{alternate_bytes_framable, bus_transfer, bus_write};
use frame::{command_frame, instruction_command, jedec_id_command, jedec_id_frame, DEVICE_RESET};
use model::{
    extends, frame_of, gated_transfer, gated_write, is_register_read, lemma_sent_chain, lemma_sent_push, outcome_of,
    read_frame_of, received_of, sent_since, status_gate, status_value, unit_result, write_frame_of,
    BusEvent,
};
use status::{StatusRegister, STATUS_REGISTER_ADDRESS};

verus! {

/// Data bytes in a page.
pub const PAGE_SIZE_BYTES: usize = 2048;

/// Bytes in a page with its spare area, where the ECC bytes live.
pub const PAGE_SIZE_WITH_ECC_BYTES: usize = 2112;

/// Links that the bad-block lookup table can hold.
pub const MAX_BBM_LUT_ENTIRES: usize = 20;

/// Pages in one erasable block of 128 KB.
pub const PAGES_PER_BLOCK: usize = 64;

#[derive(Debug, Clone, Copy, PartialEq, Eq, Structural)]
pub enum FlashCommandError {
    /// The QUADSPI peripheral was busy.
    QSPIBusy,
    /// The QUADSPI peripheral reported an address error.
    QSPIAddress,
    /// The QUADSPI peripheral reported another transfer error.
    QSPIUnknown,
    /// The chip was busy, and the command was not sent.
    DeviceBusy,
    /// The chip reported that an erase or a program operation failed.
    WriteFailure,
}

impl FlashCommandError {
    /// The error that a failure of the peripheral becomes, one for one.
    pub open spec fn spec_from_qspi_error(err: QspiError) -> FlashCommandError {
        match err {
            QspiError::Busy => FlashCommandError::QSPIBusy,
            QspiError::Address => FlashCommandError::QSPIAddress,
            QspiError::Unknown => FlashCommandError::QSPIUnknown,
        }
    }

    /// An error of the bus transfer itself.
    pub open spec fn is_transport(self) -> bool {
        ||| self == FlashCommandError::QSPIBusy
        ||| self == FlashCommandError::QSPIAddress
        ||| self == FlashCommandError::QSPIUnknown
    }

    pub fn from_qspi_error(err: QspiError) -> (r: FlashCommandError)
        ensures
            r == Self::spec_from_qspi_error(err),
    {
        match err {
            QspiError::Busy => FlashCommandError::QSPIBusy,
            QspiError::Address => FlashCommandError::QSPIAddress,
            QspiError::Unknown => FlashCommandError::QSPIUnknown,
        }
    }
}

/// The outcome of a bus transfer, with a failure of the peripheral mapped.
pub open spec fn spec_transport_result(r: Result<(), QspiError>) -> Result<(), FlashCommandError> {
    match r {
        Ok(()) => Ok(()),
        Err(e) => Err(FlashCommandError::spec_from_qspi_error(e)),
    }
}

pub fn transport_result(r: Result<(), QspiError>) -> (out: Result<(), FlashCommandError>)
    ensures
        out == spec_transport_result(r),
{
    match r {
        Ok(()) => Ok(()),
        Err(e) => Err(FlashCommandError::from_qspi_error(e)),
    }
}

/// A flag read from the chip, turned into a refusal: `error` when the flag is
/// set, success when it is clear, and the failure to read it as it came.
pub open spec fn spec_refuse_when(
    flag: Result<bool, FlashCommandError>,
    error: FlashCommandError,
) -> Result<(), FlashCommandError> {
    match flag {
        Ok(true) => Err(error),
        Ok(false) => Ok(()),
        Err(e) => Err(e),
    }
}

pub fn refuse_when(flag: Result<bool, FlashCommandError>, error: FlashCommandError) -> (r: Result<
    (),
    FlashCommandError,
>)
    ensures
        r == spec_refuse_when(flag, error),
{
    match flag {
        Ok(true) => Err(error),
        Ok(false) => Ok(()),
        Err(e) => Err(e),
    }
}

/// Whether the chip is busy, by a status query's answer.
pub open spec fn spec_busy_answer(status: Result<StatusRegister, FlashCommandError>) -> Result<
    bool,
    FlashCommandError,
> {
    match status {
        Ok(s) => Ok(s.device_busy),
        Err(e) => Err(e),
    }
}

/// Whether the last erase or program operation failed, by a status query's answer.
pub open spec fn spec_failure_answer(status: Result<StatusRegister, FlashCommandError>) -> Result<
    bool,
    FlashCommandError,
> {
    match status {
        Ok(s) => Ok(s.erase_failure || s.write_failure),
        Err(e) => Err(e),
    }
}

/// Whether the last erase failed, by a status query's answer.
pub open spec fn spec_erase_failure_answer(status: Result<StatusRegister, FlashCommandError>) -> Result<
    bool,
    FlashCommandError,
> {
    match status {
        Ok(s) => Ok(s.erase_failure),
        Err(e) => Err(e),
    }
}

pub fn busy_answer(status: Result<StatusRegister, FlashCommandError>) -> (r: Result<bool, FlashCommandError>)
    ensures
        r == spec_busy_answer(status),
{
    match status {
        Ok(s) => Ok(s.device_busy),
        Err(e) => Err(e),
    }
}

pub fn failure_answer(status: Result<StatusRegister, FlashCommandError>) -> (r: Result<
    bool,
    FlashCommandError,
>)
    ensures
        r == spec_failure_answer(status),
{
    match status {
        Ok(s) => Ok(s.erase_failure || s.write_failure),
        Err(e) => Err(e),
    }
}

pub fn erase_failure_answer(status: Result<StatusRegister, FlashCommandError>) -> (r: Result<
    bool,
    FlashCommandError,
>)
    ensures
        r == spec_erase_failure_answer(status),
{
    match status {
        Ok(s) => Ok(s.erase_failure),
        Err(e) => Err(e),
    }
}

/// Whether a wait for the chip goes on after a status query: only while the
/// query succeeds and reports the chip busy. A failed query ends the wait, so
/// a caller who must tell the two apart asks [`W25N01GV::check_busy`] itself.
pub fn keep_waiting(busy: Result<bool, FlashCommandError>) -> (r: bool)
    ensures
        r == (busy == Ok::<bool, FlashCommandError>(true)),
{
    match busy {
        Ok(b) => b,
        Err(_) => false,
    }
}

/// Mode of a handle that may only read the memory.
pub struct ReadMode;

/// Mode of a handle whose chip has its write-enable latch set.
pub struct WriteMode;

/// The chip, reached through the QUADSPI peripheral that the handle owns,
/// with the log of what the handle has sent on the bus.
#[verifier::reject_recursive_types(PINS)]
#[verifier::reject_recursive_types(MODE)]
pub struct W25N01GV<PINS, MODE> {
    _marker: PhantomData<MODE>,
    qspi: Qspi<PINS>,
    log: Ghost<Seq<BusEvent>>,
}

pub fn new_w25_n01_gv<CLK, NCS, IO0, IO1, IO2, IO3>(
    qspi: Qspi<(CLK, NCS, IO0, IO1, IO2, IO3)>,
) -> (flash: W25N01GV<(CLK, NCS, IO0, IO1, IO2, IO3), ReadMode>)
    ensures
        flash.transport() == qspi,
        flash.trace() == Seq::<BusEvent>::empty(),
{
    W25N01GV { _marker: PhantomData, qspi, log: Ghost(Seq::empty()) }
}

impl<PINS, MODE> W25N01GV<PINS, MODE> {
    /// The peripheral that the handle owns.
    pub closed spec fn transport(&self) -> Qspi<PINS> {
        self.qspi
    }

    /// Everything the handle has sent on the bus, oldest first.
    pub closed spec fn trace(&self) -> Seq<BusEvent> {
        self.log@
    }

    /// This handle is `earlier` later on: the same peripheral, and its log
    /// with events added.
    pub open spec fn continues<M>(self, earlier: W25N01GV<PINS, M>) -> bool {
        self.transport() == earlier.transport() && extends(earlier.trace(), self.trace())
    }

    /// The events sent since `earlier`.
    pub open spec fn sent_after<M>(self, earlier: W25N01GV<PINS, M>) -> Seq<BusEvent> {
        sent_since(earlier.trace(), self.trace())
    }
}

/// A single status query.
pub open spec fn status_query(events: Seq<BusEvent>) -> bool {
    events.len() == 1 && is_register_read(events[0], STATUS_REGISTER_ADDRESS)
}

impl<CLK, NCS, IO0, IO1, IO2, IO3, MODE> W25N01GV<(CLK, NCS, IO0, IO1, IO2, IO3), MODE> {
    /// The same chip under another mode tag.
    pub(crate) fn retag<NEXT>(self) -> (flash: W25N01GV<(CLK, NCS, IO0, IO1, IO2, IO3), NEXT>)
        ensures
            flash.transport() == self.transport(),
            flash.trace() == self.trace(),
    {
        W25N01GV { _marker: PhantomData, qspi: self.qspi, log: self.log }
    }

    /// Hands `command` to the peripheral and logs it with the answer.
    pub(crate) fn write_frame(&mut self, command: QspiWriteCommand) -> (r: Result<(), QspiError>)
        requires
            command.data matches Some((d, _)) ==> 0 < d@.len() <= u32::MAX,
            alternate_bytes_framable(command.alternative_bytes),
        ensures
            final(self).continues(*old(self)),
            final(self).sent_after(*old(self)) == seq![
                BusEvent::Write { frame: write_frame_of(command), outcome: r },
            ],
            r matches Err(e) ==> e != QspiError::Address,
    {
        let r = bus_write(&self.qspi, command);
        proof {
            lemma_sent_push(self.log@, BusEvent::Write { frame: write_frame_of(command), outcome: r });
        }
        self.log = Ghost(self.log@.push(BusEvent::Write { frame: write_frame_of(command), outcome: r }));
        r
    }

    /// Hands `command` to the peripheral, reads the answer into `buffer`, and
    /// logs the command with the answer and the buffer.
    pub(crate) fn transfer_frame<const N: usize>(
        &mut self,
        command: QspiReadCommand,
        buffer: &mut [u8; N],
    ) -> (r: Result<(), QspiError>)
        requires
            alternate_bytes_framable(command.alternative_bytes),
            command.receive_length <= N,
        ensures
            final(self).continues(*old(self)),
            final(self).sent_after(*old(self)) == seq![
                BusEvent::Transfer {
                    frame: read_frame_of(command),
                    outcome: r,
                    received: final(buffer)@,
                },
            ],
            r is Err ==> *final(buffer) == *old(buffer),
    {
        let r = bus_transfer(&self.qspi, command, buffer);
        let ghost event = BusEvent::Transfer {
            frame: read_frame_of(command),
            outcome: r,
            received: buffer@,
        };
        proof {
            lemma_sent_push(self.log@, event);
        }
        self.log = Ghost(self.log@.push(event));
        r
    }

    /// Asks whether the chip is busy, and refuses with `DeviceBusy` when it is.
    pub(crate) fn ensure_idle(&mut self) -> (r: Result<(), FlashCommandError>)
        ensures
            final(self).continues(*old(self)),
            status_query(final(self).sent_after(*old(self))),
            r == status_gate(final(self).sent_after(*old(self)).first()),
    {
        let busy = self.check_busy();
        refuse_when(busy, FlashCommandError::DeviceBusy)
    }

    /// Sends `command` once the chip reports itself idle; a busy chip, or a
    /// failed status query, ends the call before the command is sent.
    pub(crate) fn send_when_idle(&mut self, command: QspiWriteCommand) -> (r: Result<(), FlashCommandError>)
        requires
            command.data matches Some((d, _)) ==> 0 < d@.len() <= u32::MAX,
            alternate_bytes_framable(command.alternative_bytes),
        ensures
            final(self).continues(*old(self)),
            gated_write(final(self).sent_after(*old(self)), write_frame_of(command), r),
    {
        let ghost t0 = self.trace();
        match self.ensure_idle() {
            Ok(()) => {
                let ghost t1 = self.trace();
                let sent = self.write_frame(command);
                proof {
                    lemma_sent_chain(t0, t1, self.trace());
                }
                transport_result(sent)
            },
            Err(e) => Err(e),
        }
    }

    /// Reads by `command` into `buffer` once the chip reports itself idle; a
    /// busy chip, or a failed status query, ends the call before the read and
    /// leaves the buffer as it was.
    pub(crate) fn transfer_when_idle<const N: usize>(
        &mut self,
        command: QspiReadCommand,
        buffer: &mut [u8; N],
    ) -> (r: Result<(), FlashCommandError>)
        requires
            alternate_bytes_framable(command.alternative_bytes),
            command.receive_length <= N,
        ensures
            final(self).continues(*old(self)),
            gated_transfer(final(self).sent_after(*old(self)), read_frame_of(command), r),
            final(self).sent_after(*old(self)).len() == 1 ==> *final(buffer) == *old(buffer),
            final(self).sent_after(*old(self)).len() == 2 ==> final(buffer)@ == received_of(
                final(self).sent_after(*old(self))[1],
            ),
    {
        let ghost t0 = self.trace();
        match self.ensure_idle() {
            Ok(()) => {
                let ghost t1 = self.trace();
                let received = self.transfer_frame(command, buffer);
                proof {
                    lemma_sent_chain(t0, t1, self.trace());
                }
                transport_result(received)
            },
            Err(e) => Err(e),
        }
    }

    /// Resets the chip. It is sent whether or not the chip is busy: a reset
    /// is what a caller sends to a chip that will not finish.
    pub fn reset_device(&mut self) -> (r: Result<(), FlashCommandError>)
        ensures
            final(self).continues(*old(self)),
            final(self).sent_after(*old(self)).len() == 1,
            final(self).sent_after(*old(self))[0] is Write,
            frame_of(final(self).sent_after(*old(self))[0]) == command_frame(DEVICE_RESET),
            r == spec_transport_result(outcome_of(final(self).sent_after(*old(self))[0])),
    {
        let sent = self.write_frame(instruction_command(DEVICE_RESET));
        transport_result(sent)
    }

    /// Reads the three bytes of the JEDEC ID: manufacturer, then device.
    pub fn get_jedec_id(&mut self) -> (r: Result<[u8; 3], FlashCommandError>)
        ensures
            final(self).continues(*old(self)),
            final(self).sent_after(*old(self)).len() == 1,
            final(self).sent_after(*old(self))[0] is Transfer,
            frame_of(final(self).sent_after(*old(self))[0]) == jedec_id_frame(),
            unit_result(r) == spec_transport_result(outcome_of(final(self).sent_after(*old(self))[0])),
            r matches Ok(id) ==> id@ == received_of(final(self).sent_after(*old(self))[0]),
    {
        let mut id = [0u8; 3];
        match self.transfer_frame(jedec_id_command(), &mut id) {
            Ok(()) => Ok(id),
            Err(e) => Err(FlashCommandError::from_qspi_error(e)),
        }
    }

    /// Whether the last erase or program operation failed.
    pub fn check_write_or_erase_failure(&mut self) -> (r: Result<bool, FlashCommandError>)
        ensures
            final(self).continues(*old(self)),
            status_query(final(self).sent_after(*old(self))),
            r == spec_failure_answer(status_value(final(self).sent_after(*old(self))[0])),
    {
        failure_answer(self.read_status_register())
    }

    /// Whether the chip is busy with an operation; every refusal with
    /// `DeviceBusy` rests on this answer.
    pub fn check_busy(&mut self) -> (r: Result<bool, FlashCommandError>)
        ensures
            final(self).continues(*old(self)),
            status_query(final(self).sent_after(*old(self))),
            r == spec_busy_answer(status_value(final(self).sent_after(*old(self))[0])),
    {
        busy_answer(self.read_status_register())
    }
}

} // verus!
