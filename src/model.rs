//! What the driver does on the bus, as a log of events.
//!
//! Every command that the handle hands to the peripheral is recorded, with
//! what the peripheral answered and, for a read, the bytes that came back.
//! The contracts of the device operations say which events an operation adds
//! to the log and how its result follows from them.
use stm32l4xx_hal::qspi::{QspiError, QspiMode, QspiReadCommand, QspiWriteCommand};
use vstd::prelude::*;

use crate::frame::{register_read_frame, register_write_frame};
use crate::status::{StatusRegister, STATUS_REGISTER_ADDRESS};
use crate::{
    spec_busy_answer, spec_erase_failure_answer, spec_failure_answer, spec_refuse_when,
    spec_transport_result, FlashCommandError,
};

verus! {

/// One command as it goes on the bus, with each phase and its bus width.
/// A write carries `data`; a read names in `receive` how many bytes come
/// back and on how many lines.
pub struct Frame {
    pub instruction: Option<(u8, QspiMode)>,
    pub address: Option<(u32, QspiMode)>,
    pub alternative_bytes: Option<(Seq<u8>, QspiMode)>,
    pub dummy_cycles: u8,
    pub data: Option<(Seq<u8>, QspiMode)>,
    pub receive: Option<(u32, QspiMode)>,
    pub double_data_rate: bool,
}

/// A command handed to the peripheral and what it answered; for a read, also
/// the receive buffer afterwards.
pub enum BusEvent {
    Write { frame: Frame, outcome: Result<(), QspiError> },
    Transfer { frame: Frame, outcome: Result<(), QspiError>, received: Seq<u8> },
}

pub open spec fn bytes_part(part: Option<(&[u8], QspiMode)>) -> Option<(Seq<u8>, QspiMode)> {
    match part {
        Some((b, m)) => Some((b@, m)),
        None => None,
    }
}

pub open spec fn write_frame_of(c: QspiWriteCommand<'_>) -> Frame {
    Frame {
        instruction: c.instruction,
        address: c.address,
        alternative_bytes: bytes_part(c.alternative_bytes),
        dummy_cycles: c.dummy_cycles,
        data: bytes_part(c.data),
        receive: None,
        double_data_rate: c.double_data_rate,
    }
}

pub open spec fn read_frame_of(c: QspiReadCommand<'_>) -> Frame {
    Frame {
        instruction: c.instruction,
        address: c.address,
        alternative_bytes: bytes_part(c.alternative_bytes),
        dummy_cycles: c.dummy_cycles,
        data: None,
        receive: Some((c.receive_length, c.data_mode)),
        double_data_rate: c.double_data_rate,
    }
}

pub open spec fn frame_of(e: BusEvent) -> Frame {
    match e {
        BusEvent::Write { frame, .. } => frame,
        BusEvent::Transfer { frame, .. } => frame,
    }
}

pub open spec fn outcome_of(e: BusEvent) -> Result<(), QspiError> {
    match e {
        BusEvent::Write { outcome, .. } => outcome,
        BusEvent::Transfer { outcome, .. } => outcome,
    }
}

pub open spec fn received_of(e: BusEvent) -> Seq<u8> {
    match e {
        BusEvent::Write { .. } => Seq::empty(),
        BusEvent::Transfer { received, .. } => received,
    }
}

/// `after` is `before` with events added at its end.
pub open spec fn extends(before: Seq<BusEvent>, after: Seq<BusEvent>) -> bool {
    before.len() <= after.len() && after.subrange(0, before.len() as int) == before
}

/// The events added to `before` to give `after`.
pub open spec fn sent_since(before: Seq<BusEvent>, after: Seq<BusEvent>) -> Seq<BusEvent> {
    after.subrange(before.len() as int, after.len() as int)
}

pub proof fn lemma_sent_chain(a: Seq<BusEvent>, b: Seq<BusEvent>, c: Seq<BusEvent>)
    requires
        extends(a, b),
        extends(b, c),
    ensures
        extends(a, c),
        sent_since(a, c) == sent_since(a, b) + sent_since(b, c),
{
    assert(c.subrange(0, a.len() as int) =~= b.subrange(0, a.len() as int));
    assert(sent_since(a, c) =~= sent_since(a, b) + sent_since(b, c));
}

pub proof fn lemma_sent_push(a: Seq<BusEvent>, e: BusEvent)
    ensures
        extends(a, a.push(e)),
        sent_since(a, a.push(e)) == seq![e],
{
    assert(a.push(e).subrange(0, a.len() as int) =~= a);
    assert(sent_since(a, a.push(e)) =~= seq![e]);
}

/// A one-byte register read of the register at `sub_address`.
pub open spec fn is_register_read(e: BusEvent, sub_address: u8) -> bool {
    &&& e is Transfer
    &&& frame_of(e) == register_read_frame(sub_address)
    &&& received_of(e).len() == 1
}

/// The byte that a register read gave, or its mapped failure.
pub open spec fn register_value(e: BusEvent) -> Result<u8, FlashCommandError> {
    match outcome_of(e) {
        Ok(()) => Ok(received_of(e)[0]),
        Err(q) => Err(FlashCommandError::spec_from_qspi_error(q)),
    }
}

/// The status register that a status query gave, or its mapped failure.
pub open spec fn status_value(e: BusEvent) -> Result<StatusRegister, FlashCommandError> {
    match register_value(e) {
        Ok(b) => Ok(StatusRegister::spec_from_u8(b)),
        Err(x) => Err(x),
    }
}

/// The pre-flight decision on a status query: go on only on an idle answer.
pub open spec fn status_gate(e: BusEvent) -> Result<(), FlashCommandError> {
    spec_refuse_when(spec_busy_answer(status_value(e)), FlashCommandError::DeviceBusy)
}

/// The result of an operation with its value dropped.
pub open spec fn unit_result<T>(r: Result<T, FlashCommandError>) -> Result<(), FlashCommandError> {
    match r {
        Ok(_) => Ok(()),
        Err(e) => Err(e),
    }
}

/// A gated write: a status query, then `frame` written only on an idle
/// answer; `r` is the refusal, or what the write answered.
pub open spec fn gated_write(events: Seq<BusEvent>, frame: Frame, r: Result<(), FlashCommandError>) -> bool {
    &&& events.len() >= 1
    &&& is_register_read(events[0], STATUS_REGISTER_ADDRESS)
    &&& match status_gate(events[0]) {
        Err(e) => events.len() == 1 && r == Err::<(), FlashCommandError>(e),
        Ok(()) => {
            &&& events.len() == 2
            &&& events[1] is Write
            &&& frame_of(events[1]) == frame
            &&& r == spec_transport_result(outcome_of(events[1]))
        },
    }
}

/// A gated read: a status query, then `frame` read only on an idle answer;
/// `r` is the refusal, or what the read answered.
pub open spec fn gated_transfer(events: Seq<BusEvent>, frame: Frame, r: Result<(), FlashCommandError>) -> bool {
    &&& events.len() >= 1
    &&& is_register_read(events[0], STATUS_REGISTER_ADDRESS)
    &&& match status_gate(events[0]) {
        Err(e) => events.len() == 1 && r == Err::<(), FlashCommandError>(e),
        Ok(()) => {
            &&& events.len() == 2
            &&& events[1] is Transfer
            &&& frame_of(events[1]) == frame
            &&& r == spec_transport_result(outcome_of(events[1]))
        },
    }
}

/// A gated erase (`program` false) or program (`program` true): as a gated
/// write, and after a successful write a second status query, whose failure
/// flags turn success into `WriteFailure`.
pub open spec fn gated_write_checked(
    events: Seq<BusEvent>,
    frame: Frame,
    program: bool,
    r: Result<(), FlashCommandError>,
) -> bool {
    &&& events.len() >= 1
    &&& is_register_read(events[0], STATUS_REGISTER_ADDRESS)
    &&& match status_gate(events[0]) {
        Err(e) => events.len() == 1 && r == Err::<(), FlashCommandError>(e),
        Ok(()) => {
            &&& events.len() >= 2
            &&& events[1] is Write
            &&& frame_of(events[1]) == frame
            &&& match spec_transport_result(outcome_of(events[1])) {
                Err(e) => events.len() == 2 && r == Err::<(), FlashCommandError>(e),
                Ok(()) => {
                    &&& events.len() == 3
                    &&& is_register_read(events[2], STATUS_REGISTER_ADDRESS)
                    &&& r == spec_refuse_when(
                        if program {
                            spec_failure_answer(status_value(events[2]))
                        } else {
                            spec_erase_failure_answer(status_value(events[2]))
                        },
                        FlashCommandError::WriteFailure,
                    )
                },
            }
        },
    }
}

/// A gated update of the register at `sub_address`: a status query, on an
/// idle answer a read of the register, and on its success a gated write of
/// `update` of the byte read.
pub open spec fn gated_update(
    events: Seq<BusEvent>,
    sub_address: u8,
    update: spec_fn(u8) -> u8,
    r: Result<(), FlashCommandError>,
) -> bool {
    &&& events.len() >= 1
    &&& is_register_read(events[0], STATUS_REGISTER_ADDRESS)
    &&& match status_gate(events[0]) {
        Err(e) => events.len() == 1 && r == Err::<(), FlashCommandError>(e),
        Ok(()) => {
            &&& events.len() >= 2
            &&& is_register_read(events[1], sub_address)
            &&& match register_value(events[1]) {
                Err(e) => events.len() == 2 && r == Err::<(), FlashCommandError>(e),
                Ok(v) => gated_write(
                    events.subrange(2, events.len() as int),
                    register_write_frame(sub_address, update(v)),
                    r,
                ),
            }
        },
    }
}

/// A busy answer to the pre-flight status query ends every gated operation
/// with `DeviceBusy`, and the status query is then the only event: no
/// command goes on the bus.
pub proof fn lemma_busy_chip_sends_nothing(
    events: Seq<BusEvent>,
    frame: Frame,
    program: bool,
    sub_address: u8,
    update: spec_fn(u8) -> u8,
    r: Result<(), FlashCommandError>,
)
    requires
        events.len() >= 1,
        status_value(events[0]) matches Ok(s) && s.device_busy,
        gated_write(events, frame, r) || gated_transfer(events, frame, r) || gated_write_checked(
            events,
            frame,
            program,
            r,
        ) || gated_update(events, sub_address, update, r),
    ensures
        r == Err::<(), FlashCommandError>(FlashCommandError::DeviceBusy),
        events.len() == 1,
{
}

} // verus!
