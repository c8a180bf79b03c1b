//! The QUADSPI peripheral of the STM32L4 HAL, as the driver sees it.
//!
//! The peripheral's command descriptors and its error are declared with their
//! fields, so that verified code frames commands and tells errors apart. The
//! peripheral itself stays opaque: what a transfer returns depends on the chip
//! at the other end of the bus, so the two calls below promise of their
//! outcome only what the peripheral's own code decides. The handle logs each
//! call with its answer (see `model`).
use stm32l4xx_hal::qspi::{Qspi, QspiError, QspiMode, QspiReadCommand, QspiWriteCommand};
use vstd::prelude::*;

verus! {

#[verifier::external_type_specification]
pub struct ExQspiMode(QspiMode);

#[verifier::external_type_specification]
pub struct ExQspiError(QspiError);

#[verifier::external_type_specification]
pub struct ExQspiWriteCommand<'a>(QspiWriteCommand<'a>);

#[verifier::external_type_specification]
pub struct ExQspiReadCommand<'a>(QspiReadCommand<'a>);

#[verifier::external_type_specification]
#[verifier::external_body]
#[verifier::reject_recursive_types(PINS)]
pub struct ExQspi<PINS>(Qspi<PINS>);

/// Alternate bytes that the peripheral can frame: it shifts them into one
/// 32-bit register, a shift that overflows past four bytes, and stores their
/// count less one, a subtraction that overflows on none.
pub open spec fn alternate_bytes_framable(alt: Option<(&[u8], QspiMode)>) -> bool {
    alt matches Some((a, _)) ==> 1 <= a@.len() <= 4
}

/// Relies on `Qspi::write` of stm32l4xx-hal: it sends one command, with its
/// payload, and reports a failure of the peripheral: busy, or a transfer
/// error, never an address error. It panics on an empty
/// payload (the data length less one is written to a register) and on
/// alternate bytes it cannot frame, hence the `requires`. It spins until the
/// peripheral has finished the transfer.
#[verifier::external_body]
pub(crate) fn bus_write<CLK, NCS, IO0, IO1, IO2, IO3>(
    qspi: &Qspi<(CLK, NCS, IO0, IO1, IO2, IO3)>,
    command: QspiWriteCommand,
) -> (r: Result<(), QspiError>)
    requires
        command.data matches Some((d, _)) ==> 0 < d@.len() <= u32::MAX,
        alternate_bytes_framable(command.alternative_bytes),
    ensures
        r matches Err(e) ==> e != QspiError::Address,
{
    qspi.write(command)
}

/// Relies on `Qspi::transfer` of stm32l4xx-hal: it sends one command and reads
/// the answer into `buffer`, and reports a failure of the peripheral; an
/// address error only for a command with an address. Every failure is
/// reported before the buffer is touched. What it reads comes from the chip,
/// so nothing is promised of the bytes. It panics on alternate bytes it
/// cannot frame; and with more bytes to receive than the buffer holds it
/// stops draining the peripheral and waits on a completion that nothing
/// shows will come. Hence the `requires`. It spins until
/// the peripheral has finished the transfer.
#[verifier::external_body]
pub(crate) fn bus_transfer<CLK, NCS, IO0, IO1, IO2, IO3, const N: usize>(
    qspi: &Qspi<(CLK, NCS, IO0, IO1, IO2, IO3)>,
    command: QspiReadCommand,
    buffer: &mut [u8; N],
) -> (r: Result<(), QspiError>)
    requires
        alternate_bytes_framable(command.alternative_bytes),
        command.receive_length <= N,
    ensures
        r is Err ==> *final(buffer) == *old(buffer),
        r matches Err(e) ==> (command.address is Some || e != QspiError::Address),
{
    qspi.transfer(command, buffer)
}

} // verus!
