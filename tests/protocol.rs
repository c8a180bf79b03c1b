use stm32l4xx_hal::qspi::QspiError;
use w25n01gv::status::{ConfigurationRegister, ProtectionRegister, StatusRegister};
use w25n01gv::{
    busy_answer, erase_failure_answer, failure_answer, keep_waiting, refuse_when, transport_result,
    FlashCommandError,
};

#[test]
fn qspi_errors_map_one_for_one() {
    assert_eq!(FlashCommandError::from_qspi_error(QspiError::Busy), FlashCommandError::QSPIBusy);
    assert_eq!(FlashCommandError::from_qspi_error(QspiError::Address), FlashCommandError::QSPIAddress);
    assert_eq!(FlashCommandError::from_qspi_error(QspiError::Unknown), FlashCommandError::QSPIUnknown);
    assert_eq!(transport_result(Ok(())), Ok(()));
    assert_eq!(transport_result(Err(QspiError::Address)), Err(FlashCommandError::QSPIAddress));
}

#[test]
fn busy_chip_is_refused_before_the_command() {
    assert_eq!(refuse_when(Ok(true), FlashCommandError::DeviceBusy), Err(FlashCommandError::DeviceBusy));
    assert_eq!(refuse_when(Ok(false), FlashCommandError::DeviceBusy), Ok(()));
    assert_eq!(
        refuse_when(Err(FlashCommandError::QSPIBusy), FlashCommandError::DeviceBusy),
        Err(FlashCommandError::QSPIBusy)
    );
}

#[test]
fn failure_flag_after_a_write_is_reported() {
    assert_eq!(refuse_when(Ok(true), FlashCommandError::WriteFailure), Err(FlashCommandError::WriteFailure));
    assert_eq!(refuse_when(Ok(false), FlashCommandError::WriteFailure), Ok(()));
    assert_eq!(
        refuse_when(Err(FlashCommandError::QSPIUnknown), FlashCommandError::WriteFailure),
        Err(FlashCommandError::QSPIUnknown)
    );
}

#[test]
fn wait_stops_at_the_first_idle_answer() {
    let answers = [Ok(false), Ok(true), Ok(true)];
    let mut queries = 0;
    for answer in answers {
        queries += 1;
        if !keep_waiting(answer) {
            break;
        }
    }
    assert_eq!(queries, 1);
}

#[test]
fn wait_goes_on_while_busy_and_stops_on_a_failed_query() {
    assert!(keep_waiting(Ok(true)));
    assert!(!keep_waiting(Ok(false)));
    assert!(!keep_waiting(Err(FlashCommandError::QSPIUnknown)));
    let answers = [Ok(true), Ok(true), Err(FlashCommandError::QSPIBusy), Ok(true)];
    let mut queries = 0;
    for answer in answers {
        queries += 1;
        if !keep_waiting(answer) {
            break;
        }
    }
    assert_eq!(queries, 3);
}

#[test]
fn status_answers_pick_their_bits() {
    let busy = StatusRegister::from_u8(0x01);
    let erase_failed = StatusRegister::from_u8(0x04);
    let program_failed = StatusRegister::from_u8(0x08);
    let idle = StatusRegister::from_u8(0x02);
    assert_eq!(busy_answer(Ok(busy)), Ok(true));
    assert_eq!(busy_answer(Ok(idle)), Ok(false));
    assert_eq!(busy_answer(Err(FlashCommandError::QSPIAddress)), Err(FlashCommandError::QSPIAddress));
    assert_eq!(failure_answer(Ok(erase_failed)), Ok(true));
    assert_eq!(failure_answer(Ok(program_failed)), Ok(true));
    assert_eq!(failure_answer(Ok(busy)), Ok(false));
    assert_eq!(erase_failure_answer(Ok(erase_failed)), Ok(true));
    assert_eq!(erase_failure_answer(Ok(program_failed)), Ok(false));
    assert_eq!(erase_failure_answer(Err(FlashCommandError::QSPIBusy)), Err(FlashCommandError::QSPIBusy));
}

#[test]
fn register_updates_keep_other_bits() {
    let reg = ProtectionRegister::from_u8(0xFF);
    let cleared = reg.with_block_protection(false, false, false, false, false);
    assert_eq!(cleared.to_u8(), 0x83);
    let config = ConfigurationRegister::from_u8(0xF8);
    assert_eq!(config.with_continuous_read(true).to_u8(), 0xF0);
    assert_eq!(ConfigurationRegister::from_u8(0x10).with_continuous_read(false).to_u8(), 0x18);
}
