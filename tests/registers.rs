use w25n01gv::status::{ConfigurationRegister, ECCStatus, ProtectionRegister, StatusRegister};

fn protection(bits: u8) -> ProtectionRegister {
    ProtectionRegister {
        srp0: bits & 0x80 != 0,
        bp3: bits & 0x40 != 0,
        bp2: bits & 0x20 != 0,
        bp1: bits & 0x10 != 0,
        bp0: bits & 0x08 != 0,
        tb: bits & 0x04 != 0,
        wpe: bits & 0x02 != 0,
        srp1: bits & 0x01 != 0,
    }
}

#[test]
fn protection_register_round_trips_every_field_combination() {
    for bits in 0..=255u8 {
        let reg = protection(bits);
        assert_eq!(ProtectionRegister::from_u8(reg.to_u8()), reg);
        assert_eq!(reg.to_u8(), bits);
    }
}

#[test]
fn configuration_register_round_trips_every_field_combination() {
    for bits in 0..32u8 {
        let reg = ConfigurationRegister {
            otp_l: bits & 0x10 != 0,
            otp_e: bits & 0x08 != 0,
            sr1_l: bits & 0x04 != 0,
            ecc_e: bits & 0x02 != 0,
            buf: bits & 0x01 != 0,
        };
        assert_eq!(ConfigurationRegister::from_u8(reg.to_u8()), reg);
        assert_eq!(reg.to_u8(), bits << 3);
    }
}

#[test]
fn protection_register_bit_positions() {
    let only_tb = ProtectionRegister { tb: true, ..protection(0) };
    assert_eq!(only_tb.to_u8(), 0x04);
    let only_srp0 = ProtectionRegister { srp0: true, ..protection(0) };
    assert_eq!(only_srp0.to_u8(), 0x80);
    let only_srp1 = ProtectionRegister { srp1: true, ..protection(0) };
    assert_eq!(only_srp1.to_u8(), 0x01);
    assert_eq!(ProtectionRegister::from_u8(0x7C), ProtectionRegister {
        bp3: true,
        bp2: true,
        bp1: true,
        bp0: true,
        tb: true,
        ..protection(0)
    });
}

#[test]
fn configuration_register_ignores_reserved_bits() {
    let reg = ConfigurationRegister::from_u8(0x18 | 0x07);
    assert_eq!(reg, ConfigurationRegister { otp_l: false, otp_e: false, sr1_l: false, ecc_e: true, buf: true });
    assert_eq!(reg.to_u8(), 0x18);
}

#[test]
fn ecc_status_truth_table() {
    assert_eq!(ECCStatus::from_bits(false, false), ECCStatus::Successful);
    assert_eq!(ECCStatus::from_bits(true, false), ECCStatus::CorrectedSuccessfully);
    assert_eq!(ECCStatus::from_bits(false, true), ECCStatus::SinglePageError);
    assert_eq!(ECCStatus::from_bits(true, true), ECCStatus::MultiPageError);
}

#[test]
fn status_register_decodes_each_bit() {
    let idle = StatusRegister::from_u8(0x00);
    assert_eq!(idle, StatusRegister {
        bbm_lut_full: false,
        ecc_status: ECCStatus::Successful,
        write_failure: false,
        erase_failure: false,
        write_enable_latch: false,
        device_busy: false,
    });
    let busy = StatusRegister::from_u8(0x01);
    assert!(busy.device_busy);
    assert!(!busy.write_enable_latch);
    let all = StatusRegister::from_u8(0x7F);
    assert_eq!(all, StatusRegister {
        bbm_lut_full: true,
        ecc_status: ECCStatus::MultiPageError,
        write_failure: true,
        erase_failure: true,
        write_enable_latch: true,
        device_busy: true,
    });
    assert_eq!(StatusRegister::from_u8(0x10).ecc_status, ECCStatus::CorrectedSuccessfully);
    assert_eq!(StatusRegister::from_u8(0x20).ecc_status, ECCStatus::SinglePageError);
    assert!(StatusRegister::from_u8(0x04).erase_failure);
    assert!(StatusRegister::from_u8(0x08).write_failure);
    assert!(StatusRegister::from_u8(0x40).bbm_lut_full);
    assert!(!StatusRegister::from_u8(0x80).device_busy);
}
