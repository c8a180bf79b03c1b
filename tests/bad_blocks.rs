use w25n01gv::frame::BBM_LUT_BYTES;
use w25n01gv::read::decode_bbm_lookup_table;
use w25n01gv::MAX_BBM_LUT_ENTIRES;

#[test]
fn zero_table_has_no_links() {
    let raw = [0u8; BBM_LUT_BYTES];
    let links = decode_bbm_lookup_table(&raw);
    assert_eq!(links.len(), MAX_BBM_LUT_ENTIRES);
    assert!(links.iter().all(|l| l.is_none()));
}

#[test]
fn one_link_lands_in_its_slot() {
    let mut raw = [0u8; BBM_LUT_BYTES];
    raw[4 * 7..4 * 7 + 4].copy_from_slice(&[0x01, 0x23, 0x03, 0xFF]);
    let links = decode_bbm_lookup_table(&raw);
    for (i, link) in links.iter().enumerate() {
        if i == 7 {
            assert_eq!(*link, Some((0x2301, 0xFF03)));
        } else {
            assert_eq!(*link, None);
        }
    }
}

#[test]
fn link_with_one_zero_address_is_present() {
    let mut raw = [0u8; BBM_LUT_BYTES];
    raw[3] = 0x05;
    raw[4 * 19] = 0x80;
    let links = decode_bbm_lookup_table(&raw);
    assert_eq!(links[0], Some((0, 0x0500)));
    assert_eq!(links[19], Some((0x0080, 0)));
    assert_eq!(links.iter().filter(|l| l.is_some()).count(), 2);
}

#[test]
fn addresses_are_low_byte_first() {
    let mut raw = [0u8; BBM_LUT_BYTES];
    raw[0] = 1;
    raw[2] = 0x34;
    raw[3] = 0x12;
    let links = decode_bbm_lookup_table(&raw);
    assert_eq!(links[0], Some((1, 0x1234)));
}
