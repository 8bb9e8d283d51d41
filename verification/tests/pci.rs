use zcore::error::ZxError;
use zcore::pci::{
    pci_bdf_raw_addr, pio_config_read, pio_config_write, pmio_config_read_addr,
    pmio_config_write_addr,
};

#[test]
fn bdf_addr_packs_fields() {
    assert_eq!(pci_bdf_raw_addr(0, 0, 0, 0), 0);
    assert_eq!(pci_bdf_raw_addr(1, 2, 3, 4), 0x01_1304);
    assert_eq!(pci_bdf_raw_addr(0xff, 0x1f, 0x7, 0xff), 0xff_ffff);
    assert_eq!(pci_bdf_raw_addr(0x12, 0x05, 0x01, 0x10), (0x12 << 16) | (0x05 << 11) | (0x01 << 8) | 0x10);
}

#[test]
fn bdf_addr_keeps_low_offset_bits() {
    assert_eq!(pci_bdf_raw_addr(0, 0, 0, 0x03) & 0x3, 0x3);
    assert_eq!(pci_bdf_raw_addr(0, 0, 0, 0xfe), 0xfe);
}

#[test]
fn bdf_addr_truncates_device_and_function() {
    // Only five bits hold the device number and three the function number.
    assert_eq!(pci_bdf_raw_addr(0, 0x21, 0, 0), pci_bdf_raw_addr(0, 0x01, 0, 0));
    assert_eq!(pci_bdf_raw_addr(0, 0, 0x09, 0), pci_bdf_raw_addr(0, 0, 0x01, 0));
}

#[test]
fn bdf_addr_fields_read_back() {
    let a = pci_bdf_raw_addr(0xab, 0x1c, 0x6, 0x7d);
    assert_eq!((a >> 16) & 0xff, 0xab);
    assert_eq!((a >> 11) & 0x1f, 0x1c);
    assert_eq!((a >> 8) & 0x7, 0x6);
    assert_eq!(a & 0xff, 0x7d);
    assert!(a < 0x100_0000);
}

#[test]
fn pmio_access_not_supported() {
    assert_eq!(pmio_config_read_addr(0x1234, 4), Err(ZxError::NOT_SUPPORTED));
    assert_eq!(pmio_config_write_addr(0x1234, 7, 4), Err(ZxError::NOT_SUPPORTED));
    assert_eq!(pio_config_read(0, 1, 2, 0x10, 2), Err(ZxError::NOT_SUPPORTED));
    assert_eq!(pio_config_write(0, 1, 2, 0x10, 0xdead, 1), Err(ZxError::NOT_SUPPORTED));
}
