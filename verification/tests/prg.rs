//! PRG image construction and parsing.

use plus4::{EmuError, PrgFile};

#[test]
fn test_prg_creation() {
    let prg = PrgFile::from_data(0x1001, vec![0x00, 0x01, 0x02]);
    assert_eq!(prg.load_address, 0x1001);
    assert_eq!(prg.data.len(), 3);
    assert_eq!(prg.end_address(), 0x1004);
    assert!(prg.is_basic_program());
}

#[test]
fn test_non_basic_program() {
    let prg = PrgFile::from_data(0x8000, vec![0xA9, 0x00]);
    assert!(!prg.is_basic_program());
}

#[test]
fn parse_splits_address_and_payload() {
    let prg = PrgFile::parse(&[0x01, 0x10, 0xAA, 0xBB]).unwrap();
    assert_eq!(prg.load_address, 0x1001);
    assert_eq!(prg.data, vec![0xAA, 0xBB]);
}

#[test]
fn parse_rejects_short_streams() {
    assert!(matches!(PrgFile::parse(&[]), Err(EmuError::BadPrg)));
    assert!(matches!(PrgFile::parse(&[0x01]), Err(EmuError::BadPrg)));
    // two bytes are enough: an empty payload is fine
    let prg = PrgFile::parse(&[0x01, 0x10]).unwrap();
    assert_eq!(prg.load_address, 0x1001);
    assert_eq!(prg.data.len(), 0);
}
