use libatk::checksum::CHECKSUM_TARGET;
use libatk::command::{DATA_CAPACITY, FRAME_LEN};
use libatk::{Command, CommandBuilder, DeviceFamily, CommandId, EEPROMAddress, Error};

type Mouse = DeviceFamily<0x08>;

fn frame_total(report_id: u8, frame: &[u8]) -> u32 {
    // The checksum covers the address as one 16-bit value.
    let address = frame[2] as u32 * 256 + frame[3] as u32;
    let mut total = report_id as u32 + frame[0] as u32 + frame[1] as u32 + address + frame[4] as u32;
    for b in &frame[5..] {
        total += *b as u32;
    }
    total % 256
}

#[test]
fn default_command_frame() {
    let c: Command<Mouse> = Command::default();
    assert_eq!(c.data_len(), 0);
    assert_eq!(c.id().value(), 0x00);
    assert_eq!(c.eeprom_address().value(), 0x00);
    assert_eq!(c.status(), 0);
    let bytes = c.as_bytes();
    let mut expected = vec![0u8; 15];
    expected.push(0x55u8.wrapping_sub(0x08));
    assert_eq!(bytes, expected);
    assert_eq!(bytes[15], 0x4d);
    assert!(c.has_valid_checksum());
}

#[test]
fn set_data_then_serialize_recomputes_checksum() {
    let mut c: Command<Mouse> = Command::default();
    c.set_data_len(2).unwrap();
    let stale = c.as_bytes()[15];
    c.set_data(&[0xAA, 0xBB], 0).unwrap();
    let bytes = c.as_bytes();
    assert_eq!(bytes.len(), FRAME_LEN);
    assert_eq!(bytes[4], 2);
    assert_eq!(bytes[5], 0xAA);
    assert_eq!(bytes[6], 0xBB);
    assert!(bytes[7..15].iter().all(|b| *b == 0));
    assert_eq!(bytes[15], 0xE6);
    assert_ne!(bytes[15], stale);
}

#[test]
fn round_trip_keeps_frame() {
    let mut c: Command<Mouse> = Command::default();
    c.set_id(CommandId::SetEEPROM);
    c.set_status(0x01);
    c.set_eeprom_address(EEPROMAddress::DpiPair1);
    c.set_data_len(4).unwrap();
    c.set_data_byte_with_checksum(0x12, 0).unwrap();
    c.set_data_byte_with_checksum(0x80, 2).unwrap();
    let first = c.as_bytes();
    assert_eq!(first[..9], [0x07, 0x01, 0x00, 0x0c, 0x04, 0x12, 0x43, 0x80, 0xD5]);
    let parsed: Command<Mouse> = Command::parse(&first).unwrap();
    assert_eq!(parsed.as_bytes(), first);
    assert!(parsed.has_valid_checksum());
}

#[test]
fn round_trip_with_wide_address() {
    let mut c: Command<Mouse> = Command::default();
    c.set_eeprom_address(EEPROMAddress::Macro1);
    let bytes = c.as_bytes();
    assert_eq!(bytes[2], 0x04);
    assert_eq!(bytes[3], 0x80);
    assert_eq!(bytes[15], 0xCD);
    let parsed: Command<Mouse> = Command::parse(&bytes).unwrap();
    assert_eq!(parsed.eeprom_address(), EEPROMAddress::Macro1);
    assert_eq!(parsed.as_bytes(), bytes);
}

#[test]
fn checksum_completes_total() {
    let mut c: Command<Mouse> = Command::default();
    assert_eq!(frame_total(0x08, &c.as_bytes()), 0x55);
    c.set_id(CommandId::GetBatteryLevel);
    c.set_status(0xff);
    c.set_eeprom_address(EEPROMAddress::KeyShortcuts15);
    c.set_data_len(DATA_CAPACITY).unwrap();
    c.set_data(&[0xff; 10], 0).unwrap();
    assert_eq!(frame_total(0x08, &c.as_bytes()), CHECKSUM_TARGET as u32);
    c.set_data_byte(0x3c, 9).unwrap();
    assert_eq!(frame_total(0x08, &c.as_bytes()), 0x55);
    c.set_data_len(3).unwrap();
    assert_eq!(frame_total(0x08, &c.as_bytes()), 0x55);
    assert!(c.has_valid_checksum());
}

#[test]
fn paired_write_sums_to_target() {
    for v in 0..=255u8 {
        let mut c: Command<Mouse> = Command::default();
        c.set_data_len(DATA_CAPACITY).unwrap();
        for offset in [0usize, 2, 4, 6, 8] {
            c.set_data_byte_with_checksum(v, offset).unwrap();
            let d = c.data();
            assert_eq!(d[offset], v);
            assert_eq!(d[offset].wrapping_add(d[offset + 1]), 0x55);
        }
        assert!(c.has_valid_checksum());
    }
}

#[test]
fn paired_write_rejects_odd_offset() {
    let mut c: Command<Mouse> = Command::default();
    c.set_data_len(DATA_CAPACITY).unwrap();
    let before = c.as_bytes();
    for offset in [1usize, 3, 5, 7, 9, 11, usize::MAX] {
        for v in [0u8, 0x55, 0xff] {
            assert!(matches!(
                c.set_data_byte_with_checksum(v, offset),
                Err(Error::OffsetNotAligned(o)) if o == offset
            ));
        }
    }
    assert_eq!(c.as_bytes(), before);
}

#[test]
fn paired_write_outside_valid_length_writes_nothing() {
    let mut c: Command<Mouse> = Command::default();
    c.set_data_len(3).unwrap();
    let before = c.as_bytes();
    assert!(matches!(c.set_data_byte_with_checksum(7, 2), Err(Error::InvalidOffset(3))));
    assert!(matches!(c.set_data_byte_with_checksum(7, 4), Err(Error::InvalidOffset(4))));
    assert_eq!(c.as_bytes(), before);
}

#[test]
fn parse_rejects_wrong_length() {
    for len in [0usize, 1, 15, 17, 64] {
        let raw = vec![0u8; len];
        let r = Command::<Mouse>::parse(&raw);
        assert!(matches!(
            r,
            Err(Error::InvalidBufferLength { expected: 16, actual }) if actual == len
        ));
    }
}

#[test]
fn parse_rejects_unknown_command_id() {
    let mut raw = vec![0u8; 16];
    raw[0] = 0x1c;
    assert!(matches!(Command::<Mouse>::parse(&raw), Err(Error::InvalidCommandId(0x1c))));
    raw[0] = 0x1b;
    let c = Command::<Mouse>::parse(&raw).unwrap();
    assert_eq!(c.id(), CommandId::ReportMouseUpgradeStatus);
}

#[test]
fn address_allow_list() {
    assert!(matches!(EEPROMAddress::from_u16(0x6), Err(Error::InvalidEEPROMAddress(0x6))));
    assert!(matches!(EEPROMAddress::from_u16(0xbd), Err(Error::InvalidEEPROMAddress(0xbd))));
    assert_eq!(EEPROMAddress::from_u16(0xc).unwrap(), EEPROMAddress::DpiPair1);
    assert_eq!(EEPROMAddress::DpiPair1.value(), 0xc);
    assert_eq!(EEPROMAddress::from_u16(0x1980).unwrap(), EEPROMAddress::Macro15);

    let mut raw = vec![0u8; 16];
    raw[3] = 0x06;
    assert!(matches!(Command::<Mouse>::parse(&raw), Err(Error::InvalidEEPROMAddress(0x6))));
    raw[3] = 0xbd;
    assert!(matches!(Command::<Mouse>::parse(&raw), Err(Error::InvalidEEPROMAddress(0xbd))));
    raw[3] = 0x0c;
    let c = Command::<Mouse>::parse(&raw).unwrap();
    assert_eq!(c.eeprom_address(), EEPROMAddress::DpiPair1);
}

#[test]
fn command_id_table() {
    assert_eq!(CommandId::from_u8(0x00).unwrap(), CommandId::Zero);
    assert_eq!(CommandId::from_u8(0x07).unwrap(), CommandId::SetEEPROM);
    assert_eq!(CommandId::GetEEPROM.value(), 0x08);
    assert!(matches!(CommandId::from_u8(0xff), Err(Error::InvalidCommandId(0xff))));
    for v in 0..=0x1bu8 {
        assert_eq!(CommandId::from_u8(v).unwrap().value(), v);
    }
}

#[test]
fn parse_rejects_length_past_payload() {
    let mut raw = vec![0u8; 16];
    raw[4] = 11;
    assert!(matches!(Command::<Mouse>::parse(&raw), Err(Error::DataTooLarge(11))));
    raw[4] = 10;
    assert_eq!(Command::<Mouse>::parse(&raw).unwrap().data_len(), 10);
}

#[test]
fn parse_keeps_received_checksum() {
    let mut raw = vec![0u8; 16];
    raw[4] = 2;
    raw[5] = 0x11;
    raw[6] = 0x22;
    raw[7] = 0x33;
    raw[15] = 0x99;
    let c = Command::<Mouse>::parse(&raw).unwrap();
    assert_eq!(c.data()[..3], [0x11, 0x22, 0x00]);
    assert_eq!(c.as_bytes()[15], 0x99);
    assert!(!c.has_valid_checksum());
    assert_eq!(c.report_id(), 0x08);
}

#[test]
fn set_data_beyond_valid_length() {
    let mut c: Command<Mouse> = Command::default();
    c.set_data_len(2).unwrap();
    assert!(matches!(
        c.set_data(&[1, 2, 3], 0),
        Err(Error::InvalidDataLength { offset: 0, data_len: 3, allowed: 2 })
    ));
    assert!(matches!(
        c.set_data(&[1], usize::MAX),
        Err(Error::InvalidDataLength { data_len: 1, allowed: 2, .. })
    ));
    c.set_data(&[9], 1).unwrap();
    assert_eq!(c.data()[..2], [0, 9]);
}

#[test]
fn set_data_byte_outside_valid_length() {
    let mut c: Command<Mouse> = Command::default();
    assert!(matches!(c.set_data_byte(1, 0), Err(Error::InvalidOffset(0))));
    c.set_data_len(1).unwrap();
    assert!(matches!(c.set_data_byte(1, 1), Err(Error::InvalidOffset(1))));
    c.set_data_byte(0x42, 0).unwrap();
    assert_eq!(c.as_bytes()[5], 0x42);
}

#[test]
fn set_data_len_bounds() {
    let mut c: Command<Mouse> = Command::default();
    assert!(matches!(c.set_data_len(11), Err(Error::DataTooLarge(11))));
    assert_eq!(c.data_len(), 0);
    c.set_data_len(10).unwrap();
    c.set_data(&[5; 10], 0).unwrap();
    c.set_data_len(4).unwrap();
    assert_eq!(c.data(), &[5, 5, 5, 5, 0, 0, 0, 0, 0, 0]);
    assert!(c.is_well_formed());
}

#[test]
fn clone_and_builder_keep_command() {
    let mut c: Command<Mouse> = Command::default();
    c.set_status(3);
    let copy = c.clone();
    assert_eq!(copy.as_bytes(), c.as_bytes());
    let built = CommandBuilder::new(copy).build();
    assert_eq!(built.as_bytes(), c.as_bytes());
    assert_eq!(built.status(), 3);
}

#[test]
fn try_from_conversions() {
    assert_eq!(CommandId::try_from(0x04u8).unwrap(), CommandId::GetBatteryLevel);
    assert!(matches!(CommandId::try_from(0x1cu8), Err(Error::InvalidCommandId(0x1c))));
    assert_eq!(EEPROMAddress::try_from(0x2e0u16).unwrap(), EEPROMAddress::KeyShortcuts15);
    assert!(matches!(EEPROMAddress::try_from(0x2e1u16), Err(Error::InvalidEEPROMAddress(0x2e1))));
    let frame = Command::<Mouse>::default().as_bytes();
    let c = Command::<Mouse>::try_from(&frame[..]).unwrap();
    assert_eq!(c.as_bytes(), frame);
    assert!(matches!(
        Command::<Mouse>::try_from(&frame[..10]),
        Err(Error::InvalidBufferLength { expected: 16, actual: 10 })
    ));
}

#[test]
fn failed_write_keeps_default_frame() {
    let mut c: Command<Mouse> = Command::default();
    assert!(matches!(c.set_data_byte(0x12, 0), Err(Error::InvalidOffset(0))));
    assert_eq!(c.as_bytes(), Command::<Mouse>::default().as_bytes());
}

#[test]
fn family_report_id_enters_checksum_and_report() {
    type Receiver = DeviceFamily<0x04>;
    let c: Command<Receiver> = Command::default();
    assert_eq!(c.report_id(), 0x04);
    assert_eq!(c.as_bytes()[15], 0x51);
    assert_eq!(c.to_report()[0], 0x04);
    let parsed = Command::<Receiver>::parse(&Command::<Mouse>::default().as_bytes()).unwrap();
    assert_eq!(parsed.report_id(), 0x04);
    assert!(!parsed.has_valid_checksum());
}
