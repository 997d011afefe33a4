use std::cell::RefCell;

use libatk::transport::strip_report_id;
use libatk::{Command, DeviceFamily, CommandId, EEPROMAddress, Error, Transport};

type Dongle = DeviceFamily<0x08>;

struct ScriptedDevice {
    written: RefCell<Vec<Vec<u8>>>,
    write_result: Result<usize, String>,
    reply: Result<Vec<u8>, String>,
}

impl ScriptedDevice {
    fn answering(reply: Vec<u8>) -> Self {
        ScriptedDevice { written: RefCell::new(Vec::new()), write_result: Ok(17), reply: Ok(reply) }
    }
}

impl Transport for ScriptedDevice {
    fn write(&self, report: &[u8]) -> Result<usize, String> {
        self.written.borrow_mut().push(report.to_vec());
        self.write_result.clone()
    }

    fn read(&self) -> Result<Vec<u8>, String> {
        self.reply.clone()
    }
}

#[test]
fn report_prefixes_report_id() {
    let mut c: Command<Dongle> = Command::default();
    c.set_id(CommandId::GetBatteryLevel);
    let report = c.to_report();
    assert_eq!(report.len(), 17);
    assert_eq!(report[0], 0x08);
    assert_eq!(report[1..], c.as_bytes()[..]);
}

#[test]
fn strip_report_id_drops_first_byte() {
    assert_eq!(strip_report_id(&[0x08, 1, 2, 3]), vec![1, 2, 3]);
    assert_eq!(strip_report_id(&[0x08]), Vec::<u8>::new());
    assert_eq!(strip_report_id(&[]), Vec::<u8>::new());
}

#[test]
fn from_report_parses_after_report_id() {
    let mut c: Command<Dongle> = Command::default();
    c.set_eeprom_address(EEPROMAddress::CurrentDpi);
    let report = c.to_report();
    let back: Command<Dongle> = Command::from_report(&report).unwrap();
    assert_eq!(back.as_bytes(), c.as_bytes());
    assert!(matches!(
        Command::<Dongle>::from_report(&report[1..]),
        Err(Error::InvalidBufferLength { expected: 16, actual: 15 })
    ));
}

#[test]
fn execute_sends_report_and_parses_answer() {
    let mut request: Command<Dongle> = Command::default();
    request.set_id(CommandId::GetEEPROM);
    request.set_eeprom_address(EEPROMAddress::MaxDpi);
    request.set_data_len(2).unwrap();

    let mut answer: Command<Dongle> = Command::default();
    answer.set_id(CommandId::GetEEPROM);
    answer.set_status(1);
    answer.set_eeprom_address(EEPROMAddress::MaxDpi);
    answer.set_data_len(2).unwrap();
    answer.set_data_byte_with_checksum(0x04, 0).unwrap();

    let device = ScriptedDevice::answering(answer.to_report());
    let response = request.execute(&device).unwrap();
    assert_eq!(device.written.borrow().len(), 1);
    assert_eq!(device.written.borrow()[0], request.to_report());
    assert_eq!(response.status(), 1);
    assert_eq!(response.data()[..2], [0x04, 0x51]);
    assert_eq!(response.as_bytes(), answer.as_bytes());
}

#[test]
fn execute_wraps_parse_failure() {
    let c: Command<Dongle> = Command::default();
    let device = ScriptedDevice::answering(vec![0x08, 0x2a]);
    match c.execute(&device) {
        Err(Error::ParseError(cause)) => {
            assert!(matches!(*cause, Error::InvalidBufferLength { expected: 16, actual: 1 }))
        }
        other => panic!("unexpected result: {:?}", other.map(|r| r.as_bytes())),
    }
}

#[test]
fn execute_passes_transport_failures_on() {
    let c: Command<Dongle> = Command::default();
    let failing_write = ScriptedDevice {
        written: RefCell::new(Vec::new()),
        write_result: Err("write failed".to_string()),
        reply: Ok(Vec::new()),
    };
    assert!(matches!(c.execute(&failing_write), Err(Error::TransportError(m)) if m == "write failed"));

    let failing_read = ScriptedDevice {
        written: RefCell::new(Vec::new()),
        write_result: Ok(17),
        reply: Err("read timed out".to_string()),
    };
    assert!(matches!(c.execute(&failing_read), Err(Error::TransportError(m)) if m == "read timed out"));
}
