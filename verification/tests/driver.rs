use std::cell::RefCell;
use std::rc::Rc;

use ds18b20::error::{Error, ErrorKind};
use ds18b20::resolution::Resolution;
use ds18b20::transport::{Address, Delay, OneWire};
use ds18b20::{
    commands, decode_scratchpad, simultaneous_recall_from_eeprom, simultaneous_save_to_eeprom,
    start_simultaneous_temp_measurement, Ds18b20, EEPROM_OPERATION_MICROS, FAMILY_CODE,
    READ_SLOT_DURATION_MICROS,
};

/// One bus primitive as the mock transport records it.
#[derive(Debug, Clone, PartialEq, Eq)]
enum Call {
    Reset,
    SkipAddress,
    MatchAddress(u64),
    WriteByte(u8),
    ReadBit(bool),
    ReadBytes(usize),
}

/// A scripted bus: records every completed primitive in order, answers byte
/// reads from `scripted_bytes` and bit reads from `scripted_bits` (then
/// `false`), fails every primitive with `fail_with` when that is set, and
/// fails every primitive after `fail_after` completed ones when that is set.
struct MockBus {
    calls: Rc<RefCell<Vec<Call>>>,
    scripted_bytes: Vec<u8>,
    scripted_bits: Vec<bool>,
    bit_cursor: usize,
    fail_with: Option<ErrorKind>,
    fail_after: Option<usize>,
}

impl MockBus {
    fn new(calls: Rc<RefCell<Vec<Call>>>) -> MockBus {
        MockBus {
            calls,
            scripted_bytes: Vec::new(),
            scripted_bits: Vec::new(),
            bit_cursor: 0,
            fail_with: None,
            fail_after: None,
        }
    }

    fn should_fail(&self) -> Option<ErrorKind> {
        if self.fail_with.is_some() {
            return self.fail_with;
        }
        match self.fail_after {
            Some(n) if self.calls.borrow().len() >= n => Some(ErrorKind::Other),
            _ => None,
        }
    }
}

impl OneWire for MockBus {
    fn reset(&mut self) -> Result<(), ErrorKind> {
        if let Some(kind) = self.should_fail() {
            return Err(kind);
        }
        self.calls.borrow_mut().push(Call::Reset);
        Ok(())
    }

    fn skip_address(&mut self) -> Result<(), ErrorKind> {
        if let Some(kind) = self.should_fail() {
            return Err(kind);
        }
        self.calls.borrow_mut().push(Call::SkipAddress);
        Ok(())
    }

    fn match_address(&mut self, address: &Address) -> Result<(), ErrorKind> {
        if let Some(kind) = self.should_fail() {
            return Err(kind);
        }
        self.calls.borrow_mut().push(Call::MatchAddress(address.0));
        Ok(())
    }

    fn write_byte(&mut self, byte: u8) -> Result<(), ErrorKind> {
        if let Some(kind) = self.should_fail() {
            return Err(kind);
        }
        self.calls.borrow_mut().push(Call::WriteByte(byte));
        Ok(())
    }

    fn read_bytes(&mut self, count: usize) -> Result<Vec<u8>, ErrorKind> {
        if let Some(kind) = self.should_fail() {
            return Err(kind);
        }
        self.calls.borrow_mut().push(Call::ReadBytes(count));
        Ok(self.scripted_bytes[..count].to_vec())
    }

    fn read_bit(&mut self) -> Result<bool, ErrorKind> {
        if let Some(kind) = self.should_fail() {
            return Err(kind);
        }
        let bit = self.scripted_bits.get(self.bit_cursor).copied().unwrap_or(false);
        self.bit_cursor += 1;
        self.calls.borrow_mut().push(Call::ReadBit(bit));
        Ok(bit)
    }
}

/// Records every wait it is asked to perform.
struct MockDelay {
    delays: Vec<u32>,
}

impl MockDelay {
    fn new() -> MockDelay {
        MockDelay { delays: Vec::new() }
    }
}

impl Delay for MockDelay {
    fn delay_us(&mut self, us: u32) {
        self.delays.push(us);
    }
}

fn recorder() -> Rc<RefCell<Vec<Call>>> {
    Rc::new(RefCell::new(Vec::new()))
}

/// A valid device address: family code 0x28 in the low byte.
fn valid_address() -> Address {
    Address(0x1122334455667728)
}

fn poll_ceiling() -> usize {
    ((EEPROM_OPERATION_MICROS + READ_SLOT_DURATION_MICROS - 1) / READ_SLOT_DURATION_MICROS + 1)
        as usize
}

// --- resolution codec ---

#[test]
fn config_register_round_trip() {
    let all = [
        Resolution::Bits9,
        Resolution::Bits10,
        Resolution::Bits11,
        Resolution::Bits12,
    ];
    for r in all {
        assert_eq!(Resolution::from_config_register(r.to_config_register()), Some(r));
    }
}

#[test]
fn config_register_values() {
    assert_eq!(Resolution::Bits9.to_config_register(), 0x1f);
    assert_eq!(Resolution::Bits10.to_config_register(), 0x3f);
    assert_eq!(Resolution::Bits11.to_config_register(), 0x5f);
    assert_eq!(Resolution::Bits12.to_config_register(), 0x7f);
}

#[test]
fn invalid_config_bytes_rejected() {
    for byte in 0..=255u8 {
        if byte != 0x1f && byte != 0x3f && byte != 0x5f && byte != 0x7f {
            assert_eq!(Resolution::from_config_register(byte), None);
        }
    }
}

// --- scratchpad decoding ---

#[test]
fn decode_power_on_scratchpad() {
    let scratchpad = vec![0x50, 0x05, 0x4b, 0xc6, 0x7f, 0xff, 0x0c, 0x10, 0x00];
    let data = decode_scratchpad(&scratchpad).unwrap();
    assert_eq!(data.temperature_sixteenths, 1360);
    assert_eq!(data.temperature_sixteenths as f32 / 16.0, 85.0);
    assert_eq!(data.resolution, Resolution::Bits12);
    assert_eq!(data.alarm_temp_high, 75);
    assert_eq!(data.alarm_temp_low, -58);
}

#[test]
fn decode_negative_temperature() {
    let scratchpad = vec![0xf8, 0xff, 0x4b, 0xc6, 0x7f, 0x00, 0x00, 0x00, 0x00];
    let data = decode_scratchpad(&scratchpad).unwrap();
    assert_eq!(data.temperature_sixteenths, -8);
    assert_eq!(data.temperature_sixteenths as f32 / 16.0, -0.5);
}

#[test]
fn decode_scales_by_resolution() {
    // The same raw reading of 2 LSBs is worth more degrees at lower
    // resolution: 2/16, 2/8, 2/4, 2/2 °C.
    let cases = [
        (0x7f, 2i32, 0.125f32),
        (0x5f, 4i32, 0.25f32),
        (0x3f, 8i32, 0.5f32),
        (0x1f, 16i32, 1.0f32),
    ];
    for (config, sixteenths, degrees) in cases {
        let scratchpad = vec![0x02, 0x00, 0x00, 0x00, config, 0x00, 0x00, 0x00, 0x00];
        let data = decode_scratchpad(&scratchpad).unwrap();
        assert_eq!(data.temperature_sixteenths, sixteenths);
        assert_eq!(data.temperature_sixteenths as f32 / 16.0, degrees);
    }
}

#[test]
fn decode_rejects_invalid_config_byte() {
    let scratchpad = vec![0x50, 0x05, 0x4b, 0xc6, 0x00, 0x00, 0x00, 0x00, 0x00];
    assert_eq!(decode_scratchpad(&scratchpad), Err(Error::CrcMismatch));
}

// --- device construction ---

#[test]
fn new_rejects_wrong_family_code_without_bus_io() {
    let calls = recorder();
    let bus = MockBus::new(calls.clone());
    let result = Ds18b20::new(bus, Address(0x1122334455667729));
    assert!(matches!(result, Err(Error::FamilyCodeMismatch)));
    assert!(calls.borrow().is_empty());
}

#[test]
fn new_accepts_family_code() {
    let calls = recorder();
    let bus = MockBus::new(calls.clone());
    let device = Ds18b20::new(bus, valid_address()).unwrap();
    assert_eq!(device.address().0, valid_address().0);
    assert_eq!(device.address().family_code(), FAMILY_CODE);
    assert!(calls.borrow().is_empty());
}

// --- per-device operations ---

#[test]
fn start_temp_measurement_addresses_the_device() {
    let calls = recorder();
    let bus = MockBus::new(calls.clone());
    let mut device = Ds18b20::new(bus, valid_address()).unwrap();
    device.start_temp_measurement().unwrap();
    assert_eq!(
        *calls.borrow(),
        vec![
            Call::Reset,
            Call::MatchAddress(valid_address().0),
            Call::WriteByte(commands::CONVERT_TEMP),
        ]
    );
}

#[test]
fn set_config_emits_three_bytes_in_order() {
    let calls = recorder();
    let bus = MockBus::new(calls.clone());
    let mut device = Ds18b20::new(bus, valid_address()).unwrap();
    device.set_config(-58, 75, Resolution::Bits12).unwrap();
    assert_eq!(
        *calls.borrow(),
        vec![
            Call::Reset,
            Call::MatchAddress(valid_address().0),
            Call::WriteByte(commands::WRITE_SCRATCHPAD),
            Call::WriteByte(75),
            Call::WriteByte(0xc6),
            Call::WriteByte(0x7f),
        ]
    );
}

#[test]
fn read_data_decodes_the_scratchpad() {
    let calls = recorder();
    let device_bus = MockBus::new(recorder());
    let device = Ds18b20::new(device_bus, valid_address()).unwrap();
    let mut bus = MockBus::new(calls.clone());
    bus.scripted_bytes = vec![0xf8, 0xff, 0x4b, 0xc6, 0x7f, 0x00, 0x00, 0x00, 0x00];
    let data = device.read_data(&mut bus).unwrap();
    assert_eq!(data.temperature_sixteenths, -8);
    assert_eq!(data.resolution, Resolution::Bits12);
    assert_eq!(data.alarm_temp_high, 75);
    assert_eq!(data.alarm_temp_low, -58);
    assert_eq!(
        *calls.borrow(),
        vec![
            Call::Reset,
            Call::MatchAddress(valid_address().0),
            Call::WriteByte(commands::READ_SCRATCHPAD),
            Call::ReadBytes(9),
        ]
    );
}

#[test]
fn read_data_rejects_corrupt_scratchpad() {
    let device_bus = MockBus::new(recorder());
    let device = Ds18b20::new(device_bus, valid_address()).unwrap();
    let mut bus = MockBus::new(recorder());
    bus.scripted_bytes = vec![0x50, 0x05, 0x4b, 0xc6, 0xaa, 0x00, 0x00, 0x00, 0x00];
    assert_eq!(device.read_data(&mut bus), Err(Error::CrcMismatch));
}

#[test]
fn read_data_propagates_transport_failure() {
    let device_bus = MockBus::new(recorder());
    let device = Ds18b20::new(device_bus, valid_address()).unwrap();
    let mut bus = MockBus::new(recorder());
    bus.fail_with = Some(ErrorKind::Other);
    assert_eq!(device.read_data(&mut bus), Err(Error::OneWireError));
}

#[test]
fn save_to_eeprom_addresses_device_and_waits() {
    let calls = recorder();
    let device_bus = MockBus::new(recorder());
    let device = Ds18b20::new(device_bus, valid_address()).unwrap();
    let mut bus = MockBus::new(calls.clone());
    let mut delay = MockDelay::new();
    device.save_to_eeprom(&mut bus, &mut delay).unwrap();
    assert_eq!(
        *calls.borrow(),
        vec![
            Call::Reset,
            Call::MatchAddress(valid_address().0),
            Call::WriteByte(commands::COPY_SCRATCHPAD),
        ]
    );
    assert_eq!(delay.delays, vec![10000]);
}

#[test]
fn recall_from_eeprom_addresses_the_device() {
    let calls = recorder();
    let device_bus = MockBus::new(recorder());
    let device = Ds18b20::new(device_bus, valid_address()).unwrap();
    let mut bus = MockBus::new(calls.clone());
    bus.scripted_bits = vec![true];
    device.recall_from_eeprom(&mut bus).unwrap();
    assert_eq!(
        *calls.borrow(),
        vec![
            Call::Reset,
            Call::MatchAddress(valid_address().0),
            Call::WriteByte(commands::RECALL_EEPROM),
            Call::ReadBit(true),
        ]
    );
}

// --- broadcast operations ---

#[test]
fn simultaneous_measurement_skips_addressing() {
    let calls = recorder();
    let mut bus = MockBus::new(calls.clone());
    start_simultaneous_temp_measurement(&mut bus).unwrap();
    assert_eq!(
        *calls.borrow(),
        vec![
            Call::Reset,
            Call::SkipAddress,
            Call::WriteByte(commands::CONVERT_TEMP),
        ]
    );
    assert!(!calls.borrow().iter().any(|c| matches!(c, Call::MatchAddress(_))));
}

#[test]
fn simultaneous_save_skips_addressing_and_waits() {
    let calls = recorder();
    let mut bus = MockBus::new(calls.clone());
    let mut delay = MockDelay::new();
    simultaneous_save_to_eeprom(&mut bus, &mut delay).unwrap();
    assert_eq!(
        *calls.borrow(),
        vec![
            Call::Reset,
            Call::SkipAddress,
            Call::WriteByte(commands::COPY_SCRATCHPAD),
        ]
    );
    assert_eq!(delay.delays, vec![EEPROM_OPERATION_MICROS]);
}

// --- EEPROM recall polling ---

#[test]
fn recall_succeeds_on_first_high_bit() {
    let calls = recorder();
    let mut bus = MockBus::new(calls.clone());
    bus.scripted_bits = vec![false, false, false, true];
    simultaneous_recall_from_eeprom(&mut bus).unwrap();
    let recorded = calls.borrow();
    assert_eq!(
        recorded[..3],
        [
            Call::Reset,
            Call::SkipAddress,
            Call::WriteByte(commands::RECALL_EEPROM),
        ]
    );
    // three low polls, then success on the fourth bit, then no further read
    assert_eq!(
        recorded[3..],
        [
            Call::ReadBit(false),
            Call::ReadBit(false),
            Call::ReadBit(false),
            Call::ReadBit(true),
        ]
    );
}

#[test]
fn recall_times_out_at_the_iteration_ceiling() {
    let calls = recorder();
    let mut bus = MockBus::new(calls.clone());
    // every poll reads low: the bus never signals completion
    let result = simultaneous_recall_from_eeprom(&mut bus);
    assert_eq!(result, Err(Error::Timeout));
    let recorded = calls.borrow();
    let polls = recorded.iter().filter(|c| matches!(c, Call::ReadBit(_))).count();
    assert_eq!(polls, poll_ceiling());
    assert_eq!(poll_ceiling(), 668);
}

#[test]
fn recall_succeeds_on_the_last_allowed_poll() {
    let calls = recorder();
    let mut bus = MockBus::new(calls.clone());
    let mut bits = vec![false; poll_ceiling() - 1];
    bits.push(true);
    bus.scripted_bits = bits;
    simultaneous_recall_from_eeprom(&mut bus).unwrap();
    let recorded = calls.borrow();
    let polls = recorded.iter().filter(|c| matches!(c, Call::ReadBit(_))).count();
    assert_eq!(polls, poll_ceiling());
    assert_eq!(*recorded.last().unwrap(), Call::ReadBit(true));
}

// --- error classification ---

#[test]
fn transport_error_kinds_classify() {
    assert_eq!(Error::from(ErrorKind::FamilyCodeMismatch), Error::FamilyCodeMismatch);
    assert_eq!(Error::from(ErrorKind::CrcMismatch), Error::CrcMismatch);
    assert_eq!(Error::from(ErrorKind::Other), Error::OneWireError);
}

#[test]
fn transport_crc_failure_surfaces_as_crc_mismatch() {
    let mut bus = MockBus::new(recorder());
    bus.fail_with = Some(ErrorKind::CrcMismatch);
    assert_eq!(start_simultaneous_temp_measurement(&mut bus), Err(Error::CrcMismatch));
}

// --- first failure aborts the operation ---

#[test]
fn set_config_aborts_on_first_failure() {
    let calls = recorder();
    let mut bus = MockBus::new(calls.clone());
    // the fifth primitive (the second data byte) fails
    bus.fail_after = Some(4);
    let mut device = Ds18b20::new(bus, valid_address()).unwrap();
    let result = device.set_config(-58, 75, Resolution::Bits12);
    assert_eq!(result, Err(Error::OneWireError));
    // exactly the completed prefix, nothing after the failure
    assert_eq!(
        *calls.borrow(),
        vec![
            Call::Reset,
            Call::MatchAddress(valid_address().0),
            Call::WriteByte(commands::WRITE_SCRATCHPAD),
            Call::WriteByte(75),
        ]
    );
}

#[test]
fn recall_aborts_on_failed_bit_read() {
    let calls = recorder();
    let mut bus = MockBus::new(calls.clone());
    // the command completes (three primitives), two polls read low, then the
    // bus fails on the third poll
    bus.fail_after = Some(5);
    let result = simultaneous_recall_from_eeprom(&mut bus);
    assert_eq!(result, Err(Error::OneWireError));
    let recorded = calls.borrow();
    assert_eq!(
        *recorded,
        vec![
            Call::Reset,
            Call::SkipAddress,
            Call::WriteByte(commands::RECALL_EEPROM),
            Call::ReadBit(false),
            Call::ReadBit(false),
        ]
    );
}
