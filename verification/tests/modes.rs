use sht31::checksum::checksum;
use sht31::error::SHTError;
use sht31::mode::{Periodic, SimpleSingleShot, SingleShot, MPS};
use sht31::transport::{BusFault, DelayProvider, I2cBus};
use sht31::{device_command, Accuracy, DeviceAddr, DeviceCommand, RawReading, TemperatureUnit, SHT31};

/// One expected bus transaction and its scripted outcome.
#[derive(Clone, Debug, PartialEq)]
enum Xact {
    Write(u8, Vec<u8>),
    WriteFail(u8, Vec<u8>),
    Read(u8, Vec<u8>),
    ReadFail(u8),
    WriteRead(u8, Vec<u8>, Vec<u8>),
    WriteReadFail(u8, Vec<u8>),
}

/// A scripted transport: each call must match the next expected transaction.
struct MockBus {
    expected: Vec<Xact>,
    pos: usize,
}

impl MockBus {
    fn new(expected: Vec<Xact>) -> Self {
        MockBus { expected, pos: 0 }
    }

    fn next(&mut self) -> Xact {
        assert!(self.pos < self.expected.len(), "more bus calls than expected");
        let x = self.expected[self.pos].clone();
        self.pos += 1;
        x
    }

    fn done(&self) {
        assert_eq!(self.pos, self.expected.len(), "expected bus calls left over");
    }
}

impl I2cBus for MockBus {
    fn write(&mut self, address: u8, bytes: &Vec<u8>) -> Result<(), BusFault> {
        match self.next() {
            Xact::Write(a, b) => {
                assert_eq!(a, address);
                assert_eq!(&b, bytes);
                Ok(())
            }
            Xact::WriteFail(a, b) => {
                assert_eq!(a, address);
                assert_eq!(&b, bytes);
                Err(BusFault)
            }
            other => panic!("expected {:?}, got write of {:?}", other, bytes),
        }
    }

    fn read(&mut self, address: u8, buffer: &mut Vec<u8>) -> Result<(), BusFault> {
        match self.next() {
            Xact::Read(a, data) => {
                assert_eq!(a, address);
                assert_eq!(data.len(), buffer.len());
                *buffer = data;
                Ok(())
            }
            Xact::ReadFail(a) => {
                assert_eq!(a, address);
                Err(BusFault)
            }
            other => panic!("expected {:?}, got read", other),
        }
    }

    fn write_read(&mut self, address: u8, bytes: &Vec<u8>, buffer: &mut Vec<u8>) -> Result<(), BusFault> {
        match self.next() {
            Xact::WriteRead(a, b, data) => {
                assert_eq!(a, address);
                assert_eq!(&b, bytes);
                assert_eq!(data.len(), buffer.len());
                *buffer = data;
                Ok(())
            }
            Xact::WriteReadFail(a, b) => {
                assert_eq!(a, address);
                assert_eq!(&b, bytes);
                Err(BusFault)
            }
            other => panic!("expected {:?}, got write_read of {:?}", other, bytes),
        }
    }
}

/// A delay provider that records every requested sleep.
struct CountingDelay {
    calls: Vec<u32>,
}

impl CountingDelay {
    fn new() -> Self {
        CountingDelay { calls: vec![] }
    }
}

impl DelayProvider for CountingDelay {
    fn delay_ms(&mut self, ms: u32) {
        self.calls.push(ms);
    }
}

const AD0: u8 = 0x44;

#[test]
fn device_command_table() {
    assert_eq!(device_command(DeviceCommand::HeaterOn), (0x30, 0x6D));
    assert_eq!(device_command(DeviceCommand::HeaterOff), (0x30, 0x66));
    assert_eq!(device_command(DeviceCommand::Break), (0x30, 0x93));
    assert_eq!(device_command(DeviceCommand::SoftReset), (0x30, 0xA2));
    assert_eq!(device_command(DeviceCommand::GeneralReset), (0x00, 0x06));
    assert_eq!(device_command(DeviceCommand::ClearStatus), (0x30, 0x41));
    assert_eq!(device_command(DeviceCommand::ReadStatus), (0xF3, 0x2D));
    assert_eq!(device_command(DeviceCommand::FetchReading), (0xE0, 0x00));
}

fn good_response() -> Vec<u8> {
    vec![98, 153, 188, 98, 32, 139]
}

fn good_raw(unit: TemperatureUnit) -> RawReading {
    RawReading { raw_temperature: 25241, raw_humidity: 25120, unit }
}

#[test]
fn common_interactions() {
    let expectations = vec![
        // Heater on
        Xact::Write(AD0, vec![0x30, 0x6D]),
        // Heater off
        Xact::Write(AD0, vec![0x30, 0x66]),
        // Break
        Xact::Write(AD0, vec![0x30, 0x93]),
        // Soft reset
        Xact::Write(AD0, vec![0x30, 0xA2]),
        // General reset
        Xact::Write(AD0, vec![0x00, 0x06]),
        // Clear status
        Xact::Write(AD0, vec![0x30, 0x41]),
    ];
    let i2c = MockBus::new(expectations);

    // Heating
    let mut sht31 = SHT31::new(i2c, CountingDelay::new()).with_heating().unwrap();
    assert!(sht31.heater);
    sht31.set_heating(false).unwrap();
    assert!(!sht31.heater);

    // Break
    sht31.break_command().unwrap();

    // Resets
    sht31.soft_reset().unwrap();
    sht31.reset().unwrap();

    // Status
    sht31.clear_status().unwrap();

    sht31.i2c.done();
}

#[test]
fn single_shot() {
    let cases: [(u8, Accuracy); 3] =
        [(0x16, Accuracy::Low), (0x0B, Accuracy::Medium), (0x00, Accuracy::High)];
    for (lsb, accuracy) in cases {
        let i2c = MockBus::new(vec![
            Xact::Write(AD0, vec![0x24, lsb]),
            Xact::Read(AD0, good_response()),
        ]);

        let mut sht31 = SHT31::single_shot(i2c, SingleShot::new()).with_accuracy(accuracy);
        sht31.measure().unwrap();
        let reading = sht31.read().unwrap();
        assert_eq!(reading, good_raw(TemperatureUnit::Fahrenheit));

        sht31.i2c.done();
    }
}

#[test]
fn simple_single_shot() {
    let cases: [(u8, Accuracy); 3] =
        [(0x10, Accuracy::Low), (0x0D, Accuracy::Medium), (0x06, Accuracy::High)];
    for (lsb, accuracy) in cases {
        let i2c = MockBus::new(vec![
            Xact::Write(AD0, vec![0x2C, lsb]),
            Xact::Read(AD0, good_response()),
        ]);

        let mut sht31 = SHT31::new(i2c, CountingDelay::new()).with_accuracy(accuracy);
        let reading = sht31.read().unwrap();
        assert_eq!(reading, good_raw(TemperatureUnit::Fahrenheit));
        // A first-try success sleeps never.
        assert!(sht31.mode.delay.calls.is_empty());

        sht31.i2c.done();
    }
}

#[test]
fn periodic() {
    let cases: [(u8, u8, bool, Accuracy, MPS); 16] = [
        (0x20, 0x32, false, Accuracy::High, MPS::Half),
        (0x20, 0x24, false, Accuracy::Medium, MPS::Half),
        (0x20, 0x2F, false, Accuracy::Low, MPS::Half),
        (0x21, 0x30, false, Accuracy::High, MPS::Normal),
        (0x21, 0x26, false, Accuracy::Medium, MPS::Normal),
        (0x21, 0x2D, false, Accuracy::Low, MPS::Normal),
        (0x22, 0x36, false, Accuracy::High, MPS::Double),
        (0x22, 0x20, false, Accuracy::Medium, MPS::Double),
        (0x22, 0x2B, false, Accuracy::Low, MPS::Double),
        (0x23, 0x34, false, Accuracy::High, MPS::X4),
        (0x23, 0x22, false, Accuracy::Medium, MPS::X4),
        (0x23, 0x29, false, Accuracy::Low, MPS::X4),
        (0x27, 0x37, false, Accuracy::High, MPS::X10),
        (0x27, 0x21, false, Accuracy::Medium, MPS::X10),
        (0x27, 0x2A, false, Accuracy::Low, MPS::X10),
        (0x2B, 0x32, true, Accuracy::Low, MPS::Half),
    ];
    for (msb, lsb, art, accuracy, mps) in cases {
        let i2c = MockBus::new(vec![
            Xact::Write(AD0, vec![msb, lsb]),
            Xact::WriteRead(AD0, vec![0xE0, 0x00], good_response()),
        ]);

        let mut periodic = Periodic::new().with_mps(mps);
        if art {
            periodic.set_art();
        }

        let mut sht31 = SHT31::periodic(i2c, periodic).with_accuracy(accuracy);
        sht31.measure().unwrap();
        let reading = sht31.read().unwrap();
        assert_eq!(reading, good_raw(TemperatureUnit::Fahrenheit));

        sht31.i2c.done();
    }
}

#[test]
fn retry_attempts_exactly_max_retries() {
    // A transport whose responses always fail the temperature checksum.
    let corrupt = vec![98u8, 153, 0, 98, 32, 139];
    let retries: u8 = 3;
    let mut expectations = vec![Xact::Write(AD0, vec![0x2C, 0x06])];
    for _ in 0..retries {
        expectations.push(Xact::Read(AD0, corrupt.clone()));
    }
    let i2c = MockBus::new(expectations);

    let mode = SimpleSingleShot::new(CountingDelay::new()).with_max_retries(retries).with_delay(25);
    let mut sht31 = SHT31::simple_single_shot(i2c, mode);
    let err = sht31.read().err().unwrap();
    // The final attempt's failure comes back as it came.
    assert_eq!(
        err,
        SHTError::InvalidTemperatureChecksumError {
            bytes_start: 98,
            bytes_end: 153,
            expected_checksum: 0,
            calculated_checksum: 188
        }
    );
    // Exactly `retries` read attempts were made (the mock would panic on
    // more, `done` catches fewer), and no sleep follows the last one.
    sht31.i2c.done();
    assert_eq!(sht31.mode.delay.calls, vec![25, 25]);
}

#[test]
fn retry_zero_is_a_misconfiguration() {
    // The measure command is written, but no read is ever attempted.
    let i2c = MockBus::new(vec![Xact::Write(AD0, vec![0x2C, 0x06])]);
    let mode = SimpleSingleShot::new(CountingDelay::new()).with_max_retries(0);
    let mut sht31 = SHT31::simple_single_shot(i2c, mode);
    let err = sht31.read().err().unwrap();
    assert_eq!(err, SHTError::PlaceholderError);
    sht31.i2c.done();
    assert!(sht31.mode.delay.calls.is_empty());
}

#[test]
fn mode_transition_resets_heater_flag() {
    let i2c = MockBus::new(vec![Xact::Write(AD0, vec![0x30, 0x6D])]);
    let sht31 = SHT31::single_shot(i2c, SingleShot::new()).with_heating().unwrap();
    assert!(sht31.heater);

    let transitioned = sht31.with_mode(Periodic::new());
    assert!(!transitioned.heater);
    transitioned.i2c.done();
}

#[test]
fn heater_flag_untouched_when_the_write_fails() {
    let i2c = MockBus::new(vec![Xact::WriteFail(AD0, vec![0x30, 0x6D])]);
    let mut sht31 = SHT31::single_shot(i2c, SingleShot::new());
    assert_eq!(sht31.set_heating(true).err().unwrap(), SHTError::WriteI2CError);
    assert!(!sht31.heater);
    sht31.i2c.done();
}

#[test]
fn status_is_idempotent_and_clear_is_safe_to_repeat() {
    let crc = checksum(0x80, 0x10);
    let response = vec![0x80u8, 0x10, crc];
    let i2c = MockBus::new(vec![
        Xact::WriteRead(AD0, vec![0xF3, 0x2D], response.clone()),
        Xact::WriteRead(AD0, vec![0xF3, 0x2D], response),
        Xact::Write(AD0, vec![0x30, 0x41]),
        Xact::Write(AD0, vec![0x30, 0x41]),
    ]);
    let mut sht31 = SHT31::single_shot(i2c, SingleShot::new());

    let first = sht31.status().unwrap();
    let second = sht31.status().unwrap();
    assert_eq!(first, second);
    assert!(first.pending_alert);
    assert!(first.system_reset);

    sht31.clear_status().unwrap();
    sht31.clear_status().unwrap();
    sht31.i2c.done();
}

#[test]
fn transport_failures_map_to_their_own_kinds() {
    // A failing plain read.
    let i2c = MockBus::new(vec![Xact::Write(AD0, vec![0x24, 0x00]), Xact::ReadFail(AD0)]);
    let mut sht31 = SHT31::single_shot(i2c, SingleShot::new());
    sht31.measure().unwrap();
    assert_eq!(sht31.read().err().unwrap(), SHTError::ReadI2CError);
    sht31.i2c.done();

    // A failing write.
    let i2c = MockBus::new(vec![Xact::WriteFail(AD0, vec![0x30, 0x93])]);
    let mut sht31 = SHT31::single_shot(i2c, SingleShot::new());
    assert_eq!(sht31.break_command().err().unwrap(), SHTError::WriteI2CError);
    sht31.i2c.done();

    // A failing combined write-read.
    let i2c = MockBus::new(vec![Xact::WriteReadFail(AD0, vec![0xF3, 0x2D])]);
    let mut sht31 = SHT31::single_shot(i2c, SingleShot::new());
    assert_eq!(sht31.status().err().unwrap(), SHTError::WriteReadI2CError);
    sht31.i2c.done();
}

#[test]
fn second_address_is_used_on_the_bus() {
    let i2c = MockBus::new(vec![Xact::Write(0x45, vec![0x30, 0x93])]);
    let mut sht31 =
        SHT31::single_shot(i2c, SingleShot::new()).with_address(DeviceAddr::AD1);
    assert_eq!(sht31.address(), 0x45);
    sht31.break_command().unwrap();
    sht31.i2c.done();
}

#[test]
fn settings_only_affect_encoding_and_conversion() {
    // Changing unit or accuracy never changes the response framing: the same
    // 6-byte response parses under every configuration, only the carried
    // unit differs.
    let i2c = MockBus::new(vec![
        Xact::Write(AD0, vec![0x24, 0x16]),
        Xact::Read(AD0, good_response()),
    ]);
    let mut sht31 = SHT31::single_shot(i2c, SingleShot::new())
        .with_unit(TemperatureUnit::Celsius)
        .with_accuracy(Accuracy::Low);
    sht31.measure().unwrap();
    let reading = sht31.read().unwrap();
    assert_eq!(reading, good_raw(TemperatureUnit::Celsius));
    sht31.i2c.done();
}
