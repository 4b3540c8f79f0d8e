//! A protocol driver for the SHT31 temperature and humidity sensor on a
//! two-wire bus: fixed command byte-pairs, checksum-verified 6-byte response
//! framing, status decoding, and three mutually exclusive acquisition modes
//! (immediate single-shot, single-shot with retry, periodic), each a distinct
//! handle type so mode-inappropriate operations are rejected at compile time.
//! The bus and the delay source are capabilities the caller supplies; the
//! driver treats the bus as a black box that can fail.

use vstd::prelude::*;

pub mod checksum;
pub mod error;
pub mod mode;
pub mod transport;

use crate::checksum::{
    crc8_of, checksum, reading_valid, spec_verify_reading, verify_reading,
};
use crate::error::SHTError;
use crate::mode::{Periodic, SimpleSingleShot, SingleShot};
use crate::transport::{DelayProvider, I2cBus};

verus! {

/// The temperature and humidity sensor handle. The mode is part of the type,
/// so mode-inappropriate operations are rejected at compile time; the handle
/// exclusively owns its bus for its lifetime and gives it back only through
/// `destroy`.
pub struct SHT31<Mode, Bus> {
    pub mode: Mode,
    pub i2c: Bus,
    pub address: u8,
    pub accuracy: Accuracy,
    pub unit: TemperatureUnit,
    pub heater: bool,
}

/// A checksum-verified measurement, still in raw register form: each quantity
/// is the unsigned big-endian interpretation of its two payload bytes. The
/// physical values follow by pure scaling, `multiplier * (raw / 65535) -
/// subtrahend` for the temperature (see `TemperatureUnit::conversion_pair`)
/// and `100 * raw / 65535` for the humidity percentage.
#[derive(Copy, Clone, Debug, PartialEq, Eq, Structural)]
pub struct RawReading {
    pub raw_temperature: u16,
    pub raw_humidity: u16,
    pub unit: TemperatureUnit,
}

/// The two supported bus addresses, selected by a hardware strap pin.
#[derive(Copy, Clone, Debug, PartialEq, Eq, Structural)]
pub enum DeviceAddr {
    AD0,
    AD1,
}

impl DeviceAddr {
    /// The 7-bit address value this selection stands for.
    pub open spec fn spec_byte(self) -> u8 {
        match self {
            DeviceAddr::AD0 => 0x44,
            DeviceAddr::AD1 => 0x45,
        }
    }

    pub fn byte(self) -> (r: u8)
        ensures
            r == self.spec_byte(),
    {
        match self {
            DeviceAddr::AD0 => 0x44,
            DeviceAddr::AD1 => 0x45,
        }
    }
}

impl Default for DeviceAddr {
    fn default() -> (r: Self)
        ensures
            r == DeviceAddr::AD0,
    {
        DeviceAddr::AD0
    }
}

/// Influences what the reading's temperature numbers are.
#[derive(Copy, Clone, Debug, PartialEq, Eq, Structural)]
pub enum TemperatureUnit {
    Celsius,
    Fahrenheit,
}

impl TemperatureUnit {
    /// The (subtrahend, multiplier) pair of the conversion
    /// `physical = multiplier * (raw / 65535) - subtrahend`.
    pub open spec fn spec_conversion_pair(self) -> (u16, u16) {
        match self {
            TemperatureUnit::Celsius => (45, 175),
            TemperatureUnit::Fahrenheit => (49, 315),
        }
    }

    pub fn conversion_pair(self) -> (r: (u16, u16))
        ensures
            r == self.spec_conversion_pair(),
    {
        match self {
            TemperatureUnit::Celsius => (45, 175),
            TemperatureUnit::Fahrenheit => (49, 315),
        }
    }
}

impl Default for TemperatureUnit {
    fn default() -> (r: Self)
        ensures
            r == TemperatureUnit::Fahrenheit,
    {
        TemperatureUnit::Fahrenheit
    }
}

/// Determines the accuracy of the sensor; the higher the repeatability the
/// longer a measurement takes and the more accurate it is.
#[derive(Copy, Clone, Debug, PartialEq, Eq, Structural)]
pub enum Accuracy {
    High,
    Medium,
    Low,
}

impl Default for Accuracy {
    fn default() -> (r: Self)
        ensures
            r == Accuracy::High,
    {
        Accuracy::High
    }
}

/// The device-level operations with fixed 2-byte commands: everything the
/// command encoder knows besides the accuracy- and frequency-keyed
/// measurement commands, which the mode modules encode.
#[derive(Copy, Clone, Debug, PartialEq, Eq, Structural)]
pub enum DeviceCommand {
    /// Switch the onboard heater on.
    HeaterOn,
    /// Switch the onboard heater off.
    HeaterOff,
    /// Cancel the currently running command.
    Break,
    /// Soft-reset the sensor.
    SoftReset,
    /// Bus-wide general reset.
    GeneralReset,
    /// Clear all status registers.
    ClearStatus,
    /// Read the 3-byte status response.
    ReadStatus,
    /// Fetch the last periodic measurement (6-byte response).
    FetchReading,
}

/// The fixed command byte pair of each device-level operation.
pub open spec fn spec_device_command(command: DeviceCommand) -> (u8, u8) {
    match command {
        DeviceCommand::HeaterOn => (0x30, 0x6D),
        DeviceCommand::HeaterOff => (0x30, 0x66),
        DeviceCommand::Break => (0x30, 0x93),
        DeviceCommand::SoftReset => (0x30, 0xA2),
        DeviceCommand::GeneralReset => (0x00, 0x06),
        DeviceCommand::ClearStatus => (0x30, 0x41),
        DeviceCommand::ReadStatus => (0xF3, 0x2D),
        DeviceCommand::FetchReading => (0xE0, 0x00),
    }
}

/// Encodes a device-level operation into the two bytes written to the bus.
pub fn device_command(command: DeviceCommand) -> (r: (u8, u8))
    ensures
        r == spec_device_command(command),
{
    match command {
        DeviceCommand::HeaterOn => (0x30, 0x6D),
        DeviceCommand::HeaterOff => (0x30, 0x66),
        DeviceCommand::Break => (0x30, 0x93),
        DeviceCommand::SoftReset => (0x30, 0xA2),
        DeviceCommand::GeneralReset => (0x00, 0x06),
        DeviceCommand::ClearStatus => (0x30, 0x41),
        DeviceCommand::ReadStatus => (0xF3, 0x2D),
        DeviceCommand::FetchReading => (0xE0, 0x00),
    }
}

/// The response length, in bytes, each device-level operation expects:
/// 3 for the status read, 6 for the periodic fetch, nothing for the
/// fire-and-forget writes.
pub open spec fn spec_response_len(command: DeviceCommand) -> usize {
    match command {
        DeviceCommand::ReadStatus => 3,
        DeviceCommand::FetchReading => 6,
        _ => 0,
    }
}

/// The number of response bytes to read back after a device-level command.
pub fn response_len(command: DeviceCommand) -> (r: usize)
    ensures
        r == spec_response_len(command),
{
    match command {
        DeviceCommand::ReadStatus => 3,
        DeviceCommand::FetchReading => 6,
        _ => 0,
    }
}

/// The sensor's status word, decoded into named flags.
#[derive(Copy, Clone, Debug, PartialEq, Eq, Structural)]
pub struct Status {
    /// Last checksum transfer failed
    pub checksum_failed: bool,
    /// Last received command has been processed
    pub last_command_processed: bool,
    /// System was reset recently
    pub system_reset: bool,
    /// T has an alert
    pub t_alert: bool,
    /// RH has an alert
    pub rh_alert: bool,
    /// Heater status
    pub heater_on: bool,
    /// At least one pending alert
    pub pending_alert: bool,
}

/// Tests a single bit of a word; bit 0 is the least significant.
pub fn bit_flag(n: u16, pos: u16) -> (r: bool)
    requires
        pos < 16,
    ensures
        r == spec_bit_flag(n, pos),
{
    n & (1u16 << pos) != 0
}

pub open spec fn spec_bit_flag(n: u16, pos: u16) -> bool {
    n & (1u16 << pos) != 0
}

/// How a status word decodes: bit 0 is a failed checksum, a set bit 1 means
/// the last command was NOT processed, bit 4 a recent reset, bits 10 and 11
/// the temperature and humidity alerts, bit 13 the heater, bit 15 a pending
/// alert. All other bits are ignored.
pub open spec fn spec_status_from_word(word: u16) -> Status {
    Status {
        checksum_failed: spec_bit_flag(word, 0),
        last_command_processed: !spec_bit_flag(word, 1),
        system_reset: spec_bit_flag(word, 4),
        t_alert: spec_bit_flag(word, 10),
        rh_alert: spec_bit_flag(word, 11),
        heater_on: spec_bit_flag(word, 13),
        pending_alert: spec_bit_flag(word, 15),
    }
}

impl Status {
    /// Decodes a 16-bit status word into its named flags.
    pub fn from_bytes(bytes: u16) -> (r: Self)
        ensures
            r == spec_status_from_word(bytes),
    {
        Status {
            checksum_failed: bit_flag(bytes, 0),
            last_command_processed: !bit_flag(bytes, 1),
            system_reset: bit_flag(bytes, 4),
            t_alert: bit_flag(bytes, 10),
            rh_alert: bit_flag(bytes, 11),
            heater_on: bit_flag(bytes, 13),
            pending_alert: bit_flag(bytes, 15),
        }
    }
}

/// Decoding reads only the seven named flag bits: two words that agree on
/// those bits decode to the same flags, whatever the other bits hold.
pub proof fn lemma_status_ignores_other_bits(w1: u16, w2: u16)
    requires
        w1 & 0xAC13 == w2 & 0xAC13,
    ensures
        spec_status_from_word(w1) == spec_status_from_word(w2),
{
    assert((w1 & (1u16 << 0u16) != 0) == (w2 & (1u16 << 0u16) != 0) && (w1 & (1u16 << 1u16) != 0)
        == (w2 & (1u16 << 1u16) != 0) && (w1 & (1u16 << 4u16) != 0) == (w2 & (1u16 << 4u16) != 0)
        && (w1 & (1u16 << 10u16) != 0) == (w2 & (1u16 << 10u16) != 0) && (w1 & (1u16 << 11u16)
        != 0) == (w2 & (1u16 << 11u16) != 0) && (w1 & (1u16 << 13u16) != 0) == (w2 & (1u16
        << 13u16) != 0) && (w1 & (1u16 << 15u16) != 0) == (w2 & (1u16 << 15u16) != 0))
        by (bit_vector)
        requires
            w1 & 0xAC13 == w2 & 0xAC13,
    ;
}

/// What `parse_status` returns on the 3-byte status response: the decoded
/// word when the checksum matches, the status-tagged mismatch otherwise.
pub open spec fn spec_parse_status(s: Seq<u8>) -> Result<Status, SHTError> {
    if s[2] == crc8_of(s[0], s[1]) {
        Ok(spec_status_from_word(((s[0] as u16) * 256 + (s[1] as u16)) as u16))
    } else {
        Err(SHTError::InvalidStatusChecksumError {
            bytes_start: s[0],
            bytes_end: s[1],
            expected_checksum: s[2],
            calculated_checksum: crc8_of(s[0], s[1]),
        })
    }
}

/// Checks the checksum of a 3-byte status response and decodes its word.
pub fn parse_status(buffer: &Vec<u8>) -> (r: Result<Status, SHTError>)
    requires
        buffer@.len() == 3,
    ensures
        r == spec_parse_status(buffer@),
{
    let calculated = checksum(buffer[0], buffer[1]);
    if calculated != buffer[2] {
        return Err(SHTError::InvalidStatusChecksumError {
            bytes_start: buffer[0],
            bytes_end: buffer[1],
            expected_checksum: buffer[2],
            calculated_checksum: calculated,
        });
    }
    let word: u16 = (buffer[0] as u16) * 256 + (buffer[1] as u16);
    Ok(Status::from_bytes(word))
}

/// Repeated status reads are idempotent: the decoded flags are a pure
/// function of the response bytes, so two reads that the sensor answers
/// with the same bytes yield identical flags.
pub proof fn lemma_status_idempotent(first: Seq<u8>, second: Seq<u8>)
    requires
        first == second,
    ensures
        spec_parse_status(first) == spec_parse_status(second),
{
}

/// The raw reading a checksum-valid 6-byte response carries: each quantity is
/// the unsigned big-endian interpretation of its two payload bytes.
pub open spec fn spec_raw_reading(unit: TemperatureUnit, s: Seq<u8>) -> RawReading {
    RawReading {
        raw_temperature: ((s[0] as u16) * 256 + (s[1] as u16)) as u16,
        raw_humidity: ((s[3] as u16) * 256 + (s[4] as u16)) as u16,
        unit: unit,
    }
}

/// What `process_data` returns: the raw reading when both checksums match,
/// the first mismatch otherwise.
pub open spec fn spec_process_data(unit: TemperatureUnit, s: Seq<u8>) -> Result<
    RawReading,
    SHTError,
> {
    match spec_verify_reading(s) {
        Ok(_) => Ok(spec_raw_reading(unit, s)),
        Err(e) => Err(e),
    }
}

impl<Mode, Bus> SHT31<Mode, Bus> {
    /// The device configuration that every bus operation leaves alone.
    pub open spec fn same_device_config(self, other: Self) -> bool {
        &&& other.address == self.address
        &&& other.accuracy == self.accuracy
        &&& other.unit == self.unit
        &&& other.heater == self.heater
    }

    /// Verifies the two byte groups against their returned checksums.
    pub fn verify_data(buffer: [u8; 6]) -> (r: Result<(), SHTError>)
        ensures
            r == spec_verify_reading(buffer@),
    {
        verify_reading(buffer)
    }
}

impl<Bus, D> SHT31<SimpleSingleShot<D>, Bus> where Bus: I2cBus, D: DelayProvider {
    /// Create a new sensor handle in the retrying single-shot mode, with the
    /// default address, accuracy, unit and the heater off.
    pub fn new(i2c: Bus, delay: D) -> (r: Self)
        ensures
            r.mode == (SimpleSingleShot { max_retries: 8u8, ms_delay: 100u32, delay }),
            r.i2c == i2c,
            r.address == 0x44u8,
            r.unit == TemperatureUnit::Fahrenheit,
            r.accuracy == Accuracy::High,
            r.heater == false,
    {
        Self::simple_single_shot(i2c, SimpleSingleShot::new(delay))
    }

    pub fn simple_single_shot(i2c: Bus, mode: SimpleSingleShot<D>) -> (r: Self)
        ensures
            r.mode == mode,
            r.i2c == i2c,
            r.address == 0x44u8,
            r.unit == TemperatureUnit::Fahrenheit,
            r.accuracy == Accuracy::High,
            r.heater == false,
    {
        SHT31 {
            mode,
            i2c,
            address: DeviceAddr::default().byte(),
            unit: TemperatureUnit::default(),
            accuracy: Accuracy::default(),
            heater: false,
        }
    }
}

impl<Bus> SHT31<Periodic, Bus> where Bus: I2cBus {
    /// Create a new sensor handle in the periodic mode, with the default
    /// address, accuracy, unit and the heater off.
    pub fn periodic(i2c: Bus, mode: Periodic) -> (r: SHT31<Periodic, Bus>)
        ensures
            r.mode == mode,
            r.i2c == i2c,
            r.address == 0x44u8,
            r.unit == TemperatureUnit::Fahrenheit,
            r.accuracy == Accuracy::High,
            r.heater == false,
    {
        SHT31 {
            mode,
            i2c,
            address: DeviceAddr::default().byte(),
            unit: TemperatureUnit::default(),
            accuracy: Accuracy::default(),
            heater: false,
        }
    }
}

impl<Bus> SHT31<SingleShot, Bus> where Bus: I2cBus {
    /// Create a new sensor handle in the immediate single-shot mode, with the
    /// default address, accuracy, unit and the heater off.
    pub fn single_shot(i2c: Bus, mode: SingleShot) -> (r: SHT31<SingleShot, Bus>)
        ensures
            r.mode == mode,
            r.i2c == i2c,
            r.address == 0x44u8,
            r.unit == TemperatureUnit::Fahrenheit,
            r.accuracy == Accuracy::High,
            r.heater == false,
    {
        SHT31 {
            mode,
            i2c,
            address: DeviceAddr::default().byte(),
            unit: TemperatureUnit::default(),
            accuracy: Accuracy::default(),
            heater: false,
        }
    }
}

impl<Mode, Bus> SHT31<Mode, Bus> where Bus: I2cBus {
    /// Changes the acquisition mode. The heater flag is always reset: after a
    /// mode change the caller must explicitly re-enable heating.
    pub fn with_mode<NewMode>(self, mode: NewMode) -> (r: SHT31<NewMode, Bus>)
        ensures
            r.mode == mode,
            r.i2c == self.i2c,
            r.address == self.address,
            r.accuracy == self.accuracy,
            r.unit == self.unit,
            r.heater == false,
    {
        SHT31 {
            mode,
            i2c: self.i2c,
            address: self.address,
            accuracy: self.accuracy,
            unit: self.unit,
            heater: false,
        }
    }

    /// Change the sensor's temperature unit.
    pub fn set_unit(&mut self, unit: TemperatureUnit)
        ensures
            final(self).unit == unit,
            final(self).mode == old(self).mode,
            final(self).i2c == old(self).i2c,
            final(self).address == old(self).address,
            final(self).accuracy == old(self).accuracy,
            final(self).heater == old(self).heater,
    {
        self.unit = unit;
    }

    /// Change the sensor's temperature unit.
    pub fn with_unit(self, unit: TemperatureUnit) -> (r: Self)
        ensures
            r.unit == unit,
            r.mode == self.mode,
            r.i2c == self.i2c,
            r.address == self.address,
            r.accuracy == self.accuracy,
            r.heater == self.heater,
    {
        let mut s = self;
        s.set_unit(unit);
        s
    }

    /// Change the sensor's accuracy, which also influences how long a
    /// measurement takes.
    pub fn set_accuracy(&mut self, accuracy: Accuracy)
        ensures
            final(self).accuracy == accuracy,
            final(self).mode == old(self).mode,
            final(self).i2c == old(self).i2c,
            final(self).address == old(self).address,
            final(self).unit == old(self).unit,
            final(self).heater == old(self).heater,
    {
        self.accuracy = accuracy;
    }

    /// Change the sensor's accuracy, which also influences how long a
    /// measurement takes.
    pub fn with_accuracy(self, accuracy: Accuracy) -> (r: Self)
        ensures
            r.accuracy == accuracy,
            r.mode == self.mode,
            r.i2c == self.i2c,
            r.address == self.address,
            r.unit == self.unit,
            r.heater == self.heater,
    {
        let mut s = self;
        s.set_accuracy(accuracy);
        s
    }

    /// Change the sensor's bus address.
    pub fn with_address(self, address: DeviceAddr) -> (r: Self)
        ensures
            r.address == address.spec_byte(),
            r.mode == self.mode,
            r.i2c == self.i2c,
            r.accuracy == self.accuracy,
            r.unit == self.unit,
            r.heater == self.heater,
    {
        let mut s = self;
        s.address = address.byte();
        s
    }

    /// Set the heater's heating state. The in-memory flag follows the device:
    /// it changes only once the write has succeeded, so a failed write leaves
    /// it on the old state.
    pub fn set_heating(&mut self, heating: bool) -> (r: Result<(), SHTError>)
        ensures
            final(self).mode == old(self).mode,
            final(self).address == old(self).address,
            final(self).accuracy == old(self).accuracy,
            final(self).unit == old(self).unit,
            r is Ok ==> final(self).heater == heating,
            r matches Err(e) ==> e == SHTError::WriteI2CError && final(self).heater == old(
                self,
            ).heater,
    {
        match self.switch_heater(heating) {
            Ok(_) => {
                self.heater = heating;
                Ok(())
            },
            Err(e) => Err(e),
        }
    }

    /// Enables the onboard heater.
    pub fn with_heating(self) -> (r: Result<Self, SHTError>)
        ensures
            r matches Ok(s) ==> s.heater == true && s.mode == self.mode && s.address
                == self.address && s.accuracy == self.accuracy && s.unit == self.unit,
            r matches Err(e) ==> e == SHTError::WriteI2CError,
    {
        let mut s = self;
        match s.set_heating(true) {
            Ok(_) => Ok(s),
            Err(e) => Err(e),
        }
    }

    pub fn address(&self) -> (r: u8)
        ensures
            r == self.address,
    {
        self.address
    }

    /// Switch the heater on or off: the device write alone, without touching
    /// the in-memory flag.
    fn switch_heater(&mut self, on: bool) -> (r: Result<(), SHTError>)
        ensures
            old(self).same_device_config(*final(self)),
            final(self).mode == old(self).mode,
            r matches Err(e) ==> e == SHTError::WriteI2CError,
    {
        let cmd = device_command(
            if on {
                DeviceCommand::HeaterOn
            } else {
                DeviceCommand::HeaterOff
            },
        );
        let bytes = vec![cmd.0, cmd.1];
        self.i2c_write(&bytes)
    }

    /// Cancel the currently running command; necessary when transitioning
    /// between single-shot and periodic acquisition.
    pub fn break_command(&mut self) -> (r: Result<(), SHTError>)
        ensures
            old(self).same_device_config(*final(self)),
            final(self).mode == old(self).mode,
            r matches Err(e) ==> e == SHTError::WriteI2CError,
    {
        let cmd = device_command(DeviceCommand::Break);
        let bytes = vec![cmd.0, cmd.1];
        self.i2c_write(&bytes)
    }

    /// Trigger a soft reset.
    pub fn soft_reset(&mut self) -> (r: Result<(), SHTError>)
        ensures
            old(self).same_device_config(*final(self)),
            final(self).mode == old(self).mode,
            r matches Err(e) ==> e == SHTError::WriteI2CError,
    {
        let cmd = device_command(DeviceCommand::SoftReset);
        let bytes = vec![cmd.0, cmd.1];
        self.i2c_write(&bytes)
    }

    /// Triggers a bus-wide general reset; every device on the line resets.
    pub fn reset(&mut self) -> (r: Result<(), SHTError>)
        ensures
            old(self).same_device_config(*final(self)),
            final(self).mode == old(self).mode,
            r matches Err(e) ==> e == SHTError::WriteI2CError,
    {
        let cmd = device_command(DeviceCommand::GeneralReset);
        let bytes = vec![cmd.0, cmd.1];
        self.i2c_write(&bytes)
    }

    /// Read the sensor's status: a 3-byte combined write-read, verified
    /// against its checksum and decoded into named flags. Whatever the bus
    /// hands back, the result is `parse_status` of exactly those bytes, so
    /// unchanged sensor state gives unchanged flags.
    pub fn status(&mut self) -> (r: Result<Status, SHTError>)
        ensures
            old(self).same_device_config(*final(self)),
            final(self).mode == old(self).mode,
            r matches Err(e) ==> e == SHTError::WriteReadI2CError
                || e is InvalidStatusChecksumError,
    {
        let cmd = device_command(DeviceCommand::ReadStatus);
        let bytes = vec![cmd.0, cmd.1];
        let mut buffer = vec![0u8; response_len(DeviceCommand::ReadStatus)];
        match self.i2c_write_read(&bytes, &mut buffer) {
            Ok(_) => {},
            Err(e) => {
                return Err(e);
            },
        }
        parse_status(&buffer)
    }

    /// Clear all status registers. Redundant clears are safe: each is a
    /// single fire-and-forget write that fails only on a transport fault.
    pub fn clear_status(&mut self) -> (r: Result<(), SHTError>)
        ensures
            old(self).same_device_config(*final(self)),
            final(self).mode == old(self).mode,
            r matches Err(e) ==> e == SHTError::WriteI2CError,
    {
        let cmd = device_command(DeviceCommand::ClearStatus);
        let bytes = vec![cmd.0, cmd.1];
        self.i2c_write(&bytes)
    }

    /// Consumes the handle and returns the bus.
    pub fn destroy(self) -> (r: Bus)
        ensures
            r == self.i2c,
    {
        self.i2c
    }

    pub(crate) fn i2c_write(&mut self, bytes: &Vec<u8>) -> (r: Result<(), SHTError>)
        ensures
            old(self).same_device_config(*final(self)),
            final(self).mode == old(self).mode,
            r matches Err(e) ==> e == SHTError::WriteI2CError,
    {
        match self.i2c.write(self.address, bytes) {
            Ok(_) => Ok(()),
            Err(_) => Err(SHTError::WriteI2CError),
        }
    }

    pub(crate) fn i2c_read(&mut self, buffer: &mut Vec<u8>) -> (r: Result<(), SHTError>)
        ensures
            old(self).same_device_config(*final(self)),
            final(self).mode == old(self).mode,
            r is Ok ==> final(buffer)@.len() == old(buffer)@.len(),
            r matches Err(e) ==> e == SHTError::ReadI2CError,
    {
        match self.i2c.read(self.address, buffer) {
            Ok(_) => Ok(()),
            Err(_) => Err(SHTError::ReadI2CError),
        }
    }

    pub(crate) fn i2c_write_read(&mut self, bytes: &Vec<u8>, buffer: &mut Vec<u8>) -> (r: Result<
        (),
        SHTError,
    >)
        ensures
            old(self).same_device_config(*final(self)),
            final(self).mode == old(self).mode,
            r is Ok ==> final(buffer)@.len() == old(buffer)@.len(),
            r matches Err(e) ==> e == SHTError::WriteReadI2CError,
    {
        match self.i2c.write_read(self.address, bytes, buffer) {
            Ok(_) => Ok(()),
            Err(_) => Err(SHTError::WriteReadI2CError),
        }
    }

    /// Verifies a 6-byte response and extracts the raw register values:
    /// temperature from the first group, humidity from the second, each as
    /// the unsigned big-endian interpretation of its two payload bytes.
    pub fn process_data(&self, buffer: [u8; 6]) -> (r: Result<RawReading, SHTError>)
        ensures
            r == spec_process_data(self.unit, buffer@),
            r is Ok <==> reading_valid(buffer@),
    {
        match Self::verify_data(buffer) {
            Ok(_) => {},
            Err(e) => {
                return Err(e);
            },
        }
        let raw_temperature: u16 = (buffer[0] as u16) * 256 + (buffer[1] as u16);
        let raw_humidity: u16 = (buffer[3] as u16) * 256 + (buffer[4] as u16);
        Ok(RawReading { raw_temperature, raw_humidity, unit: self.unit })
    }
}

} // verus!
