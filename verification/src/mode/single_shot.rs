use vstd::prelude::*;

use crate::error::SHTError;
use crate::transport::I2cBus;
use crate::{Accuracy, RawReading, SHT31};

verus! {

/// Immediate single-shot acquisition: `measure` issues a fresh measurement
/// command, and `read` attempts to fetch the result exactly once, failing
/// immediately if the sensor has not finished converting.
#[derive(Copy, Clone, Debug, PartialEq, Eq, Structural)]
pub struct SingleShot {}

impl SingleShot {
    pub fn new() -> (r: Self)
        ensures
            r == (SingleShot {  }),
    {
        SingleShot {  }
    }
}

impl Default for SingleShot {
    fn default() -> (r: Self)
        ensures
            r == (SingleShot {  }),
    {
        SingleShot {  }
    }
}

/// The second command byte of a single-shot measurement, keyed by accuracy;
/// the first byte is always 0x24.
pub open spec fn spec_single_shot_lsb(accuracy: Accuracy) -> u8 {
    match accuracy {
        Accuracy::High => 0x00,
        Accuracy::Medium => 0x0B,
        Accuracy::Low => 0x16,
    }
}

/// Encodes the single-shot measurement command for the given accuracy.
pub fn single_shot_command(accuracy: Accuracy) -> (r: (u8, u8))
    ensures
        r == (0x24u8, spec_single_shot_lsb(accuracy)),
{
    let lsb: u8 = match accuracy {
        Accuracy::High => 0x00,
        Accuracy::Medium => 0x0B,
        Accuracy::Low => 0x16,
    };
    (0x24, lsb)
}

/// One plain 6-byte fetch: read, verify both checksums, and split into raw
/// register values. Shared by the immediate and the retrying single-shot
/// modes.
pub(crate) fn single_shot_read<Mode, Bus: I2cBus>(sensor: &mut SHT31<Mode, Bus>) -> (r: Result<
    RawReading,
    SHTError,
>)
    ensures
        old(sensor).same_device_config(*final(sensor)),
        final(sensor).mode == old(sensor).mode,
        r matches Ok(reading) ==> reading.unit == old(sensor).unit,
        r matches Err(e) ==> e == SHTError::ReadI2CError || e is InvalidTemperatureChecksumError
            || e is InvalidHumidityChecksumError,
{
    let mut buffer = vec![0u8, 0, 0, 0, 0, 0];
    match sensor.i2c_read(&mut buffer) {
        Ok(_) => {},
        Err(e) => {
            return Err(e);
        },
    }
    let data: [u8; 6] = [buffer[0], buffer[1], buffer[2], buffer[3], buffer[4], buffer[5]];
    sensor.process_data(data)
}

impl<Bus> SHT31<SingleShot, Bus> where Bus: I2cBus {
    /// Commence measuring: a single write of the command keyed by accuracy.
    pub fn measure(&mut self) -> (r: Result<(), SHTError>)
        ensures
            old(self).same_device_config(*final(self)),
            final(self).mode == old(self).mode,
            r matches Err(e) ==> e == SHTError::WriteI2CError,
    {
        let cmd = single_shot_command(self.accuracy);
        let bytes = vec![cmd.0, cmd.1];
        self.i2c_write(&bytes)
    }

    /// Try reading once; if the reading is not available yet, return the
    /// failure immediately. The mode contract is "try once, report whatever
    /// the sensor gives".
    pub fn read(&mut self) -> (r: Result<RawReading, SHTError>)
        ensures
            old(self).same_device_config(*final(self)),
            final(self).mode == old(self).mode,
            r matches Ok(reading) ==> reading.unit == old(self).unit,
            r matches Err(e) ==> e == SHTError::ReadI2CError
                || e is InvalidTemperatureChecksumError || e is InvalidHumidityChecksumError,
    {
        single_shot_read(self)
    }
}

} // verus!
