use vstd::prelude::*;

use crate::error::SHTError;
use crate::transport::I2cBus;
use crate::{device_command, response_len, Accuracy, DeviceCommand, RawReading, SHT31};

verus! {

/// Periodic acquisition: the sensor produces measurements internally at a
/// configured cadence, and a read fetches the last available one.
#[derive(Copy, Clone, Debug, PartialEq, Eq, Structural)]
pub struct Periodic {
    pub mps: MPS,
    pub art: bool,
}

/// Measurements per second of the periodic mode.
#[derive(Copy, Clone, Debug, PartialEq, Eq, Structural)]
pub enum MPS {
    Half,
    Normal,
    Double,
    X4,
    X10,
}

impl Default for MPS {
    fn default() -> (r: Self)
        ensures
            r == MPS::Normal,
    {
        MPS::Normal
    }
}

impl Periodic {
    pub fn new() -> (r: Self)
        ensures
            r.mps == MPS::Normal,
            r.art == false,
    {
        Periodic { mps: MPS::Normal, art: false }
    }

    /// Sets the measurements per second for the periodic readings.
    /// NOTE: the higher the frequency, the less accurate the readings.
    pub fn set_mps(&mut self, mps: MPS)
        ensures
            final(self).mps == mps,
            final(self).art == old(self).art,
    {
        self.mps = mps;
    }

    /// Sets the measurements per second for the periodic readings.
    /// NOTE: the higher the frequency, the less accurate the readings.
    pub fn with_mps(self, mps: MPS) -> (r: Self)
        ensures
            r.mps == mps,
            r.art == self.art,
    {
        let mut s = self;
        s.set_mps(mps);
        s
    }

    /// Enables accelerated response time: data evaluated at a fixed 4 Hz,
    /// overriding frequency and accuracy.
    pub fn set_art(&mut self)
        ensures
            final(self).art == true,
            final(self).mps == old(self).mps,
    {
        self.art = true;
    }

    /// Enables accelerated response time: data evaluated at a fixed 4 Hz,
    /// overriding frequency and accuracy.
    pub fn with_art(self) -> (r: Self)
        ensures
            r.art == true,
            r.mps == self.mps,
    {
        let mut s = self;
        s.set_art();
        s
    }
}

impl Default for Periodic {
    fn default() -> (r: Self)
        ensures
            r.mps == MPS::Normal,
            r.art == false,
    {
        Periodic::new()
    }
}

/// The two command bytes that start periodic acquisition. With accelerated
/// response the command is the fixed pair (0x2B, 0x32) whatever the other
/// settings; otherwise the first byte is keyed by the frequency and the
/// second by (frequency, accuracy).
pub open spec fn spec_periodic_command(mps: MPS, art: bool, accuracy: Accuracy) -> (u8, u8) {
    if art {
        (0x2B, 0x32)
    } else {
        let msb: u8 = match mps {
            MPS::Half => 0x20,
            MPS::Normal => 0x21,
            MPS::Double => 0x22,
            MPS::X4 => 0x23,
            MPS::X10 => 0x27,
        };
        let lsb: u8 = match mps {
            MPS::Half => match accuracy {
                Accuracy::High => 0x32,
                Accuracy::Medium => 0x24,
                Accuracy::Low => 0x2F,
            },
            MPS::Normal => match accuracy {
                Accuracy::High => 0x30,
                Accuracy::Medium => 0x26,
                Accuracy::Low => 0x2D,
            },
            MPS::Double => match accuracy {
                Accuracy::High => 0x36,
                Accuracy::Medium => 0x20,
                Accuracy::Low => 0x2B,
            },
            MPS::X4 => match accuracy {
                Accuracy::High => 0x34,
                Accuracy::Medium => 0x22,
                Accuracy::Low => 0x29,
            },
            MPS::X10 => match accuracy {
                Accuracy::High => 0x37,
                Accuracy::Medium => 0x21,
                Accuracy::Low => 0x2A,
            },
        };
        (msb, lsb)
    }
}

/// Encodes the periodic start command for the given settings.
pub fn periodic_command(mps: MPS, art: bool, accuracy: Accuracy) -> (r: (u8, u8))
    ensures
        r == spec_periodic_command(mps, art, accuracy),
{
    if art {
        (0x2B, 0x32)
    } else {
        let msb: u8 = match mps {
            MPS::Half => 0x20,
            MPS::Normal => 0x21,
            MPS::Double => 0x22,
            MPS::X4 => 0x23,
            MPS::X10 => 0x27,
        };
        let lsb: u8 = match mps {
            MPS::Half => match accuracy {
                Accuracy::High => 0x32,
                Accuracy::Medium => 0x24,
                Accuracy::Low => 0x2F,
            },
            MPS::Normal => match accuracy {
                Accuracy::High => 0x30,
                Accuracy::Medium => 0x26,
                Accuracy::Low => 0x2D,
            },
            MPS::Double => match accuracy {
                Accuracy::High => 0x36,
                Accuracy::Medium => 0x20,
                Accuracy::Low => 0x2B,
            },
            MPS::X4 => match accuracy {
                Accuracy::High => 0x34,
                Accuracy::Medium => 0x22,
                Accuracy::Low => 0x29,
            },
            MPS::X10 => match accuracy {
                Accuracy::High => 0x37,
                Accuracy::Medium => 0x21,
                Accuracy::Low => 0x2A,
            },
        };
        (msb, lsb)
    }
}

impl<Bus> SHT31<Periodic, Bus> where Bus: I2cBus {
    /// Starts the periodic measuring mode: a single write of the command
    /// encoded from the configured frequency, accelerated response and
    /// accuracy. Returns as soon as the write succeeds, without waiting for
    /// the first sample. A break command must be issued before transitioning
    /// to another measuring style.
    pub fn measure(&mut self) -> (r: Result<(), SHTError>)
        ensures
            old(self).same_device_config(*final(self)),
            final(self).mode == old(self).mode,
            r matches Err(e) ==> e == SHTError::WriteI2CError,
    {
        let cmd = periodic_command(self.mode.mps, self.mode.art, self.accuracy);
        let bytes = vec![cmd.0, cmd.1];
        self.i2c_write(&bytes)
    }

    /// Fetches the last available measurement: a combined write-read of the
    /// fixed fetch command, checksum-verified and split into raw register
    /// values. Calling this before `measure` is a caller error that shows up
    /// as a checksum or garbage-data failure from the sensor.
    pub fn read(&mut self) -> (r: Result<RawReading, SHTError>)
        ensures
            old(self).same_device_config(*final(self)),
            final(self).mode == old(self).mode,
            r matches Ok(reading) ==> reading.unit == old(self).unit,
            r matches Err(e) ==> e == SHTError::WriteReadI2CError
                || e is InvalidTemperatureChecksumError || e is InvalidHumidityChecksumError,
    {
        let cmd = device_command(DeviceCommand::FetchReading);
        let bytes = vec![cmd.0, cmd.1];
        let mut buffer = vec![0u8; response_len(DeviceCommand::FetchReading)];
        match self.i2c_write_read(&bytes, &mut buffer) {
            Ok(_) => {},
            Err(e) => {
                return Err(e);
            },
        }
        let data: [u8; 6] = [buffer[0], buffer[1], buffer[2], buffer[3], buffer[4], buffer[5]];
        self.process_data(data)
    }
}

} // verus!
