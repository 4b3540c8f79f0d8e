use vstd::prelude::*;

use crate::error::SHTError;
use crate::mode::single_shot::single_shot_read;
use crate::transport::{DelayProvider, I2cBus};
use crate::{Accuracy, RawReading, SHT31};

verus! {

/// Retrying single-shot acquisition: a read blocks, retrying on a delay,
/// until a measurement is obtained or the retries are exhausted.
#[derive(Copy, Clone, Debug)]
pub struct SimpleSingleShot<D: DelayProvider> {
    pub max_retries: u8,
    pub ms_delay: u32,
    pub delay: D,
}

impl<D> SimpleSingleShot<D> where D: DelayProvider {
    pub fn new(delay: D) -> (r: Self)
        ensures
            r.max_retries == 8u8,
            r.ms_delay == 100u32,
            r.delay == delay,
    {
        SimpleSingleShot { max_retries: 8, ms_delay: 100, delay }
    }

    /// Sets the max number of read attempts before giving up.
    pub fn set_max_retries(&mut self, max_retries: u8)
        ensures
            final(self).max_retries == max_retries,
            final(self).ms_delay == old(self).ms_delay,
            final(self).delay == old(self).delay,
    {
        self.max_retries = max_retries;
    }

    /// Sets the max number of read attempts before giving up.
    pub fn with_max_retries(self, max_retries: u8) -> (r: Self)
        ensures
            r.max_retries == max_retries,
            r.ms_delay == self.ms_delay,
            r.delay == self.delay,
    {
        let mut s = self;
        s.set_max_retries(max_retries);
        s
    }

    /// Sets the millisecond delay between attempts.
    pub fn set_delay(&mut self, ms_delay: u32)
        ensures
            final(self).ms_delay == ms_delay,
            final(self).max_retries == old(self).max_retries,
            final(self).delay == old(self).delay,
    {
        self.ms_delay = ms_delay;
    }

    /// Sets the millisecond delay between attempts.
    pub fn with_delay(self, ms_delay: u32) -> (r: Self)
        ensures
            r.ms_delay == ms_delay,
            r.max_retries == self.max_retries,
            r.delay == self.delay,
    {
        let mut s = self;
        s.set_delay(ms_delay);
        s
    }
}

/// The second command byte of a retrying single-shot measurement, keyed by
/// accuracy; the first byte is always 0x2C.
pub open spec fn spec_retry_lsb(accuracy: Accuracy) -> u8 {
    match accuracy {
        Accuracy::High => 0x06,
        Accuracy::Medium => 0x0D,
        Accuracy::Low => 0x10,
    }
}

/// Encodes the retrying single-shot measurement command for the given
/// accuracy.
pub fn retry_command(accuracy: Accuracy) -> (r: (u8, u8))
    ensures
        r == (0x2Cu8, spec_retry_lsb(accuracy)),
{
    let lsb: u8 = match accuracy {
        Accuracy::High => 0x06,
        Accuracy::Medium => 0x0D,
        Accuracy::Low => 0x10,
    };
    (0x2C, lsb)
}

impl<Bus, D> SHT31<SimpleSingleShot<D>, Bus> where Bus: I2cBus, D: DelayProvider {
    /// Writes the measure command once, then attempts a plain read up to
    /// `max_retries` times, sleeping `ms_delay` milliseconds after each
    /// failed attempt but never after the last; the final attempt's failure
    /// is returned as it came. With zero retries the write happens but no
    /// read is ever attempted, and the placeholder failure signals the
    /// misconfiguration.
    pub fn read(&mut self) -> (r: Result<RawReading, SHTError>)
        ensures
            old(self).same_device_config(*final(self)),
            final(self).mode.max_retries == old(self).mode.max_retries,
            final(self).mode.ms_delay == old(self).mode.ms_delay,
            r matches Ok(reading) ==> reading.unit == old(self).unit,
            old(self).mode.max_retries == 0 ==> r == Err::<RawReading, SHTError>(
                SHTError::WriteI2CError,
            ) || r == Err::<RawReading, SHTError>(SHTError::PlaceholderError),
            r matches Err(e) ==> e == SHTError::WriteI2CError || e == SHTError::PlaceholderError
                || e == SHTError::ReadI2CError || e is InvalidTemperatureChecksumError
                || e is InvalidHumidityChecksumError,
    {
        let cmd = retry_command(self.accuracy);
        let bytes = vec![cmd.0, cmd.1];
        match self.i2c_write(&bytes) {
            Ok(_) => {},
            Err(e) => {
                return Err(e);
            },
        }
        let mut read_attempt: Result<RawReading, SHTError> = Err(SHTError::PlaceholderError);
        let max_retries = self.mode.max_retries;
        let mut attempt: u8 = 0;
        while attempt < max_retries
            invariant
                attempt <= max_retries,
                old(self).same_device_config(*self),
                self.mode.max_retries == old(self).mode.max_retries,
                self.mode.ms_delay == old(self).mode.ms_delay,
                max_retries == old(self).mode.max_retries,
                max_retries == 0 ==> read_attempt == Err::<RawReading, SHTError>(
                    SHTError::PlaceholderError,
                ),
                read_attempt matches Err(e) ==> e == SHTError::PlaceholderError || e
                    == SHTError::ReadI2CError || e is InvalidTemperatureChecksumError
                    || e is InvalidHumidityChecksumError,
                read_attempt matches Ok(reading) ==> reading.unit == old(self).unit,
            decreases max_retries - attempt,
        {
            read_attempt = single_shot_read(self);
            if read_attempt.is_err() {
                if attempt + 1 < max_retries {
                    let ms = self.mode.ms_delay;
                    self.mode.delay.delay_ms(ms);
                }
            } else {
                return read_attempt;
            }
            attempt = attempt + 1;
        }
        read_attempt
    }
}

} // verus!
