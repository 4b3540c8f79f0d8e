use vstd::prelude::*;

verus! {

/// Every failure the driver can report. Transport failures carry no detail
/// (the bus is a black box); checksum failures carry the two data bytes, the
/// checksum the device sent and the one computed here, tagged by which
/// quantity failed, so a caller can tell the three sites apart.
#[derive(Copy, Clone, Debug, PartialEq, Eq, Structural)]
pub enum SHTError {
    ReadI2CError,
    WriteReadI2CError,
    WriteI2CError,
    InvalidHumidityChecksumError {
        bytes_start: u8,
        bytes_end: u8,
        expected_checksum: u8,
        calculated_checksum: u8,
    },
    InvalidTemperatureChecksumError {
        bytes_start: u8,
        bytes_end: u8,
        expected_checksum: u8,
        calculated_checksum: u8,
    },
    InvalidStatusChecksumError {
        bytes_start: u8,
        bytes_end: u8,
        expected_checksum: u8,
        calculated_checksum: u8,
    },
    ReadingTimeoutError,
    PlaceholderError,
}

} // verus!
