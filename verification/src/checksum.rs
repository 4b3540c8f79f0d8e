use vstd::prelude::*;

use crate::error::SHTError;

verus! {

/// The 8-bit CRC the sensor appends to every 2-byte register payload
/// (polynomial 0x31, initial value 0xFF, no reflection, no final XOR).
/// The value depends on the two input bytes alone.
pub uninterp spec fn crc8_of(msb: u8, lsb: u8) -> u8;

/// Relies on the crc crate's `Crc::checksum` with the catalogued CRC-8/NRSC-5
/// algorithm (polynomial 0x31, init 0xFF, no reflection, no final XOR): a pure
/// table-driven digest of the two bytes fed to it.
#[verifier::external_body]
fn crc8(msb: u8, lsb: u8) -> (r: u8)
    ensures
        r == crc8_of(msb, lsb),
{
    crc::Crc::<u8>::new(&crc::CRC_8_NRSC_5).checksum(&[msb, lsb])
}

/// Computes the checksum the sensor would append to the payload `[msb, lsb]`.
pub fn checksum(msb: u8, lsb: u8) -> (r: u8)
    ensures
        r == crc8_of(msb, lsb),
{
    crc8(msb, lsb)
}

/// The temperature group of a 6-byte response carries a valid checksum.
pub open spec fn temperature_group_valid(s: Seq<u8>) -> bool {
    s[2] == crc8_of(s[0], s[1])
}

/// The humidity group of a 6-byte response carries a valid checksum.
pub open spec fn humidity_group_valid(s: Seq<u8>) -> bool {
    s[5] == crc8_of(s[3], s[4])
}

/// Both groups of a 6-byte response carry valid checksums.
pub open spec fn reading_valid(s: Seq<u8>) -> bool {
    temperature_group_valid(s) && humidity_group_valid(s)
}

/// What `verify_reading` returns on a 6-byte response: the temperature group
/// is checked first, so a response corrupt in both groups reports the
/// temperature mismatch.
pub open spec fn spec_verify_reading(s: Seq<u8>) -> Result<(), SHTError> {
    if !temperature_group_valid(s) {
        Err(SHTError::InvalidTemperatureChecksumError {
            bytes_start: s[0],
            bytes_end: s[1],
            expected_checksum: s[2],
            calculated_checksum: crc8_of(s[0], s[1]),
        })
    } else if !humidity_group_valid(s) {
        Err(SHTError::InvalidHumidityChecksumError {
            bytes_start: s[3],
            bytes_end: s[4],
            expected_checksum: s[5],
            calculated_checksum: crc8_of(s[3], s[4]),
        })
    } else {
        Ok(())
    }
}

/// Splits a 6-byte response into its temperature and humidity groups and
/// checks each group's third byte against the checksum of its first two.
pub fn verify_reading(buffer: [u8; 6]) -> (r: Result<(), SHTError>)
    ensures
        r == spec_verify_reading(buffer@),
        r is Ok <==> reading_valid(buffer@),
{
    let temp_result = checksum(buffer[0], buffer[1]);
    if temp_result != buffer[2] {
        return Err(SHTError::InvalidTemperatureChecksumError {
            bytes_start: buffer[0],
            bytes_end: buffer[1],
            expected_checksum: buffer[2],
            calculated_checksum: temp_result,
        });
    }
    let humidity_result = checksum(buffer[3], buffer[4]);
    if humidity_result != buffer[5] {
        return Err(SHTError::InvalidHumidityChecksumError {
            bytes_start: buffer[3],
            bytes_end: buffer[4],
            expected_checksum: buffer[5],
            calculated_checksum: humidity_result,
        });
    }
    Ok(())
}

/// A response assembled from two payloads and their own checksums always
/// verifies, whatever the payload bytes are.
pub proof fn lemma_assembled_reading_verifies(a: u8, b: u8, c: u8, d: u8)
    ensures
        reading_valid(seq![a, b, crc8_of(a, b), c, d, crc8_of(c, d)]),
        spec_verify_reading(seq![a, b, crc8_of(a, b), c, d, crc8_of(c, d)]) is Ok,
{
}

/// Corrupting a single byte of a valid response, where the corruption does
/// not collide with the group's checksum, is reported against the right
/// group: one of the first three bytes as a temperature mismatch, one of the
/// last three as a humidity mismatch.
pub proof fn lemma_corrupted_byte_tagged(s: Seq<u8>, t: Seq<u8>, i: int)
    requires
        s.len() == 6,
        t.len() == 6,
        reading_valid(s),
        0 <= i < 6,
        forall|j: int| 0 <= j < 6 && j != i ==> t[j] == s[j],
        !reading_valid(t),
    ensures
        0 <= i < 3 ==> (spec_verify_reading(t) matches Err(e)
            && e is InvalidTemperatureChecksumError),
        3 <= i < 6 ==> (spec_verify_reading(t) matches Err(e)
            && e is InvalidHumidityChecksumError),
{
}

} // verus!
