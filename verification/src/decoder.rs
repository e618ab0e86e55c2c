//! Reads the fields out of a response frame and holds them against what is
//! expected.

use vstd::prelude::*;

verus! {

/// Major version of the firmware that the supported device runs.
pub const EXPECTED_MAJOR: u8 = 1;

/// Minor version of the firmware that the supported device runs.
pub const EXPECTED_MINOR: u8 = 10;

/// How many leading bytes of a response the firmware version takes.
pub const VERSION_FIELDS: usize = 2;

/// A firmware version, as the device reports it.
#[derive(Clone, Copy, Debug, PartialEq, Eq, Structural)]
pub struct FirmwareVersion {
    pub major: u8,
    pub minor: u8,
}

/// Why a response could not be accepted. Neither case is a fault of the
/// link: the bytes arrived, and are not what they should be.
#[allow(inconsistent_fields)]
#[derive(Clone, Copy, Debug, PartialEq, Eq, Structural)]
pub enum DecodeError {
    /// The response does not have the length that was expected.
    ResponseLengthMismatch { expected: usize, found: usize },
    /// The device reports another firmware version than the expected one.
    VersionMismatch { expected: FirmwareVersion, found: FirmwareVersion },
}

impl FirmwareVersion {
    /// The version that the supported device reports.
    pub open spec fn expected() -> FirmwareVersion {
        FirmwareVersion { major: EXPECTED_MAJOR, minor: EXPECTED_MINOR }
    }

    /// The version that the supported device reports.
    pub fn of_supported_device() -> (version: FirmwareVersion)
        ensures
            version == FirmwareVersion::expected(),
    {
        FirmwareVersion { major: EXPECTED_MAJOR, minor: EXPECTED_MINOR }
    }

    /// What holding `self` against `expected` yields.
    pub open spec fn verdict(self, expected: FirmwareVersion) -> Result<(), DecodeError> {
        if self == expected {
            Ok(())
        } else {
            Err(DecodeError::VersionMismatch { expected, found: self })
        }
    }

    /// Holds the version against the expected one.
    pub fn verify(self, expected: FirmwareVersion) -> (result: Result<(), DecodeError>)
        ensures
            result == self.verdict(expected),
    {
        if self.major == expected.major && self.minor == expected.minor {
            Ok(())
        } else {
            Err(DecodeError::VersionMismatch { expected, found: self })
        }
    }
}

/// What checking a response's length yields.
pub open spec fn length_verdict(found: nat, expected: usize) -> Result<(), DecodeError> {
    if found == expected {
        Ok(())
    } else {
        Err(DecodeError::ResponseLengthMismatch { expected, found: found as usize })
    }
}

/// Checks that a response has exactly the length the caller expects.
pub fn check_length(response: &[u8], expected_len: usize) -> (result: Result<(), DecodeError>)
    ensures
        result == length_verdict(response@.len(), expected_len),
{
    if response.len() == expected_len {
        Ok(())
    } else {
        Err(DecodeError::ResponseLengthMismatch { expected: expected_len, found: response.len() })
    }
}

/// The firmware version that a response of the expected length carries:
/// byte 0 is the major version, byte 1 the minor. A response of another
/// length carries none, nor does one too short to hold both fields.
pub open spec fn firmware_version_in(response: Seq<u8>, expected_len: usize) -> Result<
    FirmwareVersion,
    DecodeError,
> {
    if response.len() != expected_len {
        Err(
            DecodeError::ResponseLengthMismatch {
                expected: expected_len,
                found: response.len() as usize,
            },
        )
    } else if response.len() < VERSION_FIELDS {
        Err(
            DecodeError::ResponseLengthMismatch {
                expected: VERSION_FIELDS,
                found: response.len() as usize,
            },
        )
    } else {
        Ok(FirmwareVersion { major: response[0], minor: response[1] })
    }
}

/// Decodes the response to the firmware query.
pub fn decode_firmware_version(response: &[u8], expected_len: usize) -> (result: Result<
    FirmwareVersion,
    DecodeError,
>)
    ensures
        result == firmware_version_in(response@, expected_len),
{
    match check_length(response, expected_len) {
        Err(error) => Err(error),
        Ok(()) => if response.len() < VERSION_FIELDS {
            Err(
                DecodeError::ResponseLengthMismatch {
                    expected: VERSION_FIELDS,
                    found: response.len(),
                },
            )
        } else {
            Ok(FirmwareVersion { major: response[0], minor: response[1] })
        },
    }
}

/// What decoding a response and holding its version against `expected` yields.
pub open spec fn firmware_verdict(
    response: Seq<u8>,
    expected_len: usize,
    expected: FirmwareVersion,
) -> Result<FirmwareVersion, DecodeError> {
    match firmware_version_in(response, expected_len) {
        Err(error) => Err(error),
        Ok(found) => match found.verdict(expected) {
            Err(error) => Err(error),
            Ok(()) => Ok(found),
        },
    }
}

/// Only the length of a response and its first two bytes count. A response
/// of the expected length that holds both fields is accepted exactly when
/// they are the expected major and minor version, whatever the other bytes
/// are; if they are not, that is a `VersionMismatch` that names what was
/// found.
pub proof fn lemma_only_the_version_bytes_count(
    response: Seq<u8>,
    expected_len: usize,
    expected: FirmwareVersion,
)
    requires
        response.len() == expected_len,
        expected_len >= VERSION_FIELDS,
    ensures
        response[0] == expected.major && response[1] == expected.minor ==> firmware_verdict(
            response,
            expected_len,
            expected,
        ) == Ok::<FirmwareVersion, DecodeError>(expected),
        response[0] != expected.major || response[1] != expected.minor ==> firmware_verdict(
            response,
            expected_len,
            expected,
        ) == Err::<FirmwareVersion, DecodeError>(
            DecodeError::VersionMismatch {
                expected,
                found: FirmwareVersion { major: response[0], minor: response[1] },
            },
        ),
{
}

/// Decodes the response to the firmware query and holds the version against
/// the expected one. A response that decodes and disagrees is a
/// `VersionMismatch`, never a length mismatch.
pub fn verify_firmware(response: &[u8], expected_len: usize, expected: FirmwareVersion) -> (result:
    Result<FirmwareVersion, DecodeError>)
    ensures
        result == firmware_verdict(response@, expected_len, expected),
        result matches Ok(found) ==> found == expected,
{
    match decode_firmware_version(response, expected_len) {
        Err(error) => Err(error),
        Ok(found) => match found.verify(expected) {
            Err(error) => Err(error),
            Ok(()) => Ok(found),
        },
    }
}

} // verus!
