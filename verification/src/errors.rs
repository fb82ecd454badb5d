use vstd::prelude::*;

verus! {

/// The algorithm slot of an HPKE configuration that a recipient offered and
/// this client does not support. The slots are listed in the order in which
/// they are checked: AEAD first, then KDF, then KEM.
#[derive(Clone, Copy, Debug, PartialEq, Eq, Structural)]
pub enum UnsupportedAlg {
    Aead,
    Kdf,
    Kem,
}

/// Why preparing a report failed. Every failure is fail-fast: no partial
/// report is ever produced alongside one of these.
#[derive(Clone, Copy, Debug, PartialEq, Eq, Structural)]
pub enum Error {
    /// A numeric conversion or range check on a caller-supplied value failed:
    /// a negative parameter, a measurement too large for the configured bit
    /// width, a vector length mismatch, or a bucket index out of range.
    InvalidParameter,
    /// A caller-supplied byte buffer (task identifier or HPKE configuration
    /// list) is not a well-formed encoding.
    DecodeFailure,
    /// A recipient offered an empty HPKE configuration list.
    MissingConfigs,
    /// A recipient offered configurations, but none uses a supported
    /// algorithm triple. The payload identifies the failing slot of the
    /// *first* entry of the list.
    UnsupportedConfig(UnsupportedAlg),
    /// Constructing the secret-sharing scheme or sharding the measurement
    /// failed in the underlying VDAF implementation.
    Vdaf,
    /// The HPKE sealing operation failed.
    EncryptionFailure,
    /// A value is too long for the length prefix of its wire encoding.
    EncodeOverflow,
}

} // verus!
