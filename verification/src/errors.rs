//! Failure conditions and their taxonomy.
//!
//! Every fallible operation of this crate reports one of the conditions
//! below; none substitutes a default value for a failure, except the
//! explicit zero-sentinel case of the balance reconstructor.

use vstd::prelude::*;

verus! {

/// A specific failure condition reported by this crate.
#[derive(Clone, Copy, Debug, PartialEq, Eq, Structural)]
pub enum Error {
    /// The recovery phrase failed word-list or checksum validation.
    InvalidMnemonic,
    /// A textual seed did not decode to exactly 32 bytes of hex.
    MalformedSeed,
    /// Key bytes do not represent a valid scalar field element.
    MalformedKey,
    /// A ciphertext slot is neither the sentinel nor a well-formed
    /// prefixed hex encoding of at least the fixed serialized size.
    MalformedCiphertext,
    /// The bounded decryption search exhausted the supported range.
    DecryptionRangeExceeded,
    /// A derivation stage did not fit its fixed-width serialization.
    KeyDerivationError,
    /// Summing the two decrypted balances would overflow.
    BalanceOverflow,
}

/// The broad class of a failure: how a caller should react to it.
#[derive(Clone, Copy, Debug, PartialEq, Eq, Structural)]
pub enum ErrorKind {
    /// Invalid phrase or seed text: recoverable, report to the user.
    UserInput,
    /// Corrupted or adversarial bytes from the storage layer or caller.
    MalformedData,
    /// The decryption search space was exhausted; may indicate a wrong key.
    RangeExceeded,
    /// A step that should always succeed did not; abandon the operation.
    InternalInvariant,
}

impl Error {
    /// The class each condition belongs to.
    pub open spec fn spec_kind(self) -> ErrorKind {
        match self {
            Error::InvalidMnemonic => ErrorKind::UserInput,
            Error::MalformedSeed => ErrorKind::UserInput,
            Error::MalformedKey => ErrorKind::MalformedData,
            Error::MalformedCiphertext => ErrorKind::MalformedData,
            Error::DecryptionRangeExceeded => ErrorKind::RangeExceeded,
            Error::KeyDerivationError => ErrorKind::InternalInvariant,
            Error::BalanceOverflow => ErrorKind::InternalInvariant,
        }
    }

    /// Classify this condition.
    pub fn kind(&self) -> (k: ErrorKind)
        ensures
            k == self.spec_kind(),
    {
        match self {
            Error::InvalidMnemonic => ErrorKind::UserInput,
            Error::MalformedSeed => ErrorKind::UserInput,
            Error::MalformedKey => ErrorKind::MalformedData,
            Error::MalformedCiphertext => ErrorKind::MalformedData,
            Error::DecryptionRangeExceeded => ErrorKind::RangeExceeded,
            Error::KeyDerivationError => ErrorKind::InternalInvariant,
            Error::BalanceOverflow => ErrorKind::InternalInvariant,
        }
    }
}

} // verus!
