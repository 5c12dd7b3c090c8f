//! The key hierarchy and its presentable record.
//!
//! From one 32-byte seed the curve engine derives, in strict order, a
//! proof-generation key, a decryption key and an encryption key, each
//! serialized to 32 bytes; the address codec then renders the encryption
//! key as a checksummed text address. Engine and codec are outside
//! collaborators: their serialized outputs arrive here as plain values,
//! are held to the fixed 32-byte width, and are assembled into the
//! immutable `PrintKeys` record. A derivation stage whose serialization
//! does not fit that width is an internal invariant violation, never
//! silently truncated.

use vstd::prelude::*;

use crate::errors::Error;

verus! {

/// The result of one key-generation call: the source phrase (when the
/// seed came from a mnemonic), the seed, both serialized keys, and the
/// checksummed text address. Immutable once constructed.
#[derive(Debug)]
pub struct PrintKeys {
    pub phrase: Option<String>,
    pub seed: [u8; 32],
    pub decryption_key: [u8; 32],
    pub encryption_key: [u8; 32],
    pub ss58_encryption_key: String,
}

/// The curve engine's serialized outputs for one seed: the decryption
/// key scalar written little-endian, and the encryption key point in its
/// canonical encoding. Each must be exactly 32 bytes wide.
#[derive(Debug)]
pub struct DerivedKeys {
    pub decryption_key: Vec<u8>,
    pub encryption_key: Vec<u8>,
}

/// The view of an optional phrase.
pub open spec fn spec_phrase(phrase: Option<&str>) -> Option<Seq<char>> {
    match phrase {
        Some(p) => Some(p@),
        None => None,
    }
}

/// The relation `gen_from_seed` pins down: success exactly when both
/// serialized keys are 32 bytes wide, and then every field of the record
/// is fixed by the inputs.
pub open spec fn is_generated(
    seed: Seq<u8>,
    dk: Seq<u8>,
    ek: Seq<u8>,
    address: Seq<char>,
    phrase: Option<Seq<char>>,
    r: Result<PrintKeys, Error>,
) -> bool {
    match r {
        Ok(pk) => dk.len() == 32 && ek.len() == 32 && pk.seed@ == seed && pk.decryption_key@
            == dk && pk.encryption_key@ == ek && pk.ss58_encryption_key@ == address && (match (
            pk.phrase,
            phrase,
        ) {
            (Some(a), Some(b)) => a@ == b,
            (None, None) => true,
            _ => false,
        }),
        Err(e) => !(dk.len() == 32 && ek.len() == 32) && e == Error::KeyDerivationError,
    }
}

/// Copy a 32-byte slice into a fixed-width array.
pub(crate) fn copy_32(v: &[u8]) -> (r: [u8; 32])
    requires
        v@.len() == 32,
    ensures
        r@ == v@,
{
    let mut a = [0u8; 32];
    let mut i: usize = 0;
    while i < 32
        invariant
            i <= 32,
            v@.len() == 32,
            forall|j: int| 0 <= j < i ==> a@[j] == v@[j],
        decreases 32 - i,
    {
        a[i] = v[i];
        i += 1;
    }
    proof {
        assert(a@ =~= v@);
    }
    a
}

/// Assemble the key record for one seed from the engine's serialized
/// keys and the codec's address. Fails with `KeyDerivationError` exactly
/// when either serialized key does not fit the fixed 32-byte width.
pub fn gen_from_seed(
    seed: [u8; 32],
    phrase: Option<&str>,
    derived: &DerivedKeys,
    address: &str,
) -> (r: Result<PrintKeys, Error>)
    ensures
        is_generated(
            seed@,
            derived.decryption_key@,
            derived.encryption_key@,
            address@,
            spec_phrase(phrase),
            r,
        ),
{
    if derived.decryption_key.len() != 32 || derived.encryption_key.len() != 32 {
        return Err(Error::KeyDerivationError);
    }
    let dk_buf = copy_32(derived.decryption_key.as_slice());
    let ek_buf = copy_32(derived.encryption_key.as_slice());
    Ok(
        PrintKeys {
            phrase: match phrase {
                Some(p) => Some(String::from_str(p)),
                None => None,
            },
            seed,
            decryption_key: dk_buf,
            encryption_key: ek_buf,
            ss58_encryption_key: String::from_str(address),
        },
    )
}

impl PrintKeys {
    /// Generate the key record for a caller-supplied seed, with no source
    /// phrase recorded. Same contract as `gen_from_seed`.
    pub fn generate_from_seed(seed: [u8; 32], derived: &DerivedKeys, address: &str) -> (r: Result<
        PrintKeys,
        Error,
    >)
        ensures
            is_generated(
                seed@,
                derived.decryption_key@,
                derived.encryption_key@,
                address@,
                None,
                r,
            ),
    {
        gen_from_seed(seed, None, derived, address)
    }
}

/// Law: key generation is deterministic. Two records generated from the
/// same seed and the same engine and codec outputs succeed or fail
/// together, and on success carry identical seed, decryption-key,
/// encryption-key and address bytes.
pub proof fn lemma_generation_deterministic(
    seed: Seq<u8>,
    dk: Seq<u8>,
    ek: Seq<u8>,
    address: Seq<char>,
    phrase: Option<Seq<char>>,
    r1: Result<PrintKeys, Error>,
    r2: Result<PrintKeys, Error>,
)
    requires
        is_generated(seed, dk, ek, address, phrase, r1),
        is_generated(seed, dk, ek, address, phrase, r2),
    ensures
        r1 is Ok <==> r2 is Ok,
        r1 matches Ok(a) ==> (r2 matches Ok(b) && a.seed@ == b.seed@ && a.decryption_key@
            == b.decryption_key@ && a.encryption_key@ == b.encryption_key@
            && a.ss58_encryption_key@ == b.ss58_encryption_key@),
        r1 matches Err(e1) ==> (r2 matches Err(e2) && e1 == e2),
{
}

} // verus!
