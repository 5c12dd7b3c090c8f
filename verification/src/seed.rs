//! Seed derivation: the root of trust for an account.
//!
//! A 32-byte seed comes from one of three sources: the operating system's
//! secure randomness, a BIP-39 recovery phrase stretched through the
//! standard mnemonic key-derivation function, or a hex string supplied
//! directly. Phrase validation and stretching are delegated to the mnemonic
//! libraries; this module states exactly when they succeed and that the
//! result is a function of the phrase, password and word list alone.

use vstd::prelude::*;

use crate::errors::Error;
use crate::hexcodec::decode_hex;
use crate::hexcodec::hex_bytes;

verus! {

broadcast use vstd::array::group_array_axioms;

/// The word list a recovery phrase is validated against. The English list
/// is the one the mnemonic library compiles in here.
#[derive(Clone, Copy, Debug, PartialEq, Eq, Structural)]
pub enum Wordlist {
    English,
}

/// The entropy a valid BIP-39 phrase encodes under the given word list, or
/// `None` when the phrase fails word-list or checksum validation. A
/// function of the phrase and word list alone.
pub uninterp spec fn phrase_entropy(phrase: Seq<char>, lang: Wordlist) -> Option<Seq<u8>>;

/// The 32-byte key the standard mnemonic key-derivation function derives
/// from entropy and password. A function of its arguments alone.
pub uninterp spec fn stretched_key(entropy: Seq<u8>, password: Seq<char>) -> Seq<u8>;

/// Relies on `bip39::Mnemonic::parse_in_normalized` and
/// `bip39::Mnemonic::to_entropy`: parsing succeeds exactly when every word
/// is on the list and the checksum holds, and the entropy of a valid
/// phrase of 12, 15, 18, 21 or 24 words is 16, 20, 24, 28 or 32 bytes.
/// Both are deterministic in the phrase and word list.
#[verifier::external_body]
fn mnemonic_entropy(phrase: &str, lang: Wordlist) -> (r: Option<Vec<u8>>)
    ensures
        r is Some <==> phrase_entropy(phrase@, lang) is Some,
        r matches Some(v) ==> phrase_entropy(phrase@, lang) == Some(v@),
        r matches Some(v) ==> 16 <= v@.len() <= 32 && v@.len() % 4 == 0,
{
    let language = match lang {
        Wordlist::English => bip39::Language::English,
    };
    bip39::Mnemonic::parse_in_normalized(language, phrase).ok().map(|m| m.to_entropy())
}

/// Relies on `substrate_bip39::mini_secret_from_entropy`: PBKDF2-SHA512
/// over the entropy with salt `"mnemonic" + password`, truncated to the
/// 32-byte mini secret (read out with `MiniSecretKey::to_bytes`). It is
/// deterministic in its arguments and returns `Ok` exactly when the
/// entropy length is 16, 20, 24, 28 or 32 bytes.
#[verifier::external_body]
fn stretch_entropy(entropy: &[u8], password: &str) -> (r: Option<[u8; 32]>)
    ensures
        r is Some <==> (16 <= entropy@.len() <= 32 && entropy@.len() % 4 == 0),
        r matches Some(k) ==> k@ == stretched_key(entropy@, password@),
{
    substrate_bip39::mini_secret_from_entropy(entropy, password).ok().map(|k| k.to_bytes())
}

/// Relies on `rand::rngs::SysRng`, the operating system's secure source:
/// it fills the buffer with unpredictable bytes, so nothing is promised of
/// the value. Panics only if that source is unavailable, which is fatal.
#[verifier::external_body]
fn os_random_32() -> (r: [u8; 32]) {
    let mut buf = [0u8; 32];
    rand::TryRng::try_fill_bytes(&mut rand::rngs::SysRng, &mut buf)
        .expect("secure randomness source unavailable");
    buf
}

/// A fresh 32-byte seed from the secure randomness source. No property of
/// the value is (or could be) promised.
pub fn random_seed() -> [u8; 32] {
    os_random_32()
}

/// The password actually stretched: the empty string when none is given.
pub open spec fn spec_password(password: Option<&str>) -> Seq<char> {
    match password {
        Some(p) => p@,
        None => Seq::<char>::empty(),
    }
}

/// What seed derivation from a phrase yields: the stretched key of the
/// phrase's entropy, or `InvalidMnemonic` when the phrase does not
/// validate.
pub open spec fn spec_phrase_to_seed(phrase: Seq<char>, password: Seq<char>, lang: Wordlist) -> Result<
    Seq<u8>,
    Error,
> {
    match phrase_entropy(phrase, lang) {
        Some(e) => Ok(stretched_key(e, password)),
        None => Err(Error::InvalidMnemonic),
    }
}

/// Derive the 32-byte seed a recovery phrase encodes, with an optional
/// password (empty by default). Deterministic; fails with
/// `InvalidMnemonic` exactly when the phrase does not validate against
/// the word list and checksum.
pub fn phrase_to_seed(phrase: &str, password: Option<&str>, lang: Wordlist) -> (r: Result<
    [u8; 32],
    Error,
>)
    ensures
        match r {
            Ok(s) => spec_phrase_to_seed(phrase@, spec_password(password), lang) == Ok::<
                Seq<u8>,
                Error,
            >(s@),
            Err(e) => spec_phrase_to_seed(phrase@, spec_password(password), lang) == Err::<
                Seq<u8>,
                Error,
            >(e),
        },
{
    match mnemonic_entropy(phrase, lang) {
        Some(entropy) => {
            let pw = match password {
                Some(p) => p,
                None => "",
            };
            proof {
                reveal_strlit("");
                assert(spec_password(password) =~= pw@);
            }
            match stretch_entropy(entropy.as_slice(), pw) {
                Some(seed) => Ok(seed),
                // Unreachable: a valid phrase's entropy length is always
                // one the key-derivation function accepts.
                None => Err(Error::KeyDerivationError),
            }
        },
        None => Err(Error::InvalidMnemonic),
    }
}

/// Law: seed derivation from a phrase is deterministic. Two derivations
/// from the same phrase, password and word list yield the same result.
pub proof fn lemma_phrase_to_seed_deterministic(
    phrase: Seq<char>,
    password: Seq<char>,
    lang: Wordlist,
    r1: Result<Seq<u8>, Error>,
    r2: Result<Seq<u8>, Error>,
)
    requires
        r1 == spec_phrase_to_seed(phrase, password, lang),
        r2 == spec_phrase_to_seed(phrase, password, lang),
    ensures
        r1 == r2,
{
}

/// Decode a hex string into exactly 32 seed bytes. Fails with
/// `MalformedSeed` exactly when the text is not valid hex or does not
/// decode to 32 bytes.
pub fn seed_to_array(seed: &str) -> (r: Result<[u8; 32], Error>)
    ensures
        r is Ok <==> (hex_bytes(seed@) matches Some(b) && b.len() == 32),
        r matches Ok(a) ==> hex_bytes(seed@) == Some(a@),
        r is Err ==> r == Err::<[u8; 32], Error>(Error::MalformedSeed),
{
    match decode_hex(seed) {
        Some(v) => {
            if v.len() == 32 {
                let mut a = [0u8; 32];
                let mut i: usize = 0;
                while i < 32
                    invariant
                        i <= 32,
                        v@.len() == 32,
                        forall|j: int| 0 <= j < i ==> a@[j] == v@[j],
                    decreases 32 - i,
                {
                    a[i] = v[i];
                    i += 1;
                }
                proof {
                    assert(a@ =~= v@);
                }
                Ok(a)
            } else {
                Err(Error::MalformedSeed)
            }
        },
        None => Err(Error::MalformedSeed),
    }
}

} // verus!
