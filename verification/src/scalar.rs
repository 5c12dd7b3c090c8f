//! The decryption key as a scalar field element.
//!
//! A decryption key is a scalar of the curve's prime-order subgroup,
//! serialized as 32 bytes little-endian. The serialization is valid
//! exactly when its value is below the field modulus
//! `0x0e7db4ea6533afa906673b0101343b00a6682093ccc81082d0970e5ed6f72cb7`;
//! re-hydrating a key from bytes checks that bound, as the engine's
//! deserializer does.

use vstd::arithmetic::mul::lemma_mul_inequality;
use vstd::arithmetic::power::pow;
use vstd::prelude::*;

use crate::errors::Error;

verus! {

/// `256^n`: the weight of the `n`-th byte of a little-endian value.
pub open spec fn pow256(n: nat) -> int {
    pow(256, n)
}

/// The value of a byte string read little-endian: byte `i` has weight
/// `256^i`.
pub open spec fn le_bytes_val(s: Seq<u8>) -> int
    decreases s.len(),
{
    if s.len() == 0 {
        0
    } else {
        le_bytes_val(s.drop_last()) + pow256((s.len() - 1) as nat) * s.last()
    }
}

/// The modulus of the scalar field, as little-endian bytes.
pub open spec fn fs_modulus_le() -> Seq<u8> {
    seq![
        0xb7u8, 0x2c, 0xf7, 0xd6, 0x5e, 0x0e, 0x97, 0xd0, 0x82, 0x10, 0xc8, 0xcc, 0x93, 0x20,
        0x68, 0xa6, 0x00, 0x3b, 0x34, 0x01, 0x01, 0x3b, 0x67, 0x06, 0xa9, 0xaf, 0x33, 0x65,
        0xea, 0xb4, 0x7d, 0x0e,
    ]
}

/// Whether 32 bytes are the valid serialization of a scalar: their
/// little-endian value lies below the field modulus.
pub open spec fn is_valid_scalar_le(bytes: Seq<u8>) -> bool {
    bytes.len() == 32 && le_bytes_val(bytes) < le_bytes_val(fs_modulus_le())
}

proof fn lemma_le_bytes_val_bound(s: Seq<u8>)
    ensures
        0 <= le_bytes_val(s) < pow256(s.len()),
    decreases s.len(),
{
    if s.len() == 0 {
        assert(pow256(0) == 1) by {
            reveal(pow);
        }
    } else {
        let q = pow256((s.len() - 1) as nat);
        lemma_le_bytes_val_bound(s.drop_last());
        vstd::arithmetic::power::lemma_pow_positive(256, (s.len() - 1) as nat);
        assert(le_bytes_val(s) < q + q * s.last());
        assert(q + q * s.last() == q * (1 + s.last())) by (nonlinear_arith);
        lemma_mul_inequality(1 + s.last(), 256, q);
        assert(q * (1 + s.last()) == (1 + s.last()) * q) by (nonlinear_arith);
        assert(256 * q == pow256(s.len())) by {
            reveal(pow);
        }
    }
}

/// If `a` and `b` agree above position `j` and `a` is smaller at `j`,
/// then `a`'s little-endian value is smaller.
proof fn lemma_le_bytes_val_lt_at(a: Seq<u8>, b: Seq<u8>, j: int)
    requires
        a.len() == b.len(),
        0 <= j < a.len(),
        a[j] < b[j],
        forall|k: int| j < k < a.len() ==> a[k] == b[k],
    ensures
        le_bytes_val(a) < le_bytes_val(b),
    decreases a.len(),
{
    let n = a.len();
    let q = pow256((n - 1) as nat);
    if j == n - 1 {
        lemma_le_bytes_val_bound(a.drop_last());
        lemma_le_bytes_val_bound(b.drop_last());
        vstd::arithmetic::power::lemma_pow_positive(256, (n - 1) as nat);
        assert(le_bytes_val(a) < q + q * a.last());
        assert(q + q * a.last() == q * (1 + a.last())) by (nonlinear_arith);
        lemma_mul_inequality(1 + a.last(), b.last() as int, q);
        assert(q * (1 + a.last()) == (1 + a.last()) * q && q * b.last() == b.last() * q)
            by (nonlinear_arith);
        assert(le_bytes_val(b) >= q * b.last());
    } else {
        assert(a.last() == b.last());
        assert(a.drop_last().len() == b.drop_last().len());
        assert(forall|k: int| j < k < n - 1 ==> a.drop_last()[k] == b.drop_last()[k]);
        assert(a.drop_last()[j] == a[j] && b.drop_last()[j] == b[j]);
        lemma_le_bytes_val_lt_at(a.drop_last(), b.drop_last(), j);
    }
}

/// A decryption key: the private scalar enabling decryption of an
/// account's balance ciphertexts, held in its 32-byte little-endian
/// serialization.
#[derive(Debug)]
pub struct DecryptionKey {
    pub bytes: [u8; 32],
}

impl DecryptionKey {
    /// Well-formedness: the bytes serialize a scalar below the modulus.
    pub open spec fn wf(self) -> bool {
        is_valid_scalar_le(self.bytes@)
    }
}

/// Re-hydrate a decryption key from its 32-byte little-endian
/// serialization. Fails with `MalformedKey` exactly when the bytes do not
/// represent a valid scalar field element.
pub fn decryption_key_from_bytes(bytes: [u8; 32]) -> (r: Result<DecryptionKey, Error>)
    ensures
        r is Ok <==> is_valid_scalar_le(bytes@),
        r matches Ok(k) ==> k.bytes@ == bytes@ && k.wf(),
        r is Err ==> r == Err::<DecryptionKey, Error>(Error::MalformedKey),
{
    let modulus: [u8; 32] = [
        0xb7u8, 0x2c, 0xf7, 0xd6, 0x5e, 0x0e, 0x97, 0xd0, 0x82, 0x10, 0xc8, 0xcc, 0x93, 0x20,
        0x68, 0xa6, 0x00, 0x3b, 0x34, 0x01, 0x01, 0x3b, 0x67, 0x06, 0xa9, 0xaf, 0x33, 0x65,
        0xea, 0xb4, 0x7d, 0x0e,
    ];
    proof {
        assert(modulus@ =~= fs_modulus_le());
    }
    let mut i: usize = 32;
    while i > 0
        invariant
            i <= 32,
            modulus@ =~= fs_modulus_le(),
            forall|k: int| i <= k < 32 ==> bytes@[k] == modulus@[k],
        decreases i,
    {
        let j = i - 1;
        if bytes[j] < modulus[j] {
            proof {
                lemma_le_bytes_val_lt_at(bytes@, fs_modulus_le(), j as int);
            }
            return Ok(DecryptionKey { bytes });
        }
        if bytes[j] > modulus[j] {
            proof {
                lemma_le_bytes_val_lt_at(fs_modulus_le(), bytes@, j as int);
            }
            return Err(Error::MalformedKey);
        }
        i = j;
    }
    proof {
        assert(bytes@ =~= fs_modulus_le());
    }
    Err(Error::MalformedKey)
}

} // verus!
