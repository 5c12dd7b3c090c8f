//! Confidential-balance reconstruction.
//!
//! An account's balance lives on the ledger as two independent ciphertext
//! slots — the confirmed balance and the pending transfer — each fetched
//! as a hex string. A slot is either the sentinel `"0x00"`, meaning no
//! ciphertext is recorded and the contribution is exactly zero, or a
//! `"0x"` lead followed by a fixed four-character structural prefix and
//! the hex payload of the serialized ciphertext. This module normalizes
//! both slots, maps the engine's decryption outcomes to contributions,
//! and sums them with an explicit overflow check; it never invents a
//! balance.

use vstd::prelude::*;

use crate::errors::Error;
use crate::hexcodec::hex_bytes;
use crate::hexcodec::decode_hex;
use crate::keys::copy_32;
use crate::scalar::decryption_key_from_bytes;
use crate::scalar::is_valid_scalar_le;

verus! {

/// The serialized size of a ciphertext: two 32-byte curve points.
pub const CIPHERTEXT_BYTES: usize = 64;

/// The storage namespace both balance slots live under.
pub const STORAGE_MODULE: &'static str = "ConfTransfer";

/// The storage field holding the confirmed-balance ciphertext.
pub const ENCRYPTED_BALANCE_FIELD: &'static str = "EncryptedBalance";

/// The storage field holding the pending-transfer ciphertext.
pub const PENDING_TRANSFER_FIELD: &'static str = "PendingTransfer";

/// The ledger's "no ciphertext recorded" sentinel, `"0x00"`.
pub open spec fn sentinel() -> Seq<char> {
    seq!['0', 'x', '0', '0']
}

/// The hex payload of a non-sentinel slot: everything after the `"0x"`
/// lead and the four-character structural prefix.
pub open spec fn slot_payload(s: Seq<char>) -> Seq<char> {
    s.subrange(6, s.len() as int)
}

/// Whether a non-sentinel slot is well formed: a `"0x"` lead, the
/// four-character structural prefix, and a payload that decodes to at
/// least the fixed serialized ciphertext size.
pub open spec fn good_slot(s: Seq<char>) -> bool {
    &&& s.len() >= 6
    &&& s[0] == '0'
    &&& s[1] == 'x'
    &&& match hex_bytes(slot_payload(s)) {
        Some(b) => b.len() >= CIPHERTEXT_BYTES,
        None => false,
    }
}

/// Whether a slot response is acceptable at all.
pub open spec fn slot_ok(s: Seq<char>) -> bool {
    s == sentinel() || good_slot(s)
}

/// The raw bytes a slot contributes: a single zero byte for the
/// sentinel, otherwise the decoded payload.
pub open spec fn slot_raw(s: Seq<char>) -> Seq<u8>
    recommends
        slot_ok(s),
{
    if s == sentinel() {
        seq![0u8]
    } else {
        match hex_bytes(slot_payload(s)) {
            Some(b) => b,
            None => Seq::empty(),
        }
    }
}

/// The display form of a slot: the sentinel itself, otherwise the
/// `"0x"` lead rejoined with the payload (the structural prefix
/// stripped).
pub open spec fn slot_display(s: Seq<char>) -> Seq<char>
    recommends
        slot_ok(s),
{
    if s == sentinel() {
        s
    } else {
        seq!['0', 'x'] + slot_payload(s)
    }
}

/// One storage slot after normalization: its raw ciphertext bytes (or
/// the single-zero-byte sentinel form), its display string, and whether
/// it was the sentinel.
#[derive(Debug)]
pub struct NormalizedSlot {
    pub raw: Vec<u8>,
    pub display: String,
    pub is_sentinel: bool,
}

impl NormalizedSlot {
    /// This slot is the normalization of the response `s`.
    pub open spec fn wf_for(self, s: Seq<char>) -> bool {
        &&& slot_ok(s)
        &&& self.raw@ == slot_raw(s)
        &&& self.display@ == slot_display(s)
        &&& self.is_sentinel == (s == sentinel())
    }
}

/// Normalize one slot response. The sentinel contributes a single zero
/// byte and keeps its text; any other response must carry the `"0x"`
/// lead, the four structural characters, and a hex payload of at least
/// the serialized ciphertext size, which is decoded. Fails with
/// `MalformedCiphertext` exactly on every other response.
pub fn normalize_slot(response: &str) -> (r: Result<NormalizedSlot, Error>)
    ensures
        r is Ok <==> slot_ok(response@),
        r matches Ok(n) ==> n.wf_for(response@),
        r is Err ==> r == Err::<NormalizedSlot, Error>(Error::MalformedCiphertext),
{
    proof {
        assert(sentinel().len() == 4);
        assert(sentinel()[0] == '0' && sentinel()[1] == 'x' && sentinel()[2] == '0'
            && sentinel()[3] == '0');
    }
    let n = response.unicode_len();
    let is_sent = n == 4 && response.get_char(0) == '0' && response.get_char(1) == 'x'
        && response.get_char(2) == '0' && response.get_char(3) == '0';
    proof {
        if is_sent {
            assert(response@ =~= sentinel());
        }
    }
    if is_sent {
        let mut raw: Vec<u8> = Vec::new();
        raw.push(0u8);
        proof {
            assert(raw@ =~= seq![0u8]);
        }
        Ok(NormalizedSlot { raw, display: String::from_str(response), is_sentinel: true })
    } else {
        if n < 6 {
            return Err(Error::MalformedCiphertext);
        }
        if response.get_char(0) != '0' || response.get_char(1) != 'x' {
            return Err(Error::MalformedCiphertext);
        }
        let payload = response.substring_char(6, n);
        proof {
            assert(payload@ == slot_payload(response@));
        }
        match decode_hex(payload) {
            Some(bytes) => {
                if bytes.len() >= CIPHERTEXT_BYTES {
                    let display = String::from_str("0x").concat(payload);
                    proof {
                        reveal_strlit("0x");
                        assert(("0x")@ =~= seq!['0', 'x']);
                        assert(display@ =~= slot_display(response@));
                    }
                    Ok(NormalizedSlot { raw: bytes, display, is_sentinel: false })
                } else {
                    Err(Error::MalformedCiphertext)
                }
            },
            None => Err(Error::MalformedCiphertext),
        }
    }
}

/// What the engine's deserialize-and-decrypt step reported for one
/// non-sentinel slot payload.
#[derive(Clone, Copy, Debug, PartialEq, Eq, Structural)]
pub enum DecryptOutcome {
    /// The payload deserialized and decrypted to this plaintext value.
    Value(u32),
    /// The ciphertext deserialized, but no value in the supported range
    /// reproduces it: a corrupted ciphertext or a wrong key.
    OutOfRange,
    /// The deserializer rejected the payload bytes, e.g. a point not on
    /// the curve.
    BadCiphertext,
}

/// Whether a slot yields a plaintext contribution: the sentinel always
/// does (zero), a payload slot only when the engine decrypted a value.
pub open spec fn slot_value_ok(s: Seq<char>, outcome: DecryptOutcome) -> bool {
    s == sentinel() || outcome is Value
}

/// The plaintext a slot contributes: zero for the sentinel, else the
/// decrypted value.
pub open spec fn slot_value(s: Seq<char>, outcome: DecryptOutcome) -> u32
    recommends
        slot_value_ok(s, outcome),
{
    if s == sentinel() {
        0
    } else {
        match outcome {
            DecryptOutcome::Value(v) => v,
            _ => 0,
        }
    }
}

/// The error a failed decryption surfaces: a range failure is reported
/// distinctly, never coerced to zero.
pub open spec fn slot_value_err(outcome: DecryptOutcome) -> Error {
    match outcome {
        DecryptOutcome::OutOfRange => Error::DecryptionRangeExceeded,
        _ => Error::MalformedCiphertext,
    }
}

/// The result of one balance query: the decrypted total (confirmed plus
/// pending), both raw ciphertext buffers, and both post-strip display
/// strings. Immutable once constructed.
#[derive(Debug)]
pub struct BalanceQuery {
    pub decrypted_balance: u32,
    pub encrypted_balance: Vec<u8>,
    pub pending_transfer: Vec<u8>,
    pub encrypted_balance_str: String,
    pub pending_transfer_str: String,
}

impl BalanceQuery {
    /// Reconstruct the balance for a decryption key from the two fetched
    /// slot responses and the engine's decryption outcome for each.
    ///
    /// The key bytes must serialize a valid scalar (`MalformedKey`
    /// otherwise); each slot is normalized and its outcome mapped in
    /// ledger order, confirmed before pending; the two contributions are
    /// summed with an explicit overflow check (`BalanceOverflow`). On
    /// success every field is pinned by the inputs.
    pub fn get_balance_from_decryption_key(
        decryption_key: &[u8],
        encrypted_balance_str: &str,
        confirmed_outcome: DecryptOutcome,
        pending_transfer_str: &str,
        pending_outcome: DecryptOutcome,
    ) -> (r: Result<BalanceQuery, Error>)
        ensures
            r is Ok <==> {
                &&& is_valid_scalar_le(decryption_key@)
                &&& slot_ok(encrypted_balance_str@)
                &&& slot_value_ok(encrypted_balance_str@, confirmed_outcome)
                &&& slot_ok(pending_transfer_str@)
                &&& slot_value_ok(pending_transfer_str@, pending_outcome)
                &&& slot_value(encrypted_balance_str@, confirmed_outcome) + slot_value(
                    pending_transfer_str@,
                    pending_outcome,
                ) <= u32::MAX
            },
            r matches Ok(q) ==> {
                &&& q.decrypted_balance == slot_value(encrypted_balance_str@, confirmed_outcome)
                    + slot_value(pending_transfer_str@, pending_outcome)
                &&& q.encrypted_balance@ == slot_raw(encrypted_balance_str@)
                &&& q.pending_transfer@ == slot_raw(pending_transfer_str@)
                &&& q.encrypted_balance_str@ == slot_display(encrypted_balance_str@)
                &&& q.pending_transfer_str@ == slot_display(pending_transfer_str@)
            },
            !is_valid_scalar_le(decryption_key@) ==> r == Err::<BalanceQuery, Error>(
                Error::MalformedKey,
            ),
            is_valid_scalar_le(decryption_key@) && !slot_ok(encrypted_balance_str@) ==> r == Err::<
                BalanceQuery,
                Error,
            >(Error::MalformedCiphertext),
            is_valid_scalar_le(decryption_key@) && slot_ok(encrypted_balance_str@)
                && !slot_value_ok(encrypted_balance_str@, confirmed_outcome) ==> r == Err::<
                BalanceQuery,
                Error,
            >(slot_value_err(confirmed_outcome)),
            is_valid_scalar_le(decryption_key@) && slot_ok(encrypted_balance_str@)
                && slot_value_ok(encrypted_balance_str@, confirmed_outcome) && !slot_ok(
                pending_transfer_str@,
            ) ==> r == Err::<BalanceQuery, Error>(Error::MalformedCiphertext),
            is_valid_scalar_le(decryption_key@) && slot_ok(encrypted_balance_str@)
                && slot_value_ok(encrypted_balance_str@, confirmed_outcome) && slot_ok(
                pending_transfer_str@,
            ) && !slot_value_ok(pending_transfer_str@, pending_outcome) ==> r == Err::<
                BalanceQuery,
                Error,
            >(slot_value_err(pending_outcome)),
    {
        if decryption_key.len() != 32 {
            return Err(Error::MalformedKey);
        }
        let dk_arr = copy_32(decryption_key);
        if let Err(e) = decryption_key_from_bytes(dk_arr) {
            return Err(e);
        }
        let confirmed = match normalize_slot(encrypted_balance_str) {
            Ok(s) => s,
            Err(e) => {
                return Err(e);
            },
        };
        let confirmed_value: u32 = if confirmed.is_sentinel {
            0
        } else {
            match confirmed_outcome {
                DecryptOutcome::Value(v) => v,
                DecryptOutcome::OutOfRange => {
                    return Err(Error::DecryptionRangeExceeded);
                },
                DecryptOutcome::BadCiphertext => {
                    return Err(Error::MalformedCiphertext);
                },
            }
        };
        let pending = match normalize_slot(pending_transfer_str) {
            Ok(s) => s,
            Err(e) => {
                return Err(e);
            },
        };
        let pending_value: u32 = if pending.is_sentinel {
            0
        } else {
            match pending_outcome {
                DecryptOutcome::Value(v) => v,
                DecryptOutcome::OutOfRange => {
                    return Err(Error::DecryptionRangeExceeded);
                },
                DecryptOutcome::BadCiphertext => {
                    return Err(Error::MalformedCiphertext);
                },
            }
        };
        if pending_value > u32::MAX - confirmed_value {
            return Err(Error::BalanceOverflow);
        }
        Ok(
            BalanceQuery {
                decrypted_balance: confirmed_value + pending_value,
                encrypted_balance: confirmed.raw,
                pending_transfer: pending.raw,
                encrypted_balance_str: confirmed.display,
                pending_transfer_str: pending.display,
            },
        )
    }
}

} // verus!
