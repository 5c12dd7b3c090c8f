//! Exact model of hexadecimal text decoding.
//!
//! The ledger and the seed tooling exchange byte strings as hex text; this
//! module states precisely which strings decode, and to what, and routes the
//! decoding itself through the `hex` crate.

use vstd::prelude::*;

verus! {

/// Whether `c` is an ASCII hexadecimal digit, of either case.
pub open spec fn is_hex_digit(c: char) -> bool {
    ('0' as int <= c as int && c as int <= '9' as int)
    || ('a' as int <= c as int && c as int <= 'f' as int)
    || ('A' as int <= c as int && c as int <= 'F' as int)
}

/// Numeric value of a hexadecimal digit.
pub open spec fn hex_digit_val(c: char) -> int
    recommends
        is_hex_digit(c),
{
    if '0' as int <= c as int && c as int <= '9' as int {
        c as int - '0' as int
    } else if 'a' as int <= c as int && c as int <= 'f' as int {
        c as int - 'a' as int + 10
    } else {
        c as int - 'A' as int + 10
    }
}

/// The byte encoded by the digit pair `(hi, lo)`.
pub open spec fn hex_pair_val(hi: char, lo: char) -> u8
    recommends
        is_hex_digit(hi),
        is_hex_digit(lo),
{
    (hex_digit_val(hi) * 16 + hex_digit_val(lo)) as u8
}

/// What a hex string decodes to: `None` when its length is odd or any
/// character is not a hex digit, otherwise one byte per digit pair.
pub open spec fn hex_bytes(s: Seq<char>) -> Option<Seq<u8>> {
    if s.len() % 2 == 0 && (forall|i: int| 0 <= i < s.len() ==> is_hex_digit(#[trigger] s[i])) {
        Some(Seq::new(s.len() / 2, |i: int| hex_pair_val(s[2 * i], s[2 * i + 1])))
    } else {
        None
    }
}

/// Relies on `hex::decode`: it maps pairs of hex digits (either case) to
/// bytes and errors on an odd length or any non-digit byte. A string whose
/// characters are all hex digits is ASCII, so its bytes and characters
/// agree; any other string makes `hex::decode` and `hex_bytes` both fail.
#[verifier::external_body]
pub(crate) fn decode_hex(s: &str) -> (r: Option<Vec<u8>>)
    ensures
        r is Some <==> hex_bytes(s@) is Some,
        r matches Some(v) ==> hex_bytes(s@) == Some(v@),
{
    hex::decode(s).ok()
}

} // verus!
