//! Trusted boundary to the outside crates: the opaque 128-bit identifier
//! type, the compact base-58 text codec, the wall clock and the random
//! source. Every contract here is believed, not proved; each doc comment
//! names the outside item relied on.

use vstd::prelude::*;

use short_uuid::{FLICKR_BASE_58, ShortUuid};
use uuid::Uuid;

verus! {

#[verifier::external_type_specification]
#[verifier::external_body]
pub struct ExUuid(Uuid);

#[verifier::external_type_specification]
#[verifier::external_body]
pub struct ExShortUuid(ShortUuid);

/// The 128-bit number whose big-endian bytes are the uuid's 16 bytes.
pub uninterp spec fn uuid_value(u: Uuid) -> u128;

/// The 128-bit value a compact form denotes.
pub uninterp spec fn short_uuid_value(s: ShortUuid) -> u128;

/// The compact text the outside codec produces for a 128-bit value.
pub uninterp spec fn short_text_of(v: u128) -> Seq<char>;

/// Relies on `uuid::Uuid::from_u128`: builds the uuid whose big-endian bytes
/// are the bytes of `v`; `as_u128` reads the same number back.
#[verifier::external_body]
pub fn uuid_from_value(v: u128) -> (u: Uuid)
    ensures
        uuid_value(u) == v,
{
    Uuid::from_u128(v)
}

/// Relies on `uuid::Uuid::as_u128`: reads the uuid's 16 bytes as one
/// big-endian 128-bit number.
#[verifier::external_body]
pub fn uuid_to_value(u: &Uuid) -> (v: u128)
    ensures
        v == uuid_value(*u),
{
    u.as_u128()
}

/// Relies on `short_uuid::ShortUuid::from_uuid`: the compact form it builds
/// denotes exactly the uuid's 128-bit value.
#[verifier::external_body]
pub fn short_from_value(v: u128) -> (s: ShortUuid)
    ensures
        short_uuid_value(s) == v,
{
    ShortUuid::from_uuid(&Uuid::from_u128(v))
}

/// Relies on `ShortUuid`'s `Display`: prints the compact form's digits, a
/// function of the denoted value alone — exactly 22 digits of the fixed
/// base-58 alphabet, which holds no underscore.
#[verifier::external_body]
pub fn short_to_text(s: &ShortUuid) -> (r: String)
    ensures
        r@ == short_text_of(short_uuid_value(*s)),
        r@.len() == 22,
        forall|i: int| 0 <= i < r@.len() ==> r@[i] != '_',
{
    s.to_string()
}

/// Relies on `short_uuid::ShortUuid::parse_str` and `to_uuid`: parsing
/// accepts exactly the 22-digit alphabet strings that denote a value below
/// 2^128 — which, digits of fixed length being unique, are exactly the texts
/// the codec itself produces — and returns the denoted value.
#[verifier::external_body]
pub fn short_decode(s: &str) -> (r: Option<u128>)
    ensures
        forall|v: u128| s@ == short_text_of(v) ==> r == Some(v),
        r matches Some(v) ==> s@ == short_text_of(v),
{
    // parse_str accumulates the digits with an unchecked final add; redo the
    // accumulation checked first, so that no input can abort the process.
    let alphabet: &[u8] = FLICKR_BASE_58.as_bytes();
    let mut value: u128 = 0;
    for byte in s.bytes() {
        let digit = alphabet.iter().position(|&c| c == byte)?;
        value = value.checked_mul(58)?.checked_add(digit as u128)?;
    }
    let short = ShortUuid::parse_str(s).ok()?;
    Some(short.to_uuid().as_u128())
}

/// Relies on `std::time::SystemTime::now`, `duration_since` of the Unix
/// epoch and `as_millis`: milliseconds since the epoch, truncated to 64
/// bits. A host clock reading before the epoch is an environment fault and
/// aborts the process.
#[verifier::external_body]
pub fn now_unix_ms() -> u64 {
    std::time::SystemTime::now()
        .duration_since(std::time::UNIX_EPOCH)
        .expect("system time before unix epoch")
        .as_millis() as u64
}

/// Relies on `uuid::Uuid::new_v4`: a fresh random 128-bit value; nothing is
/// promised of it.
#[verifier::external_body]
pub fn random_value() -> u128 {
    Uuid::new_v4().as_u128()
}

} // verus!
