//! Identifiers. An identifier is held as the 128-bit value of a UUID
//! (its big-endian bytes read as one number); the nil UUID is 0.
use vstd::prelude::*;

verus! {

/// Bits of a UUID value that carry its version (4 bits) and its variant
/// (2 bits).
pub const VERSION_VARIANT_MASK: u128 = 0x0000_0000_0000_F000_C000_0000_0000_0000;

/// The version and variant bits of a random (version 4, RFC 4122 variant)
/// UUID.
pub const RANDOM_VERSION_VARIANT: u128 = 0x0000_0000_0000_4000_8000_0000_0000_0000;

/// Whether an identifier is the nil identifier, as `Uuid::is_nil` tests
/// (all bits zero).
pub fn is_nil(id: u128) -> (r: bool)
    ensures
        r == (id == 0),
{
    id == 0
}

/// A fresh random identifier.
///
/// Calls `uuid::Uuid::new_v4`. Its source draws 128 random bits, clears
/// the version and variant bits and sets them to version 4 and the RFC
/// 4122 variant; that is all that is stated here. The value is random:
/// two calls may give any two such values.
#[verifier::external_body]
pub(crate) fn new_random_id() -> (id: u128)
    ensures
        id & VERSION_VARIANT_MASK == RANDOM_VERSION_VARIANT,
{
    uuid::Uuid::new_v4().as_u128()
}

} // verus!
