//! Identifiers of new rows.

use vstd::prelude::*;

verus! {

/// Whether `id` has the form of an identifier drawn at random: of its 128
/// bits, the four that give the version say 4 and the two that give the
/// variant say binary 10; the other 122 bits are free.
pub open spec fn is_random_id(id: u128) -> bool {
    id & 0x0000_0000_0000_f000_c000_0000_0000_0000u128
        == 0x0000_0000_0000_4000_8000_0000_0000_0000u128
}

/// Decides `is_random_id`.
pub fn has_random_form(id: u128) -> (yes: bool)
    ensures
        yes == is_random_id(id),
{
    id & 0x0000_0000_0000_f000_c000_0000_0000_0000u128
        == 0x0000_0000_0000_4000_8000_0000_0000_0000u128
}

/// Draws an identifier for a new row.
///
/// Calls `uuid::Uuid::new_v4` and reads the result as a number with
/// `uuid::Uuid::as_u128`. Not proved: that the bits for version and variant
/// are set as `is_random_id` says, which is how `new_v4` masks the random
/// number that it draws. Which identifier comes is left open; nothing says
/// that two calls give two identifiers. The call panics if the system has
/// no random bytes to give.
#[verifier::external_body]
pub(crate) fn fresh_id() -> (id: u128)
    ensures
        is_random_id(id),
{
    uuid::Uuid::new_v4().as_u128()
}

/// An identifier for a new row, drawn at random.
pub fn new_id() -> (id: u128)
    ensures
        is_random_id(id),
{
    fresh_id()
}

} // verus!
