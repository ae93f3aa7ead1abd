//! Client-side ids for job applications that the service has not numbered yet.

use vstd::prelude::*;

verus! {

/// Whether a 128-bit id is a random (version 4, RFC 4122 variant) UUID
/// value: its version and variant bits are set.
pub open spec fn is_v4_id(id: u128) -> bool {
    id & 0x4000_8000_0000_0000_0000u128 == 0x4000_8000_0000_0000_0000u128
}

/// A random UUID: `uuid::Uuid::new_v4()` as its 128-bit value. `new_v4`
/// masks a random 128-bit value and sets its version and variant bits, so
/// they are set in every outcome; nothing else is claimed, as the rest is
/// random.
#[verifier::external_body]
pub(crate) fn random_temp_id() -> (id: u128)
    ensures
        is_v4_id(id),
{
    uuid::Uuid::new_v4().as_u128()
}

/// A fresh random id for a job application: a version-4 UUID value, so its
/// version and variant bits are set and it is never the nil id 0. The other
/// bits are random.
pub fn new_temp_id() -> (id: u128)
    ensures
        is_v4_id(id),
        id != 0,
{
    let id = random_temp_id();
    assert(id & 0x4000_8000_0000_0000_0000u128 == 0x4000_8000_0000_0000_0000u128 ==> id != 0) by (bit_vector);
    id
}

} // verus!
