//! Fresh 128-bit identifiers for strokes and layers, drawn from the `uuid`
//! crate's version-4 generator.

use vstd::prelude::*;

verus! {

/// Relies on `uuid::Uuid::new_v4`: a random version-4 UUID, returned here as
/// its 128-bit value. The generator always sets the version and variant bits,
/// so the value is never zero; beyond that the value is random and nothing
/// more is promised.
#[verifier::external_body]
pub(crate) fn fresh_id() -> (id: u128)
    ensures
        id != 0,
{
    uuid::Uuid::new_v4().as_u128()
}

} // verus!
