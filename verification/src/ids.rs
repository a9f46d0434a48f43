use vstd::prelude::*;

verus! {

/// A stable entity identifier, carried as the 128-bit value of a UUID.
#[derive(Clone, Copy, PartialEq, Eq, Structural, Debug)]
pub struct Id(pub u128);

/// Relies on `uuid::Uuid::new_v4` and `uuid::Uuid::as_u128`: a random
/// version-4 UUID returned as its 128-bit value. Nothing can be promised of a
/// random value.
#[verifier::external_body]
fn fresh_id_value() -> u128 {
    uuid::Uuid::new_v4().as_u128()
}

/// A fresh identifier for a newly constructed entity.
pub(crate) fn new_id() -> Id {
    Id(fresh_id_value())
}

} // verus!
