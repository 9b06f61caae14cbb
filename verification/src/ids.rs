//! Message identifiers.

use vstd::prelude::*;

verus! {

/// `uuid::Uuid`, opaque to the verifier.
#[verifier::external_type_specification]
#[verifier::external_body]
pub struct ExUuid(uuid::Uuid);

/// `Uuid` is `Copy`: a clone is the same identifier.
pub assume_specification[ <uuid::Uuid as Clone>::clone ](id: &uuid::Uuid) -> (copy: uuid::Uuid)
    ensures
        copy == *id,
;

/// A random version-4 identifier from `uuid::Uuid::new_v4`. Nothing is
/// claimed of the value.
#[verifier::external_body]
pub(crate) fn fresh_id() -> (id: uuid::Uuid) {
    uuid::Uuid::new_v4()
}

} // verus!
