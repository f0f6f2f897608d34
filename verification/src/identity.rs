//! Identifiers and timestamps of records.
use vstd::prelude::*;
use uuid::Uuid;

verus! {

/// A record identifier of the `uuid` crate, carried as it is.
#[verifier::external_type_specification]
#[verifier::external_body]
pub struct ExUuid(Uuid);

/// A point in time in UTC, as `chrono::DateTime<Utc>` gives it: seconds
/// since the Unix epoch and the nanoseconds beyond them.
#[derive(Clone, Copy, Debug, PartialEq, Eq, Structural)]
pub struct UtcTimestamp {
    pub secs: i64,
    pub subsec_nanos: u32,
}

/// `Uuid`'s `clone`, which the `uuid` crate derives on a `Copy` type: the
/// claim is that the clone is the identifier itself.
pub assume_specification[ <Uuid as Clone>::clone ](id: &Uuid) -> (copy: Uuid)
    ensures
        copy == *id,
;

/// Compares two identifiers with `Uuid`'s `==`, which the `uuid` crate
/// derives over the identifiers' sixteen bytes: the claim is that it is true
/// exactly of equal identifiers.
#[verifier::external_body]
pub(crate) fn same_uuid(a: &Uuid, b: &Uuid) -> (same: bool)
    ensures
        same == (*a == *b),
{
    *a == *b
}

} // verus!
