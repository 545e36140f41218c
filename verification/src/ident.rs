//! Fresh job identifiers and the time of day: what the service takes from
//! the machine it runs on.

use vstd::prelude::*;

verus! {

/// Whether `c` may occur in a generated job identifier: a decimal digit, a
/// letter from `a` to `f`, or a hyphen.
pub open spec fn id_char(c: char) -> bool {
    ('0' <= c && c <= '9') || ('a' <= c && c <= 'f') || c == '-'
}

/// Whether `id` has the shape of a generated job identifier: 36 characters,
/// each a lower-case hexadecimal digit or a hyphen.
pub open spec fn id_shaped(id: Seq<char>) -> bool {
    &&& id.len() == 36
    &&& forall|i: int| 0 <= i < id.len() ==> id_char(#[trigger] id[i])
}

/// `uuid::Uuid::new_v4`, written out by the `Display` impl of `Uuid`: 128
/// bits from the system's random source in the hyphenated lower-case form.
/// Which identifier comes back is not stated, only its shape.
#[verifier::external_body]
pub(crate) fn random_id() -> (id: String)
    ensures
        id_shaped(id@),
{
    uuid::Uuid::new_v4().to_string()
}

/// `chrono::Utc::now`, written out by `DateTime::to_rfc3339`. Nothing is
/// stated of the text: it depends on the clock.
#[verifier::external_body]
pub(crate) fn utc_now() -> (stamp: String) {
    chrono::Utc::now().to_rfc3339()
}

} // verus!
