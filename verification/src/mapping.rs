//! The association between a source-language type and the database type
//! that stands for it.

use vstd::prelude::*;
use vstd::string::*;
use crate::text::str_eq;

verus! {

/// `core::any::TypeId`: an opaque token that identifies a source-language
/// type. Nothing is known of its inside.
#[verifier::external_type_specification]
#[verifier::external_body]
pub struct ExTypeId(core::any::TypeId);

/// Compares two type tokens with `TypeId`'s own `==`: two tokens are equal
/// exactly when they are the same token.
#[verifier::external_body]
pub(crate) fn same_type_id(a: &core::any::TypeId, b: &core::any::TypeId) -> (same: bool)
    ensures
        same == (*a == *b),
{
    a == b
}

/// `TypeId` is `Copy`: its `clone` hands back the same token.
pub assume_specification[ <core::any::TypeId as Clone>::clone ](id: &core::any::TypeId) -> (copy:
    core::any::TypeId)
    ensures
        copy == *id,
;

/// One registration: the source type `rust`, identified by `id`, is known
/// to the database as `sql`.
#[derive(Debug, Clone, PartialEq, Eq, Hash)]
pub struct RustSqlMapping {
    pub rust: String,
    pub sql: String,
    pub id: core::any::TypeId,
}

impl RustSqlMapping {
    /// Whether two registrations say the same: the same source type, the
    /// same token and the same database type.
    pub open spec fn same_as(self, other: RustSqlMapping) -> bool {
        self.rust@ == other.rust@ && self.sql@ == other.sql@ && self.id == other.id
    }

    /// Tells whether two registrations say the same.
    pub fn is_same_as(&self, other: &RustSqlMapping) -> (same: bool)
        ensures
            same == self.same_as(*other),
    {
        str_eq(self.rust.as_str(), other.rust.as_str()) && str_eq(
            self.sql.as_str(),
            other.sql.as_str(),
        ) && same_type_id(&self.id, &other.id)
    }
}

/// Whether `mappings` is a set: no registration occurs twice.
pub open spec fn distinct_mappings(mappings: Seq<RustSqlMapping>) -> bool {
    forall|j: int, k: int|
        0 <= j < k < mappings.len() ==> !(#[trigger] mappings[j]).same_as(#[trigger] mappings[k])
}

/// Whether `mappings` holds a registration that says the same as `mapping`.
pub open spec fn holds_mapping(mappings: Seq<RustSqlMapping>, mapping: RustSqlMapping) -> bool {
    exists|k: int| 0 <= k < mappings.len() && (#[trigger] mappings[k]).same_as(mapping)
}

/// Adds `mapping` to `mappings` unless they hold one that says the same,
/// and tells whether it was added. A set stays a set.
pub fn register_mapping(mappings: &mut Vec<RustSqlMapping>, mapping: RustSqlMapping) -> (added: bool)
    ensures
        added == !holds_mapping(old(mappings)@, mapping),
        added ==> final(mappings)@ == old(mappings)@.push(mapping),
        !added ==> final(mappings)@ == old(mappings)@,
        distinct_mappings(old(mappings)@) ==> distinct_mappings(final(mappings)@),
{
    let mut at: usize = 0;
    while at < mappings.len()
        invariant
            at <= mappings@.len(),
            mappings@ == old(mappings)@,
            forall|k: int| 0 <= k < at ==> !(#[trigger] mappings@[k]).same_as(mapping),
        decreases mappings@.len() - at,
    {
        if mappings[at].is_same_as(&mapping) {
            return false;
        }
        at += 1;
    }
    mappings.push(mapping);
    true
}

/// Whether some registration in `mappings` is for the type `candidate`.
pub open spec fn registers(mappings: Seq<RustSqlMapping>, candidate: core::any::TypeId) -> bool {
    exists|k: int| 0 <= k < mappings.len() && (#[trigger] mappings[k]).id == candidate
}

/// Tells whether some registration in `mappings` is for `candidate`.
pub fn mappings_register(mappings: &Vec<RustSqlMapping>, candidate: &core::any::TypeId) -> (found:
    bool)
    ensures
        found == registers(mappings@, *candidate),
{
    let mut i: usize = 0;
    while i < mappings.len()
        invariant
            i <= mappings@.len(),
            forall|k: int| 0 <= k < i ==> (#[trigger] mappings@[k]).id != *candidate,
        decreases mappings@.len() - i,
    {
        if same_type_id(&mappings[i].id, candidate) {
            return true;
        }
        i += 1;
    }
    false
}

} // verus!
