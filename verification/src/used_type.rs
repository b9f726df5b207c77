//! A reference from one descriptor to a type that another descriptor, or
//! the database itself, declares.

use vstd::prelude::*;

verus! {

/// A type as a function or an aggregate uses it.
#[derive(Debug, Clone, PartialEq, Eq, Hash)]
pub struct UsedTypeEntity {
    /// The type as written in the source.
    pub ty_source: &'static str,
    /// The token of the source type; the declaring descriptor is found by it.
    pub ty_id: core::any::TypeId,
    /// The fully qualified source path of the type.
    pub full_path: &'static str,
    /// The database type that stands for it, where one is known.
    pub sql: Option<&'static str>,
}

impl UsedTypeEntity {
    /// The name of the database type, or nothing where none is known.
    pub open spec fn sql_name(self) -> Seq<char> {
        match self.sql {
            Some(name) => name@,
            None => Seq::empty(),
        }
    }
}

} // verus!
