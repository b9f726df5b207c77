//! What can go wrong: a name that the database would truncate, and a
//! descriptor from which no valid statement can be made.

use vstd::prelude::*;
use vstd::string::*;
use crate::EntityKind;
use crate::text::{decimal_text, push_decimal};

verus! {

/// Number of characters at which the database starts truncating identifiers.
pub const POSTGRES_IDENTIFIER_MAX_LEN: usize = 64;

/// Whether the database takes a name of this text as it is: it is shorter
/// than the length at which identifiers are truncated.
pub open spec fn fits_identifier(name: Seq<char>) -> bool {
    name.len() < POSTGRES_IDENTIFIER_MAX_LEN
}

/// An identifier that the database would truncate.
#[derive(Debug, Clone, PartialEq, Eq)]
pub struct IdentifierError {
    /// The identifier.
    pub name: String,
    /// Its length in characters.
    pub length: usize,
}

impl IdentifierError {
    /// The text of the complaint.
    pub open spec fn message_text(self) -> Seq<char> {
        "Identifier `"@ + self.name@ + "` was "@ + decimal_text(self.length as nat)
            + " characters long, PostgreSQL will truncate identifiers with less than 64 characters, opt for an identifier which Postgres won't truncate"@
    }

    /// Words the complaint.
    pub fn message(&self) -> (text: String)
        ensures
            text@ == self.message_text(),
    {
        let mut text = String::from_str("Identifier `");
        text.append(self.name.as_str());
        text.append("` was ");
        push_decimal(&mut text, self.length as u64);
        text.append(
            " characters long, PostgreSQL will truncate identifiers with less than 64 characters, opt for an identifier which Postgres won't truncate",
        );
        text
    }
}

/// Why no valid statement can be made from a descriptor.
#[derive(Debug, Clone, Copy, PartialEq, Eq, Hash)]
pub enum FailureCause {
    /// An argument is of a type for which no database type is known.
    UnmappedArgument,
    /// The result is of a type for which no database type is known.
    UnmappedReturn,
    /// The state of an aggregate is of a type for which no database type is
    /// known.
    UnmappedState,
    /// An aggregate says how its final function treats the state, and has
    /// no final function.
    FinalizeModifyWithoutFinalFunction,
}

/// A failure that ends the emission.
#[derive(Debug, Clone, Copy, PartialEq, Eq, Hash)]
pub enum RenderError {
    /// The name of an entity that renders by the rule of its kind is as
    /// long as, or longer than, the database allows.
    IdentifierTooLong {
        name: &'static str,
        length: usize,
        identity: &'static str,
        kind: EntityKind,
        file: &'static str,
        line: u32,
    },
    /// No valid statement can be made from the descriptor.
    RenderingFailure {
        identity: &'static str,
        kind: EntityKind,
        file: &'static str,
        line: u32,
        cause: FailureCause,
    },
}

/// The failure that the name of an entity gives rise to, if any.
pub open spec fn name_fault(
    name: &'static str,
    identity: &'static str,
    kind: EntityKind,
    file: &'static str,
    line: u32,
) -> Option<RenderError> {
    if fits_identifier(name@) {
        None
    } else {
        Some(
            RenderError::IdentifierTooLong {
                name,
                length: name@.len() as usize,
                identity,
                kind,
                file,
                line,
            },
        )
    }
}

/// Holds the name of an entity to the length that the database allows.
pub fn check_name(
    name: &'static str,
    identity: &'static str,
    kind: EntityKind,
    file: &'static str,
    line: u32,
) -> (checked: Result<(), RenderError>)
    ensures
        checked == (match name_fault(name, identity, kind, file, line) {
            Some(fault) => Err::<(), RenderError>(fault),
            None => Ok(()),
        }),
{
    let length = name.unicode_len();
    if length < POSTGRES_IDENTIFIER_MAX_LEN {
        Ok(())
    } else {
        Err(RenderError::IdentifierTooLong { name, length, identity, kind, file, line })
    }
}

/// Validates that an identifier is acceptable to the database: it must be
/// shorter than 64 characters.
pub fn ident_is_acceptable_to_postgres(ident: &str) -> (checked: Result<(), IdentifierError>)
    ensures
        checked is Ok <==> fits_identifier(ident@),
        checked matches Err(e) ==> e.name@ == ident@ && e.length == ident@.len(),
{
    let length = ident.unicode_len();
    if length < POSTGRES_IDENTIFIER_MAX_LEN {
        Ok(())
    } else {
        Err(IdentifierError { name: String::from_str(ident), length })
    }
}

} // verus!
