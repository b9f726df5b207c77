//! An enum declaration as it is read from the source, before a descriptor
//! is made of it.

use vstd::prelude::*;
use vstd::string::*;
use crate::error::{IdentifierError, fits_identifier, ident_is_acceptable_to_postgres};
use crate::to_sql::ToSqlConfig;

pub mod entity;

verus! {

/// What kind of item a derive was written on, with the labels of an enum.
#[derive(Debug, Clone, PartialEq, Eq)]
pub enum DeriveData {
    Struct,
    Enum(Vec<String>),
    Union,
}

/// The item that a derive was written on: its name, its kind, and the
/// override directive read from its attributes, if it has one.
#[derive(Debug, Clone, PartialEq, Eq)]
pub struct DeriveInput {
    pub ident: String,
    pub data: DeriveData,
    pub to_sql_config: Option<ToSqlConfig>,
}

/// Why no enum declaration can be made of an item.
#[derive(Debug, Clone, PartialEq, Eq)]
pub enum EnumDeriveError {
    /// The item is a struct or a union.
    ExpectedEnum,
    /// The name of the enum is one that the database would truncate, and
    /// no override takes the naming away from it.
    Identifier(IdentifierError),
}

impl EnumDeriveError {
    /// The text of the complaint.
    pub open spec fn message_text(self) -> Seq<char> {
        match self {
            EnumDeriveError::ExpectedEnum => "expected enum"@,
            EnumDeriveError::Identifier(fault) => fault.message_text(),
        }
    }

    /// Words the complaint.
    pub fn message(&self) -> (text: String)
        ensures
            text@ == self.message_text(),
    {
        match self {
            EnumDeriveError::ExpectedEnum => String::from_str("expected enum"),
            EnumDeriveError::Identifier(fault) => fault.message(),
        }
    }
}

/// A parsed enum declaration. Its name is one that the database takes as it
/// is, unless an override takes the naming away from it.
#[derive(Debug)]
pub struct PostgresEnum {
    name: String,
    variants: Vec<String>,
    to_sql_config: ToSqlConfig,
}

impl PostgresEnum {
    #[verifier::type_invariant]
    spec fn well_named(&self) -> bool {
        self.to_sql_config.overrides() || fits_identifier(self.name@)
    }

    /// The name of the enum.
    pub closed spec fn name_text(&self) -> Seq<char> {
        self.name@
    }

    /// The labels of the enum, in declaration order.
    pub closed spec fn labels(&self) -> Seq<String> {
        self.variants@
    }

    /// The override directive of the enum.
    pub closed spec fn config(&self) -> ToSqlConfig {
        self.to_sql_config
    }

    /// Makes an enum declaration. The name must be shorter than 64
    /// characters unless the override replaces or suppresses the default
    /// rendering.
    pub fn new(name: String, variants: Vec<String>, to_sql_config: ToSqlConfig) -> (made: Result<
        PostgresEnum,
        IdentifierError,
    >)
        ensures
            made is Ok <==> to_sql_config.overrides() || fits_identifier(name@),
            made matches Ok(item) ==> item.name_text() == name@ && item.labels() == variants@
                && item.config() == to_sql_config,
            made matches Err(fault) ==> fault.name@ == name@ && fault.length == name@.len(),
    {
        if !to_sql_config.overrides_default() {
            match ident_is_acceptable_to_postgres(name.as_str()) {
                Err(fault) => {
                    return Err(fault);
                },
                Ok(()) => {},
            }
        }
        Ok(PostgresEnum { name, variants, to_sql_config })
    }

    /// What making an enum declaration of `input` comes to: an item that is
    /// no enum is refused, then a name that the database would truncate.
    pub open spec fn derive_outcome(input: DeriveInput) -> Option<EnumDeriveError> {
        match input.data {
            DeriveData::Enum(_) => {
                let config = match input.to_sql_config {
                    Some(config) => config,
                    None => ToSqlConfig { enabled: true, content: None },
                };
                if config.overrides() || fits_identifier(input.ident@) {
                    None
                } else {
                    Some(
                        EnumDeriveError::Identifier(
                            IdentifierError {
                                name: input.ident,
                                length: input.ident@.len() as usize,
                            },
                        ),
                    )
                }
            },
            _ => Some(EnumDeriveError::ExpectedEnum),
        }
    }

    /// Makes an enum declaration of the item that a derive was written on.
    /// An item without an override directive gets the default one.
    pub fn from_derive_input(derive_input: DeriveInput) -> (made: Result<
        PostgresEnum,
        EnumDeriveError,
    >)
        ensures
            match Self::derive_outcome(derive_input) {
                None => {
                    &&& made matches Ok(item)
                    &&& item.name_text() == derive_input.ident@
                    &&& derive_input.data matches DeriveData::Enum(labels)
                    &&& item.labels() == labels@
                    &&& item.config().enabled == (match derive_input.to_sql_config {
                        Some(config) => config.enabled,
                        None => true,
                    })
                    &&& item.config().content == (match derive_input.to_sql_config {
                        Some(config) => config.content,
                        None => None,
                    })
                },
                Some(EnumDeriveError::ExpectedEnum) => made matches Err(
                    EnumDeriveError::ExpectedEnum,
                ),
                Some(EnumDeriveError::Identifier(_)) => {
                    &&& made matches Err(EnumDeriveError::Identifier(fault))
                    &&& fault.name@ == derive_input.ident@
                    &&& fault.length == derive_input.ident@.len()
                },
            },
    {
        let to_sql_config = match derive_input.to_sql_config {
            Some(config) => config,
            None => ToSqlConfig::default(),
        };
        let variants = match derive_input.data {
            DeriveData::Enum(variants) => variants,
            DeriveData::Union | DeriveData::Struct => {
                return Err(EnumDeriveError::ExpectedEnum);
            },
        };
        match PostgresEnum::new(derive_input.ident, variants, to_sql_config) {
            Ok(item) => Ok(item),
            Err(fault) => Err(EnumDeriveError::Identifier(fault)),
        }
    }

    /// The name of the enum.
    pub fn name(&self) -> (name: &str)
        ensures
            name@ == self.name_text(),
            self.config().overrides() || fits_identifier(name@),
    {
        proof {
            use_type_invariant(self);
        }
        self.name.as_str()
    }

    /// The labels of the enum, in declaration order.
    pub fn variants(&self) -> (variants: &Vec<String>)
        ensures
            variants@ == self.labels(),
    {
        &self.variants
    }

    /// The override directive of the enum.
    pub fn to_sql_config(&self) -> (config: &ToSqlConfig)
        ensures
            *config == self.config(),
    {
        &self.to_sql_config
    }

    /// The name of the function that hands out the descriptor of the enum.
    pub fn entity_fn_name(&self) -> (name: String)
        ensures
            name@ == "__pgx_internals_enum_"@ + self.name_text(),
    {
        String::from_str("__pgx_internals_enum_").concat(self.name.as_str())
    }
}

} // verus!
