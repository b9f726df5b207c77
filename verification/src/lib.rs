//! Turns a collection of entity descriptors (schemas, functions, types,
//! enums, operator classes, aggregates, triggers and hand-written SQL) into
//! one ordered script of data-definition statements.

use vstd::prelude::*;
use vstd::string::*;

pub mod aggregate;
pub mod control_file;
pub mod emission;
pub mod error;
pub mod extension_sql;
pub mod mapping;
pub mod pgx_sql;
pub mod pg_extern;
pub mod pg_trigger;
pub mod postgres_enum;
pub mod postgres_hash;
pub mod postgres_ord;
pub mod postgres_type;
pub mod relations;
pub mod schema;
pub mod text;
pub mod theorems;
pub mod to_sql;
pub mod used_type;

pub use crate::aggregate::{AggregateTypeEntity, FinalizeModify, ParallelOption, PgAggregateEntity};
pub use crate::control_file::ControlFile;
pub use crate::error::{
    ident_is_acceptable_to_postgres, FailureCause, IdentifierError, RenderError,
    POSTGRES_IDENTIFIER_MAX_LEN,
};
pub use crate::extension_sql::ExtensionSqlEntity;
pub use crate::mapping::RustSqlMapping;
pub use crate::pg_extern::{PgExternArgumentEntity, PgExternEntity, PgExternReturnEntity};
pub use crate::pgx_sql::PgxSql;
pub use crate::pg_trigger::{PgTriggerEntity, TriggerEvent, TriggerTiming};
pub use crate::postgres_enum::entity::PostgresEnumEntity;
pub use crate::postgres_enum::{DeriveData, DeriveInput, EnumDeriveError, PostgresEnum};
pub use crate::postgres_hash::entity::PostgresHashEntity;
pub use crate::postgres_ord::entity::PostgresOrdEntity;
pub use crate::postgres_type::PostgresTypeEntity;
pub use crate::schema::SchemaEntity;
pub use crate::to_sql::entity::{SqlOverride, ToSqlConfigEntity};
pub use crate::to_sql::{SqlAttribute, ToSqlConfig};
pub use crate::used_type::UsedTypeEntity;

use crate::error::{check_name, name_fault};
use crate::pgx_sql::{is_implicit_schema, schema_is_implicit};
use crate::text::{decimal_text, push_decimal};

verus! {

/// What identifies an entity, for people and for the graph.
pub trait SqlGraphIdentifier {
    /// The text of [`SqlGraphIdentifier::dot_identifier`].
    spec fn dot_identifier_text(&self) -> Seq<char>;

    /// The text of [`SqlGraphIdentifier::rust_identifier`].
    spec fn rust_identifier_text(&self) -> Seq<char>;

    /// The file of the declaration, where it is known.
    spec fn origin_file(&self) -> Option<&'static str>;

    /// The line of the declaration, where it is known.
    spec fn origin_line(&self) -> Option<u32>;

    /// An identifier for drawings of the graph: the kind of the entity,
    /// then what names it in the source.
    fn dot_identifier(&self) -> (id: String)
        ensures
            id@ == self.dot_identifier_text(),
    ;

    /// The identity of the entity: what names it in the source.
    fn rust_identifier(&self) -> (id: String)
        ensures
            id@ == self.rust_identifier_text(),
    ;

    /// The file of the declaration, where it is known.
    fn file(&self) -> (file: Option<&'static str>)
        ensures
            file == self.origin_file(),
    ;

    /// The line of the declaration, where it is known.
    fn line(&self) -> (line: Option<u32>)
        ensures
            line == self.origin_line(),
    ;
}

/// The kinds of entity.
#[derive(Debug, Clone, Copy, PartialEq, Eq, Hash, Structural)]
pub enum EntityKind {
    ExtensionRoot,
    Schema,
    CustomSql,
    Function,
    Type,
    BuiltinType,
    Enum,
    Ord,
    Hash,
    Aggregate,
    Trigger,
}

/// An entity of the graph: one descriptor of any kind.
#[derive(Debug, Clone, PartialEq, Eq, Hash)]
pub enum SqlGraphEntity {
    ExtensionRoot(ControlFile),
    Schema(SchemaEntity),
    CustomSql(ExtensionSqlEntity),
    Function(PgExternEntity),
    Type(PostgresTypeEntity),
    BuiltinType(String),
    Enum(PostgresEnumEntity),
    Ord(PostgresOrdEntity),
    Hash(PostgresHashEntity),
    Aggregate(PgAggregateEntity),
    Trigger(PgTriggerEntity),
}

/// The comment that anchors a rendered fragment to its declaration: the
/// place of the declaration on a line of its own where it is known, then
/// the identity.
pub open spec fn anchor_text(
    file: Option<&'static str>,
    line: Option<u32>,
    identity: Seq<char>,
) -> Seq<char> {
    match (file, line) {
        (Some(file), Some(line)) => "-- "@ + file@ + ":"@ + decimal_text(line as nat) + "\n"@
            + "-- "@ + identity,
        _ => "-- "@ + identity,
    }
}

impl SqlGraphEntity {
    /// The kind of the entity.
    pub open spec fn kind_of(self) -> EntityKind {
        match self {
            SqlGraphEntity::ExtensionRoot(_) => EntityKind::ExtensionRoot,
            SqlGraphEntity::Schema(_) => EntityKind::Schema,
            SqlGraphEntity::CustomSql(_) => EntityKind::CustomSql,
            SqlGraphEntity::Function(_) => EntityKind::Function,
            SqlGraphEntity::Type(_) => EntityKind::Type,
            SqlGraphEntity::BuiltinType(_) => EntityKind::BuiltinType,
            SqlGraphEntity::Enum(_) => EntityKind::Enum,
            SqlGraphEntity::Ord(_) => EntityKind::Ord,
            SqlGraphEntity::Hash(_) => EntityKind::Hash,
            SqlGraphEntity::Aggregate(_) => EntityKind::Aggregate,
            SqlGraphEntity::Trigger(_) => EntityKind::Trigger,
        }
    }

    /// Tells the kind of the entity.
    pub fn kind(&self) -> (kind: EntityKind)
        ensures
            kind == self.kind_of(),
    {
        match self {
            SqlGraphEntity::ExtensionRoot(_) => EntityKind::ExtensionRoot,
            SqlGraphEntity::Schema(_) => EntityKind::Schema,
            SqlGraphEntity::CustomSql(_) => EntityKind::CustomSql,
            SqlGraphEntity::Function(_) => EntityKind::Function,
            SqlGraphEntity::Type(_) => EntityKind::Type,
            SqlGraphEntity::BuiltinType(_) => EntityKind::BuiltinType,
            SqlGraphEntity::Enum(_) => EntityKind::Enum,
            SqlGraphEntity::Ord(_) => EntityKind::Ord,
            SqlGraphEntity::Hash(_) => EntityKind::Hash,
            SqlGraphEntity::Aggregate(_) => EntityKind::Aggregate,
            SqlGraphEntity::Trigger(_) => EntityKind::Trigger,
        }
    }

    /// Gives the identity of the entity without copying it.
    pub fn identity(&self) -> (id: &str)
        ensures
            id@ == self.rust_identifier_text(),
    {
        match self {
            SqlGraphEntity::ExtensionRoot(_) => "root",
            SqlGraphEntity::Schema(item) => item.source_module_path,
            SqlGraphEntity::CustomSql(item) => item.name,
            SqlGraphEntity::Function(item) => item.full_path,
            SqlGraphEntity::Type(item) => item.full_path,
            SqlGraphEntity::BuiltinType(item) => item.as_str(),
            SqlGraphEntity::Enum(item) => item.full_path,
            SqlGraphEntity::Ord(item) => item.full_path,
            SqlGraphEntity::Hash(item) => item.full_path,
            SqlGraphEntity::Aggregate(item) => item.full_path,
            SqlGraphEntity::Trigger(item) => item.full_path,
        }
    }

    /// The override directive that the entity carries. Every kind carries
    /// one but a type of the database itself, which is no declaration.
    pub open spec fn override_config(self) -> Option<ToSqlConfigEntity> {
        match self {
            SqlGraphEntity::ExtensionRoot(item) => Some(item.to_sql_config),
            SqlGraphEntity::Schema(item) => Some(item.to_sql_config),
            SqlGraphEntity::CustomSql(item) => Some(item.to_sql_config),
            SqlGraphEntity::Function(item) => Some(item.to_sql_config),
            SqlGraphEntity::Type(item) => Some(item.to_sql_config),
            SqlGraphEntity::Enum(item) => Some(item.to_sql_config),
            SqlGraphEntity::Ord(item) => Some(item.to_sql_config),
            SqlGraphEntity::Hash(item) => Some(item.to_sql_config),
            SqlGraphEntity::Aggregate(item) => Some(item.to_sql_config),
            SqlGraphEntity::Trigger(item) => Some(item.to_sql_config),
            SqlGraphEntity::BuiltinType(_) => None,
        }
    }

    /// The answer of the override directive that the entity carries; a
    /// type of the database itself always renders by the rule of its kind.
    pub open spec fn directive(self) -> SqlOverride {
        match self.override_config() {
            Some(config) => config.directive(),
            None => SqlOverride::UseDefault,
        }
    }

    /// Evaluates the override directive of the entity.
    pub fn resolve_override(&self) -> (answer: SqlOverride)
        ensures
            answer == self.directive(),
    {
        match self {
            SqlGraphEntity::ExtensionRoot(item) => item.to_sql_config.resolve(),
            SqlGraphEntity::Schema(item) => item.to_sql_config.resolve(),
            SqlGraphEntity::CustomSql(item) => item.to_sql_config.resolve(),
            SqlGraphEntity::Function(item) => item.to_sql_config.resolve(),
            SqlGraphEntity::Type(item) => item.to_sql_config.resolve(),
            SqlGraphEntity::Enum(item) => item.to_sql_config.resolve(),
            SqlGraphEntity::Ord(item) => item.to_sql_config.resolve(),
            SqlGraphEntity::Hash(item) => item.to_sql_config.resolve(),
            SqlGraphEntity::Aggregate(item) => item.to_sql_config.resolve(),
            SqlGraphEntity::Trigger(item) => item.to_sql_config.resolve(),
            SqlGraphEntity::BuiltinType(_) => SqlOverride::UseDefault,
        }
    }

    /// The failure that the name of the entity gives rise to, for the kinds
    /// that declare a named object: a name of 64 characters or more is one
    /// that the database would truncate.
    pub open spec fn naming_fault(self) -> Option<RenderError> {
        match self {
            SqlGraphEntity::Schema(item) => name_fault(
                item.name,
                item.source_module_path,
                EntityKind::Schema,
                item.file,
                item.line,
            ),
            SqlGraphEntity::Function(item) => name_fault(
                item.name,
                item.full_path,
                EntityKind::Function,
                item.file,
                item.line,
            ),
            SqlGraphEntity::Type(item) => name_fault(
                item.name,
                item.full_path,
                EntityKind::Type,
                item.file,
                item.line,
            ),
            SqlGraphEntity::Enum(item) => name_fault(
                item.name,
                item.full_path,
                EntityKind::Enum,
                item.file,
                item.line,
            ),
            SqlGraphEntity::Ord(item) => name_fault(
                item.name,
                item.full_path,
                EntityKind::Ord,
                item.file,
                item.line,
            ),
            SqlGraphEntity::Hash(item) => name_fault(
                item.name,
                item.full_path,
                EntityKind::Hash,
                item.file,
                item.line,
            ),
            SqlGraphEntity::Aggregate(item) => name_fault(
                item.name,
                item.full_path,
                EntityKind::Aggregate,
                item.file,
                item.line,
            ),
            SqlGraphEntity::Trigger(item) => name_fault(
                item.name,
                item.full_path,
                EntityKind::Trigger,
                item.file,
                item.line,
            ),
            _ => None,
        }
    }

    /// Holds the name of the entity to the length that the database allows.
    pub fn check_naming(&self) -> (checked: Result<(), RenderError>)
        ensures
            checked == (match self.naming_fault() {
                Some(fault) => Err::<(), RenderError>(fault),
                None => Ok(()),
            }),
    {
        match self {
            SqlGraphEntity::Schema(item) => check_name(
                item.name,
                item.source_module_path,
                EntityKind::Schema,
                item.file,
                item.line,
            ),
            SqlGraphEntity::Function(item) => check_name(
                item.name,
                item.full_path,
                EntityKind::Function,
                item.file,
                item.line,
            ),
            SqlGraphEntity::Type(item) => check_name(
                item.name,
                item.full_path,
                EntityKind::Type,
                item.file,
                item.line,
            ),
            SqlGraphEntity::Enum(item) => check_name(
                item.name,
                item.full_path,
                EntityKind::Enum,
                item.file,
                item.line,
            ),
            SqlGraphEntity::Ord(item) => check_name(
                item.name,
                item.full_path,
                EntityKind::Ord,
                item.file,
                item.line,
            ),
            SqlGraphEntity::Hash(item) => check_name(
                item.name,
                item.full_path,
                EntityKind::Hash,
                item.file,
                item.line,
            ),
            SqlGraphEntity::Aggregate(item) => check_name(
                item.name,
                item.full_path,
                EntityKind::Aggregate,
                item.file,
                item.line,
            ),
            SqlGraphEntity::Trigger(item) => check_name(
                item.name,
                item.full_path,
                EntityKind::Trigger,
                item.file,
                item.line,
            ),
            _ => Ok(()),
        }
    }

    /// What the rule of the entity's kind renders in the graph over
    /// `nodes`. An implicit schema, a type of the database itself and a
    /// function that a type absorbs render as nothing.
    pub open spec fn default_sql(self, nodes: Seq<SqlGraphEntity>) -> Result<Seq<char>, RenderError> {
        match self {
            SqlGraphEntity::Schema(item) => if is_implicit_schema(item.name@) {
                Ok(Seq::empty())
            } else {
                item.sql_text()
            },
            SqlGraphEntity::CustomSql(item) => Ok(item.sql_text()),
            SqlGraphEntity::Function(item) => if item.absorbed(nodes) {
                Ok(Seq::empty())
            } else {
                item.sql_text(nodes)
            },
            SqlGraphEntity::Type(item) => item.sql_text(nodes),
            SqlGraphEntity::BuiltinType(_) => Ok(Seq::empty()),
            SqlGraphEntity::Enum(item) => item.sql_text(nodes),
            SqlGraphEntity::Ord(item) => item.sql_text(nodes),
            SqlGraphEntity::Hash(item) => item.sql_text(nodes),
            SqlGraphEntity::Aggregate(item) => item.sql_text(nodes),
            SqlGraphEntity::Trigger(item) => item.sql_text(nodes),
            SqlGraphEntity::ExtensionRoot(item) => Ok(item.sql_text()),
        }
    }

    /// The fragment of the entity in the graph over `nodes`: what its
    /// override directive dictates; without one the failure of a name that
    /// is too long, and else what the rule of its kind renders.
    pub open spec fn fragment(self, nodes: Seq<SqlGraphEntity>) -> Result<Seq<char>, RenderError> {
        match self.directive() {
            SqlOverride::Skip => Ok(Seq::empty()),
            SqlOverride::Replace(text) => Ok(text@),
            SqlOverride::UseDefault => match self.naming_fault() {
                Some(fault) => Err(fault),
                None => self.default_sql(nodes),
            },
        }
    }

    /// Renders the fragment of the entity.
    pub fn to_sql(&self, context: &PgxSql) -> (rendered: Result<String, RenderError>)
        ensures
            match self.fragment(context.entities()) {
                Ok(text) => rendered matches Ok(sql) && sql@ == text,
                Err(fault) => rendered == Err::<String, RenderError>(fault),
            },
    {
        match self.resolve_override() {
            SqlOverride::Skip => {
                return Ok(String::new());
            },
            SqlOverride::Replace(text) => {
                return Ok(String::from_str(text));
            },
            SqlOverride::UseDefault => {},
        }
        match self.check_naming() {
            Err(fault) => {
                return Err(fault);
            },
            Ok(()) => {},
        }
        match self {
            SqlGraphEntity::Schema(item) => {
                if schema_is_implicit(item.name) {
                    Ok(String::new())
                } else {
                    item.to_sql()
                }
            },
            SqlGraphEntity::CustomSql(item) => Ok(item.to_sql()),
            SqlGraphEntity::Function(item) => {
                if item.is_absorbed(context) {
                    Ok(String::new())
                } else {
                    item.to_sql(context)
                }
            },
            SqlGraphEntity::Type(item) => item.to_sql(context),
            SqlGraphEntity::BuiltinType(_) => Ok(String::new()),
            SqlGraphEntity::Enum(item) => item.to_sql(context),
            SqlGraphEntity::Ord(item) => item.to_sql(context),
            SqlGraphEntity::Hash(item) => item.to_sql(context),
            SqlGraphEntity::Aggregate(item) => item.to_sql(context),
            SqlGraphEntity::Trigger(item) => item.to_sql(context),
            SqlGraphEntity::ExtensionRoot(item) => Ok(item.to_sql()),
        }
    }

    /// The anchor comment of the entity.
    pub open spec fn anchor(self) -> Seq<char> {
        anchor_text(self.origin_file(), self.origin_line(), self.rust_identifier_text())
    }

    /// Renders the comment that anchors the entity's fragment to its
    /// declaration.
    pub fn sql_anchor_comment(&self) -> (comment: String)
        ensures
            comment@ == self.anchor(),
    {
        let identity = self.rust_identifier();
        anchor_comment(self.file(), self.line(), identity.as_str())
    }
}

/// Renders an anchor comment from its parts.
pub fn anchor_comment(file: Option<&'static str>, line: Option<u32>, identity: &str) -> (comment:
    String)
    ensures
        comment@ == anchor_text(file, line, identity@),
{
    let mut comment = String::from_str("-- ");
    match (file, line) {
        (Some(file), Some(line)) => {
            comment.append(file);
            comment.append(":");
            push_decimal(&mut comment, line as u64);
            comment.append("\n");
            comment.append("-- ");
        },
        _ => {},
    }
    comment.append(identity);
    comment
}

impl SqlGraphIdentifier for SqlGraphEntity {
    open spec fn dot_identifier_text(&self) -> Seq<char> {
        match self {
            SqlGraphEntity::Schema(item) => item.dot_identifier_text(),
            SqlGraphEntity::CustomSql(item) => item.dot_identifier_text(),
            SqlGraphEntity::Function(item) => item.dot_identifier_text(),
            SqlGraphEntity::Type(item) => item.dot_identifier_text(),
            SqlGraphEntity::BuiltinType(item) => "preexisting type "@ + item@,
            SqlGraphEntity::Enum(item) => item.dot_identifier_text(),
            SqlGraphEntity::Ord(item) => item.dot_identifier_text(),
            SqlGraphEntity::Hash(item) => item.dot_identifier_text(),
            SqlGraphEntity::Aggregate(item) => item.dot_identifier_text(),
            SqlGraphEntity::Trigger(item) => item.dot_identifier_text(),
            SqlGraphEntity::ExtensionRoot(item) => item.dot_identifier_text(),
        }
    }

    open spec fn rust_identifier_text(&self) -> Seq<char> {
        match self {
            SqlGraphEntity::Schema(item) => item.rust_identifier_text(),
            SqlGraphEntity::CustomSql(item) => item.rust_identifier_text(),
            SqlGraphEntity::Function(item) => item.rust_identifier_text(),
            SqlGraphEntity::Type(item) => item.rust_identifier_text(),
            SqlGraphEntity::BuiltinType(item) => item@,
            SqlGraphEntity::Enum(item) => item.rust_identifier_text(),
            SqlGraphEntity::Ord(item) => item.rust_identifier_text(),
            SqlGraphEntity::Hash(item) => item.rust_identifier_text(),
            SqlGraphEntity::Aggregate(item) => item.rust_identifier_text(),
            SqlGraphEntity::Trigger(item) => item.rust_identifier_text(),
            SqlGraphEntity::ExtensionRoot(item) => item.rust_identifier_text(),
        }
    }

    open spec fn origin_file(&self) -> Option<&'static str> {
        match self {
            SqlGraphEntity::Schema(item) => item.origin_file(),
            SqlGraphEntity::CustomSql(item) => item.origin_file(),
            SqlGraphEntity::Function(item) => item.origin_file(),
            SqlGraphEntity::Type(item) => item.origin_file(),
            SqlGraphEntity::BuiltinType(_item) => None,
            SqlGraphEntity::Enum(item) => item.origin_file(),
            SqlGraphEntity::Ord(item) => item.origin_file(),
            SqlGraphEntity::Hash(item) => item.origin_file(),
            SqlGraphEntity::Aggregate(item) => item.origin_file(),
            SqlGraphEntity::Trigger(item) => item.origin_file(),
            SqlGraphEntity::ExtensionRoot(item) => item.origin_file(),
        }
    }

    open spec fn origin_line(&self) -> Option<u32> {
        match self {
            SqlGraphEntity::Schema(item) => item.origin_line(),
            SqlGraphEntity::CustomSql(item) => item.origin_line(),
            SqlGraphEntity::Function(item) => item.origin_line(),
            SqlGraphEntity::Type(item) => item.origin_line(),
            SqlGraphEntity::BuiltinType(_item) => None,
            SqlGraphEntity::Enum(item) => item.origin_line(),
            SqlGraphEntity::Ord(item) => item.origin_line(),
            SqlGraphEntity::Hash(item) => item.origin_line(),
            SqlGraphEntity::Aggregate(item) => item.origin_line(),
            SqlGraphEntity::Trigger(item) => item.origin_line(),
            SqlGraphEntity::ExtensionRoot(item) => item.origin_line(),
        }
    }

    fn dot_identifier(&self) -> String {
        match self {
            SqlGraphEntity::Schema(item) => item.dot_identifier(),
            SqlGraphEntity::CustomSql(item) => item.dot_identifier(),
            SqlGraphEntity::Function(item) => item.dot_identifier(),
            SqlGraphEntity::Type(item) => item.dot_identifier(),
            SqlGraphEntity::BuiltinType(item) => String::from_str("preexisting type ").concat(
                item.as_str(),
            ),
            SqlGraphEntity::Enum(item) => item.dot_identifier(),
            SqlGraphEntity::Ord(item) => item.dot_identifier(),
            SqlGraphEntity::Hash(item) => item.dot_identifier(),
            SqlGraphEntity::Aggregate(item) => item.dot_identifier(),
            SqlGraphEntity::Trigger(item) => item.dot_identifier(),
            SqlGraphEntity::ExtensionRoot(item) => item.dot_identifier(),
        }
    }

    fn rust_identifier(&self) -> String {
        match self {
            SqlGraphEntity::Schema(item) => item.rust_identifier(),
            SqlGraphEntity::CustomSql(item) => item.rust_identifier(),
            SqlGraphEntity::Function(item) => item.rust_identifier(),
            SqlGraphEntity::Type(item) => item.rust_identifier(),
            SqlGraphEntity::BuiltinType(item) => item.clone(),
            SqlGraphEntity::Enum(item) => item.rust_identifier(),
            SqlGraphEntity::Ord(item) => item.rust_identifier(),
            SqlGraphEntity::Hash(item) => item.rust_identifier(),
            SqlGraphEntity::Aggregate(item) => item.rust_identifier(),
            SqlGraphEntity::Trigger(item) => item.rust_identifier(),
            SqlGraphEntity::ExtensionRoot(item) => item.rust_identifier(),
        }
    }

    fn file(&self) -> Option<&'static str> {
        match self {
            SqlGraphEntity::Schema(item) => item.file(),
            SqlGraphEntity::CustomSql(item) => item.file(),
            SqlGraphEntity::Function(item) => item.file(),
            SqlGraphEntity::Type(item) => item.file(),
            SqlGraphEntity::BuiltinType(_item) => None,
            SqlGraphEntity::Enum(item) => item.file(),
            SqlGraphEntity::Ord(item) => item.file(),
            SqlGraphEntity::Hash(item) => item.file(),
            SqlGraphEntity::Aggregate(item) => item.file(),
            SqlGraphEntity::Trigger(item) => item.file(),
            SqlGraphEntity::ExtensionRoot(item) => item.file(),
        }
    }

    fn line(&self) -> Option<u32> {
        match self {
            SqlGraphEntity::Schema(item) => item.line(),
            SqlGraphEntity::CustomSql(item) => item.line(),
            SqlGraphEntity::Function(item) => item.line(),
            SqlGraphEntity::Type(item) => item.line(),
            SqlGraphEntity::BuiltinType(_item) => None,
            SqlGraphEntity::Enum(item) => item.line(),
            SqlGraphEntity::Ord(item) => item.line(),
            SqlGraphEntity::Hash(item) => item.line(),
            SqlGraphEntity::Aggregate(item) => item.line(),
            SqlGraphEntity::Trigger(item) => item.line(),
            SqlGraphEntity::ExtensionRoot(item) => item.line(),
        }
    }
}

} // verus!
