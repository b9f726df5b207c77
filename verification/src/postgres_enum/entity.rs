//! An enumerated type.

use vstd::prelude::*;
use vstd::string::*;
use crate::{EntityKind, SqlGraphEntity, SqlGraphIdentifier, anchor_comment, anchor_text};
use crate::error::{RenderError, check_name, name_fault};
use crate::mapping::{RustSqlMapping, mappings_register, registers};
use crate::pgx_sql::{PgxSql, prefix_of};
use crate::to_sql::entity::ToSqlConfigEntity;

verus! {

/// An enumerated type with its labels in declaration order.
#[derive(Debug, Clone, PartialEq, Eq, Hash)]
pub struct PostgresEnumEntity {
    pub name: &'static str,
    pub file: &'static str,
    pub line: u32,
    pub full_path: &'static str,
    pub source_module_path: &'static str,
    pub mappings: Vec<RustSqlMapping>,
    pub variants: Vec<&'static str>,
    pub to_sql_config: ToSqlConfigEntity,
}

/// The first `count` labels, each on a line of its own between single
/// quotes behind a tab, with a comma between one line and the next.
pub open spec fn label_lines(labels: Seq<&'static str>, count: int) -> Seq<char>
    decreases count,
{
    if count <= 0 {
        Seq::empty()
    } else if count == 1 {
        "\t'"@ + labels[0]@ + "'"@
    } else {
        label_lines(labels, count - 1) + ",\n"@ + "\t'"@ + labels[count - 1]@ + "'"@
    }
}

impl PostgresEnumEntity {
    /// Whether one of the registrations of this enum is for the type
    /// `candidate`.
    pub fn id_matches(&self, candidate: &core::any::TypeId) -> (found: bool)
        ensures
            found == registers(self.mappings@, *candidate),
    {
        mappings_register(&self.mappings, candidate)
    }

    /// The statement that declares the enum in the graph over `nodes`: the
    /// anchor comment, then the type under its qualified name with its
    /// labels in declaration order.
    pub open spec fn statement(self, nodes: Seq<SqlGraphEntity>) -> Seq<char> {
        anchor_text(Some(self.file), Some(self.line), self.full_path@) + "\n"@ + "CREATE TYPE "@
            + prefix_of(nodes, EntityKind::Enum, self.full_path@) + self.name@ + " AS ENUM (\n"@
            + label_lines(self.variants@, self.variants@.len() as int) + "\n"@ + ");"@
    }

    /// What rendering the enum by the rule of its kind gives: the failure
    /// of a name that is too long, else the statement.
    pub open spec fn sql_text(self, nodes: Seq<SqlGraphEntity>) -> Result<Seq<char>, RenderError> {
        match name_fault(self.name, self.full_path, EntityKind::Enum, self.file, self.line) {
            Some(fault) => Err(fault),
            None => Ok(self.statement(nodes)),
        }
    }

    /// Renders the enum by the rule of its kind.
    pub fn to_sql(&self, context: &PgxSql) -> (rendered: Result<String, RenderError>)
        ensures
            match self.sql_text(context.entities()) {
                Ok(text) => rendered matches Ok(sql) && sql@ == text,
                Err(fault) => rendered == Err::<String, RenderError>(fault),
            },
    {
        match check_name(self.name, self.full_path, EntityKind::Enum, self.file, self.line) {
            Err(fault) => {
                return Err(fault);
            },
            Ok(()) => {},
        }
        let mut lines = String::new();
        let mut at: usize = 0;
        while at < self.variants.len()
            invariant
                at <= self.variants@.len(),
                lines@ == label_lines(self.variants@, at as int),
            decreases self.variants@.len() - at,
        {
            if at == 0 {
                lines = String::from_str("\t'");
            } else {
                lines.append(",\n");
                lines.append("\t'");
            }
            lines.append(self.variants[at]);
            lines.append("'");
            at += 1;
        }
        let prefix = context.prefix_of(EntityKind::Enum, self.full_path);
        let mut sql = anchor_comment(Some(self.file), Some(self.line), self.full_path);
        sql.append("\n");
        sql.append("CREATE TYPE ");
        sql.append(prefix.as_str());
        sql.append(self.name);
        sql.append(" AS ENUM (\n");
        sql.append(lines.as_str());
        sql.append("\n");
        sql.append(");");
        Ok(sql)
    }
}

impl From<PostgresEnumEntity> for SqlGraphEntity {
    fn from(val: PostgresEnumEntity) -> (entity: Self) {
        SqlGraphEntity::Enum(val)
    }
}

impl vstd::std_specs::convert::FromSpecImpl<PostgresEnumEntity> for SqlGraphEntity {
    open spec fn obeys_from_spec() -> bool {
        true
    }

    open spec fn from_spec(val: PostgresEnumEntity) -> Self {
        SqlGraphEntity::Enum(val)
    }
}

impl SqlGraphIdentifier for PostgresEnumEntity {
    open spec fn dot_identifier_text(&self) -> Seq<char> {
        "enum "@ + self.full_path@
    }

    open spec fn rust_identifier_text(&self) -> Seq<char> {
        self.full_path@
    }

    open spec fn origin_file(&self) -> Option<&'static str> {
        Some(self.file)
    }

    open spec fn origin_line(&self) -> Option<u32> {
        Some(self.line)
    }

    fn dot_identifier(&self) -> String {
        String::from_str("enum ").concat(self.full_path)
    }

    fn rust_identifier(&self) -> String {
        String::from_str(self.full_path)
    }

    fn file(&self) -> Option<&'static str> {
        Some(self.file)
    }

    fn line(&self) -> Option<u32> {
        Some(self.line)
    }
}

} // verus!
