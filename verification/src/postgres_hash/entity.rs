//! A default hash operator class for a type.

use vstd::prelude::*;
use vstd::string::*;
use crate::{EntityKind, SqlGraphEntity, SqlGraphIdentifier, anchor_comment, anchor_text};
use crate::error::{RenderError, check_name, name_fault};
use crate::pgx_sql::{PgxSql, prefix_of};
use crate::text::{function_name, lowercase_text, to_lowercase};
use crate::to_sql::entity::ToSqlConfigEntity;

verus! {

/// A default hash operator class for the type named `name`.
#[derive(Debug, Clone, PartialEq, Eq, Hash)]
pub struct PostgresHashEntity {
    pub name: &'static str,
    pub file: &'static str,
    pub line: u32,
    pub full_path: &'static str,
    pub source_module_path: &'static str,
    pub id: core::any::TypeId,
    pub to_sql_config: ToSqlConfigEntity,
}

impl PostgresHashEntity {
    /// The name of the hash function of the type: the lowercase form of the
    /// type's name, then `_hash`.
    pub fn fn_name(&self) -> (name: String)
        ensures
            name@ == lowercase_text(self.name@) + "_hash"@,
    {
        function_name(to_lowercase(self.name).as_str(), "_hash")
    }

    /// The statements that declare the operator family and the default
    /// operator class, with every name behind `prefix`: equality, wired to
    /// the hash function `function`.
    pub open spec fn statement_text(self, prefix: Seq<char>, function: Seq<char>) -> Seq<char> {
        anchor_text(Some(self.file), Some(self.line), self.full_path@) + "\n"@
            + "CREATE OPERATOR FAMILY "@ + prefix + self.name@ + "_hash_ops USING hash;\n"@
            + "CREATE OPERATOR CLASS "@ + prefix + self.name@ + "_hash_ops DEFAULT FOR TYPE "@
            + prefix + self.name@ + " USING hash FAMILY "@ + prefix + self.name@ + "_hash_ops AS\n"@
            + "\tOPERATOR    1   =  ("@ + prefix + self.name@ + ", "@ + prefix + self.name@
            + "),\n"@ + "\tFUNCTION    1   "@ + prefix + function + "("@ + prefix + self.name@
            + ");"@
    }

    /// The statements that declare the operator class in the graph over
    /// `nodes`: every name qualified by the schema of the class, the
    /// function named after the type.
    pub open spec fn statement(self, nodes: Seq<SqlGraphEntity>) -> Seq<char> {
        self.statement_text(
            prefix_of(nodes, EntityKind::Hash, self.full_path@),
            lowercase_text(self.name@) + "_hash"@,
        )
    }

    /// What rendering the operator class by the rule of its kind gives: the
    /// failure of a name that is too long, else the statements.
    pub open spec fn sql_text(self, nodes: Seq<SqlGraphEntity>) -> Result<Seq<char>, RenderError> {
        match name_fault(self.name, self.full_path, EntityKind::Hash, self.file, self.line) {
            Some(fault) => Err(fault),
            None => Ok(self.statement(nodes)),
        }
    }

    /// Writes the statements that declare the operator family and the
    /// default operator class, with every name behind `prefix` and equality
    /// wired to the function `function`.
    pub fn statement_with(&self, prefix: &str, function: &str) -> (sql: String)
        ensures
            sql@ == self.statement_text(prefix@, function@),
    {
        let mut sql = anchor_comment(Some(self.file), Some(self.line), self.full_path);
        sql.append("\n");
        sql.append("CREATE OPERATOR FAMILY ");
        sql.append(prefix);
        sql.append(self.name);
        sql.append("_hash_ops USING hash;\n");
        sql.append("CREATE OPERATOR CLASS ");
        sql.append(prefix);
        sql.append(self.name);
        sql.append("_hash_ops DEFAULT FOR TYPE ");
        sql.append(prefix);
        sql.append(self.name);
        sql.append(" USING hash FAMILY ");
        sql.append(prefix);
        sql.append(self.name);
        sql.append("_hash_ops AS\n");
        sql.append("\tOPERATOR    1   =  (");
        sql.append(prefix);
        sql.append(self.name);
        sql.append(", ");
        sql.append(prefix);
        sql.append(self.name);
        sql.append("),\n");
        sql.append("\tFUNCTION    1   ");
        sql.append(prefix);
        sql.append(function);
        sql.append("(");
        sql.append(prefix);
        sql.append(self.name);
        sql.append(");");
        sql
    }

    /// Renders the operator class by the rule of its kind.
    pub fn to_sql(&self, context: &PgxSql) -> (rendered: Result<String, RenderError>)
        ensures
            match self.sql_text(context.entities()) {
                Ok(text) => rendered matches Ok(sql) && sql@ == text,
                Err(fault) => rendered == Err::<String, RenderError>(fault),
            },
    {
        match check_name(self.name, self.full_path, EntityKind::Hash, self.file, self.line) {
            Err(fault) => {
                return Err(fault);
            },
            Ok(()) => {},
        }
        let prefix = context.prefix_of(EntityKind::Hash, self.full_path);
        let function = self.fn_name();
        Ok(self.statement_with(prefix.as_str(), function.as_str()))
    }
}

impl From<PostgresHashEntity> for SqlGraphEntity {
    fn from(val: PostgresHashEntity) -> (entity: Self) {
        SqlGraphEntity::Hash(val)
    }
}

impl vstd::std_specs::convert::FromSpecImpl<PostgresHashEntity> for SqlGraphEntity {
    open spec fn obeys_from_spec() -> bool {
        true
    }

    open spec fn from_spec(val: PostgresHashEntity) -> Self {
        SqlGraphEntity::Hash(val)
    }
}

impl SqlGraphIdentifier for PostgresHashEntity {
    open spec fn dot_identifier_text(&self) -> Seq<char> {
        "hash "@ + self.full_path@
    }

    open spec fn rust_identifier_text(&self) -> Seq<char> {
        self.full_path@
    }

    open spec fn origin_file(&self) -> Option<&'static str> {
        Some(self.file)
    }

    open spec fn origin_line(&self) -> Option<u32> {
        Some(self.line)
    }

    fn dot_identifier(&self) -> String {
        String::from_str("hash ").concat(self.full_path)
    }

    fn rust_identifier(&self) -> String {
        String::from_str(self.full_path)
    }

    fn file(&self) -> Option<&'static str> {
        Some(self.file)
    }

    fn line(&self) -> Option<u32> {
        Some(self.line)
    }
}

} // verus!
