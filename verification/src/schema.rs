//! A schema declared by a source module.

use vstd::prelude::*;
use vstd::string::*;
use crate::{EntityKind, SqlGraphEntity, SqlGraphIdentifier, anchor_comment, anchor_text};
use crate::error::{RenderError, check_name, name_fault};
use crate::to_sql::entity::ToSqlConfigEntity;

verus! {

/// A schema: the entities whose module path equals `source_module_path` live in it.
#[derive(Debug, Clone, Copy, PartialEq, Eq, Hash)]
pub struct SchemaEntity {
    pub source_module_path: &'static str,
    pub name: &'static str,
    pub file: &'static str,
    pub line: u32,
    pub to_sql_config: ToSqlConfigEntity,
}

impl SchemaEntity {
    /// The statement that declares the schema.
    pub open spec fn statement(self) -> Seq<char> {
        anchor_text(Some(self.file), Some(self.line), self.source_module_path@) + "\n"@
            + "CREATE SCHEMA IF NOT EXISTS "@ + self.name@ + ";"@
    }

    /// What rendering the schema by the rule of its kind gives: the failure
    /// of a name that is too long, else the statement.
    pub open spec fn sql_text(self) -> Result<Seq<char>, RenderError> {
        match name_fault(
            self.name,
            self.source_module_path,
            EntityKind::Schema,
            self.file,
            self.line,
        ) {
            Some(fault) => Err(fault),
            None => Ok(self.statement()),
        }
    }

    /// Renders the schema by the rule of its kind.
    pub fn to_sql(&self) -> (rendered: Result<String, RenderError>)
        ensures
            match self.sql_text() {
                Ok(text) => rendered matches Ok(sql) && sql@ == text,
                Err(fault) => rendered == Err::<String, RenderError>(fault),
            },
    {
        match check_name(
            self.name,
            self.source_module_path,
            EntityKind::Schema,
            self.file,
            self.line,
        ) {
            Err(fault) => {
                return Err(fault);
            },
            Ok(()) => {},
        }
        let mut sql = anchor_comment(Some(self.file), Some(self.line), self.source_module_path);
        sql.append("\n");
        sql.append("CREATE SCHEMA IF NOT EXISTS ");
        sql.append(self.name);
        sql.append(";");
        Ok(sql)
    }
}

impl From<SchemaEntity> for SqlGraphEntity {
    fn from(val: SchemaEntity) -> (entity: Self) {
        SqlGraphEntity::Schema(val)
    }
}

impl vstd::std_specs::convert::FromSpecImpl<SchemaEntity> for SqlGraphEntity {
    open spec fn obeys_from_spec() -> bool {
        true
    }

    open spec fn from_spec(val: SchemaEntity) -> Self {
        SqlGraphEntity::Schema(val)
    }
}

impl SqlGraphIdentifier for SchemaEntity {
    open spec fn dot_identifier_text(&self) -> Seq<char> {
        "schema "@ + self.source_module_path@
    }

    open spec fn rust_identifier_text(&self) -> Seq<char> {
        self.source_module_path@
    }

    open spec fn origin_file(&self) -> Option<&'static str> {
        Some(self.file)
    }

    open spec fn origin_line(&self) -> Option<u32> {
        Some(self.line)
    }

    fn dot_identifier(&self) -> String {
        String::from_str("schema ").concat(self.source_module_path)
    }

    fn rust_identifier(&self) -> String {
        String::from_str(self.source_module_path)
    }

    fn file(&self) -> Option<&'static str> {
        Some(self.file)
    }

    fn line(&self) -> Option<u32> {
        Some(self.line)
    }
}

} // verus!
