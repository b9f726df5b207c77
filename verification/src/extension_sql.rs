//! A fragment of SQL that the author wrote by hand.

use vstd::prelude::*;
use vstd::string::*;
use crate::{SqlGraphEntity, SqlGraphIdentifier, anchor_comment, anchor_text};
use crate::to_sql::entity::ToSqlConfigEntity;

verus! {

/// A named fragment of author-supplied SQL.
#[derive(Debug, Clone, Copy, PartialEq, Eq, Hash)]
pub struct ExtensionSqlEntity {
    pub source_module_path: &'static str,
    pub full_path: &'static str,
    pub sql: &'static str,
    pub file: &'static str,
    pub line: u32,
    pub name: &'static str,
    pub to_sql_config: ToSqlConfigEntity,
}

impl ExtensionSqlEntity {
    /// The fragment as it is emitted: the anchor comment, then the author's
    /// text as it stands.
    pub open spec fn sql_text(self) -> Seq<char> {
        anchor_text(Some(self.file), Some(self.line), self.name@) + "\n"@ + self.sql@
    }

    /// Renders the fragment.
    pub fn to_sql(&self) -> (sql: String)
        ensures
            sql@ == self.sql_text(),
    {
        let mut sql = anchor_comment(Some(self.file), Some(self.line), self.name);
        sql.append("\n");
        sql.append(self.sql);
        sql
    }
}

impl From<ExtensionSqlEntity> for SqlGraphEntity {
    fn from(val: ExtensionSqlEntity) -> (entity: Self) {
        SqlGraphEntity::CustomSql(val)
    }
}

impl vstd::std_specs::convert::FromSpecImpl<ExtensionSqlEntity> for SqlGraphEntity {
    open spec fn obeys_from_spec() -> bool {
        true
    }

    open spec fn from_spec(val: ExtensionSqlEntity) -> Self {
        SqlGraphEntity::CustomSql(val)
    }
}

impl SqlGraphIdentifier for ExtensionSqlEntity {
    open spec fn dot_identifier_text(&self) -> Seq<char> {
        "sql "@ + self.name@
    }

    open spec fn rust_identifier_text(&self) -> Seq<char> {
        self.name@
    }

    open spec fn origin_file(&self) -> Option<&'static str> {
        Some(self.file)
    }

    open spec fn origin_line(&self) -> Option<u32> {
        Some(self.line)
    }

    fn dot_identifier(&self) -> String {
        String::from_str("sql ").concat(self.name)
    }

    fn rust_identifier(&self) -> String {
        String::from_str(self.name)
    }

    fn file(&self) -> Option<&'static str> {
        Some(self.file)
    }

    fn line(&self) -> Option<u32> {
        Some(self.line)
    }
}

} // verus!
