//! The extension's control metadata, the root of the entity graph.

use vstd::prelude::*;
use vstd::string::*;
use crate::{SqlGraphEntity, SqlGraphIdentifier, anchor_comment, anchor_text};
use crate::to_sql::entity::ToSqlConfigEntity;

verus! {

/// The control metadata of the extension.
#[derive(Debug, Clone, PartialEq, Eq, Hash)]
pub struct ControlFile {
    pub comment: String,
    pub default_version: String,
    pub module_pathname: Option<String>,
    pub relocatable: bool,
    pub superuser: bool,
    pub schema: Option<String>,
    pub to_sql_config: ToSqlConfigEntity,
}

/// How a flag of the control metadata is written.
pub open spec fn flag_text(flag: bool) -> Seq<char> {
    if flag {
        "true"@
    } else {
        "false"@
    }
}

fn flag_str(flag: bool) -> (text: &'static str)
    ensures
        text@ == flag_text(flag),
{
    if flag {
        "true"
    } else {
        "false"
    }
}

impl ControlFile {
    /// The line that names the schema of the extension, where it has one.
    pub open spec fn schema_line(self) -> Seq<char> {
        match self.schema {
            Some(schema) => "\n"@ + "-- schema = "@ + schema@,
            None => Seq::empty(),
        }
    }

    /// The fragment that opens the script: the anchor comment, then the
    /// control metadata, one comment line for each entry.
    pub open spec fn sql_text(self) -> Seq<char> {
        anchor_text(None, None, "root"@) + "\n"@ + "-- default_version = "@ + self.default_version@
            + "\n"@ + "-- relocatable = "@ + flag_text(self.relocatable) + "\n"@
            + "-- superuser = "@ + flag_text(self.superuser) + self.schema_line()
    }

    /// Renders the fragment that opens the script.
    pub fn to_sql(&self) -> (sql: String)
        ensures
            sql@ == self.sql_text(),
    {
        let schema_line = match &self.schema {
            Some(schema) => String::from_str("\n").concat("-- schema = ").concat(schema.as_str()),
            None => String::new(),
        };
        let mut sql = anchor_comment(None, None, "root");
        sql.append("\n");
        sql.append("-- default_version = ");
        sql.append(self.default_version.as_str());
        sql.append("\n");
        sql.append("-- relocatable = ");
        sql.append(flag_str(self.relocatable));
        sql.append("\n");
        sql.append("-- superuser = ");
        sql.append(flag_str(self.superuser));
        sql.append(schema_line.as_str());
        sql
    }
}

impl From<ControlFile> for SqlGraphEntity {
    fn from(val: ControlFile) -> (entity: Self) {
        SqlGraphEntity::ExtensionRoot(val)
    }
}

impl vstd::std_specs::convert::FromSpecImpl<ControlFile> for SqlGraphEntity {
    open spec fn obeys_from_spec() -> bool {
        true
    }

    open spec fn from_spec(val: ControlFile) -> Self {
        SqlGraphEntity::ExtensionRoot(val)
    }
}

impl SqlGraphIdentifier for ControlFile {
    open spec fn dot_identifier_text(&self) -> Seq<char> {
        "extension root"@
    }

    open spec fn rust_identifier_text(&self) -> Seq<char> {
        "root"@
    }

    open spec fn origin_file(&self) -> Option<&'static str> {
        None
    }

    open spec fn origin_line(&self) -> Option<u32> {
        None
    }

    fn dot_identifier(&self) -> String {
        String::from_str("extension root")
    }

    fn rust_identifier(&self) -> String {
        String::from_str("root")
    }

    fn file(&self) -> Option<&'static str> {
        None
    }

    fn line(&self) -> Option<u32> {
        None
    }
}

} // verus!
