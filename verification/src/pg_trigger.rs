//! A trigger on a relation.

use vstd::prelude::*;
use vstd::string::*;
use crate::{EntityKind, SqlGraphEntity, SqlGraphIdentifier, anchor_comment, anchor_text};
use crate::error::{RenderError, check_name, name_fault};
use crate::pgx_sql::{PgxSql, prefix_of};
use crate::to_sql::entity::ToSqlConfigEntity;

verus! {

/// When a trigger fires relative to the event.
#[derive(Debug, Clone, Copy, PartialEq, Eq, Hash)]
pub enum TriggerTiming {
    Before,
    After,
    InsteadOf,
}

/// The event on which a trigger fires.
#[derive(Debug, Clone, Copy, PartialEq, Eq, Hash)]
pub enum TriggerEvent {
    Insert,
    Update,
    Delete,
}

impl TriggerTiming {
    /// The keyword of the timing.
    pub open spec fn keyword(self) -> Seq<char> {
        match self {
            TriggerTiming::Before => "BEFORE"@,
            TriggerTiming::After => "AFTER"@,
            TriggerTiming::InsteadOf => "INSTEAD OF"@,
        }
    }

    /// Gives the keyword of the timing.
    pub fn as_sql(&self) -> (text: &'static str)
        ensures
            text@ == self.keyword(),
    {
        match self {
            TriggerTiming::Before => "BEFORE",
            TriggerTiming::After => "AFTER",
            TriggerTiming::InsteadOf => "INSTEAD OF",
        }
    }
}

impl TriggerEvent {
    /// The keyword of the event.
    pub open spec fn keyword(self) -> Seq<char> {
        match self {
            TriggerEvent::Insert => "INSERT"@,
            TriggerEvent::Update => "UPDATE"@,
            TriggerEvent::Delete => "DELETE"@,
        }
    }

    /// Gives the keyword of the event.
    pub fn as_sql(&self) -> (text: &'static str)
        ensures
            text@ == self.keyword(),
    {
        match self {
            TriggerEvent::Insert => "INSERT",
            TriggerEvent::Update => "UPDATE",
            TriggerEvent::Delete => "DELETE",
        }
    }
}

/// A trigger: the function `function_name` runs for each row of `relation`
/// that the event touches.
#[derive(Debug, Clone, Copy, PartialEq, Eq, Hash)]
pub struct PgTriggerEntity {
    pub name: &'static str,
    pub function_name: &'static str,
    pub relation: &'static str,
    pub timing: TriggerTiming,
    pub event: TriggerEvent,
    pub file: &'static str,
    pub line: u32,
    pub full_path: &'static str,
    pub source_module_path: &'static str,
    pub to_sql_config: ToSqlConfigEntity,
}

impl PgTriggerEntity {
    /// The statement that declares the trigger in the graph over `nodes`:
    /// bound to its relation, with its timing and event, running its
    /// function under the function's qualified name.
    pub open spec fn statement(self, nodes: Seq<SqlGraphEntity>) -> Seq<char> {
        anchor_text(Some(self.file), Some(self.line), self.full_path@) + "\n"@ + "CREATE TRIGGER "@
            + self.name@ + " "@ + self.timing.keyword() + " "@ + self.event.keyword() + " ON "@
            + self.relation@ + "\n"@ + "\tFOR EACH ROW EXECUTE FUNCTION "@ + prefix_of(
            nodes,
            EntityKind::Trigger,
            self.full_path@,
        ) + "\""@ + self.function_name@ + "\"();"@
    }

    /// What rendering the trigger by the rule of its kind gives: the
    /// failure of a name that is too long, else the statement.
    pub open spec fn sql_text(self, nodes: Seq<SqlGraphEntity>) -> Result<Seq<char>, RenderError> {
        match name_fault(self.name, self.full_path, EntityKind::Trigger, self.file, self.line) {
            Some(fault) => Err(fault),
            None => Ok(self.statement(nodes)),
        }
    }

    /// Renders the trigger by the rule of its kind.
    pub fn to_sql(&self, context: &PgxSql) -> (rendered: Result<String, RenderError>)
        ensures
            match self.sql_text(context.entities()) {
                Ok(text) => rendered matches Ok(sql) && sql@ == text,
                Err(fault) => rendered == Err::<String, RenderError>(fault),
            },
    {
        match check_name(self.name, self.full_path, EntityKind::Trigger, self.file, self.line) {
            Err(fault) => {
                return Err(fault);
            },
            Ok(()) => {},
        }
        let prefix = context.prefix_of(EntityKind::Trigger, self.full_path);
        let mut sql = anchor_comment(Some(self.file), Some(self.line), self.full_path);
        sql.append("\n");
        sql.append("CREATE TRIGGER ");
        sql.append(self.name);
        sql.append(" ");
        sql.append(self.timing.as_sql());
        sql.append(" ");
        sql.append(self.event.as_sql());
        sql.append(" ON ");
        sql.append(self.relation);
        sql.append("\n");
        sql.append("\tFOR EACH ROW EXECUTE FUNCTION ");
        sql.append(prefix.as_str());
        sql.append("\"");
        sql.append(self.function_name);
        sql.append("\"();");
        Ok(sql)
    }
}

impl From<PgTriggerEntity> for SqlGraphEntity {
    fn from(val: PgTriggerEntity) -> (entity: Self) {
        SqlGraphEntity::Trigger(val)
    }
}

impl vstd::std_specs::convert::FromSpecImpl<PgTriggerEntity> for SqlGraphEntity {
    open spec fn obeys_from_spec() -> bool {
        true
    }

    open spec fn from_spec(val: PgTriggerEntity) -> Self {
        SqlGraphEntity::Trigger(val)
    }
}

impl SqlGraphIdentifier for PgTriggerEntity {
    open spec fn dot_identifier_text(&self) -> Seq<char> {
        "trigger "@ + self.full_path@
    }

    open spec fn rust_identifier_text(&self) -> Seq<char> {
        self.full_path@
    }

    open spec fn origin_file(&self) -> Option<&'static str> {
        Some(self.file)
    }

    open spec fn origin_line(&self) -> Option<u32> {
        Some(self.line)
    }

    fn dot_identifier(&self) -> String {
        String::from_str("trigger ").concat(self.full_path)
    }

    fn rust_identifier(&self) -> String {
        String::from_str(self.full_path)
    }

    fn file(&self) -> Option<&'static str> {
        Some(self.file)
    }

    fn line(&self) -> Option<u32> {
        Some(self.line)
    }
}

} // verus!
