//! A default btree operator class for a type.

use vstd::prelude::*;
use vstd::string::*;
use crate::{EntityKind, SqlGraphEntity, SqlGraphIdentifier, anchor_comment, anchor_text};
use crate::error::{RenderError, check_name, name_fault};
use crate::pgx_sql::{PgxSql, prefix_of};
use crate::text::{function_name, lowercase_text, to_lowercase};
use crate::to_sql::entity::ToSqlConfigEntity;

verus! {

/// A default btree operator class for the type named `name`.
#[derive(Debug, Clone, PartialEq, Eq, Hash)]
pub struct PostgresOrdEntity {
    pub name: &'static str,
    pub file: &'static str,
    pub line: u32,
    pub full_path: &'static str,
    pub source_module_path: &'static str,
    pub id: core::any::TypeId,
    pub to_sql_config: ToSqlConfigEntity,
}

impl PostgresOrdEntity {
    /// The name of the three-way comparison function of the type: the lowercase form
    /// of the type's name, then `_cmp`.
    pub fn cmp_fn_name(&self) -> (name: String)
        ensures
            name@ == lowercase_text(self.name@) + "_cmp"@,
    {
        function_name(to_lowercase(self.name).as_str(), "_cmp")
    }

    /// The name of the less-than function of the type: the lowercase form
    /// of the type's name, then `_lt`.
    pub fn lt_fn_name(&self) -> (name: String)
        ensures
            name@ == lowercase_text(self.name@) + "_lt"@,
    {
        function_name(to_lowercase(self.name).as_str(), "_lt")
    }

    /// The name of the less-than-or-equal function of the type: the lowercase form
    /// of the type's name, then `_le`.
    pub fn le_fn_name(&self) -> (name: String)
        ensures
            name@ == lowercase_text(self.name@) + "_le"@,
    {
        function_name(to_lowercase(self.name).as_str(), "_le")
    }

    /// The name of the equality function of the type: the lowercase form
    /// of the type's name, then `_eq`.
    pub fn eq_fn_name(&self) -> (name: String)
        ensures
            name@ == lowercase_text(self.name@) + "_eq"@,
    {
        function_name(to_lowercase(self.name).as_str(), "_eq")
    }

    /// The name of the greater-than function of the type: the lowercase form
    /// of the type's name, then `_gt`.
    pub fn gt_fn_name(&self) -> (name: String)
        ensures
            name@ == lowercase_text(self.name@) + "_gt"@,
    {
        function_name(to_lowercase(self.name).as_str(), "_gt")
    }

    /// The name of the greater-than-or-equal function of the type: the lowercase form
    /// of the type's name, then `_ge`.
    pub fn ge_fn_name(&self) -> (name: String)
        ensures
            name@ == lowercase_text(self.name@) + "_ge"@,
    {
        function_name(to_lowercase(self.name).as_str(), "_ge")
    }

    /// The statements that declare the operator family and the default
    /// operator class, with every name behind `prefix`: the five comparison
    /// operators, all wired to the three-way comparison function `function`.
    pub open spec fn statement_text(self, prefix: Seq<char>, function: Seq<char>) -> Seq<char> {
        anchor_text(Some(self.file), Some(self.line), self.full_path@) + "\n"@
            + "CREATE OPERATOR FAMILY "@ + prefix + self.name@ + "_btree_ops USING btree;\n"@
            + "CREATE OPERATOR CLASS "@ + prefix + self.name@ + "_btree_ops DEFAULT FOR TYPE "@
            + prefix + self.name@ + " USING btree FAMILY "@ + prefix + self.name@
            + "_btree_ops AS\n"@ + "\tOPERATOR 1 <,\n"@ + "\tOPERATOR 2 <=,\n"@
            + "\tOPERATOR 3 =,\n"@ + "\tOPERATOR 4 >=,\n"@ + "\tOPERATOR 5 >,\n"@
            + "\tFUNCTION 1 "@ + prefix + function + "("@ + prefix + self.name@ + ", "@ + prefix
            + self.name@ + ");"@
    }

    /// The statements that declare the operator class in the graph over
    /// `nodes`: every name qualified by the schema of the class, the
    /// function named after the type.
    pub open spec fn statement(self, nodes: Seq<SqlGraphEntity>) -> Seq<char> {
        self.statement_text(
            prefix_of(nodes, EntityKind::Ord, self.full_path@),
            lowercase_text(self.name@) + "_cmp"@,
        )
    }

    /// What rendering the operator class by the rule of its kind gives: the
    /// failure of a name that is too long, else the statements.
    pub open spec fn sql_text(self, nodes: Seq<SqlGraphEntity>) -> Result<Seq<char>, RenderError> {
        match name_fault(self.name, self.full_path, EntityKind::Ord, self.file, self.line) {
            Some(fault) => Err(fault),
            None => Ok(self.statement(nodes)),
        }
    }

    /// Writes the statements that declare the operator family and the
    /// default operator class, with every name behind `prefix` and the
    /// comparison wired to the function `function`.
    pub fn statement_with(&self, prefix: &str, function: &str) -> (sql: String)
        ensures
            sql@ == self.statement_text(prefix@, function@),
    {
        let mut sql = anchor_comment(Some(self.file), Some(self.line), self.full_path);
        sql.append("\n");
        sql.append("CREATE OPERATOR FAMILY ");
        sql.append(prefix);
        sql.append(self.name);
        sql.append("_btree_ops USING btree;\n");
        sql.append("CREATE OPERATOR CLASS ");
        sql.append(prefix);
        sql.append(self.name);
        sql.append("_btree_ops DEFAULT FOR TYPE ");
        sql.append(prefix);
        sql.append(self.name);
        sql.append(" USING btree FAMILY ");
        sql.append(prefix);
        sql.append(self.name);
        sql.append("_btree_ops AS\n");
        sql.append("\tOPERATOR 1 <,\n");
        sql.append("\tOPERATOR 2 <=,\n");
        sql.append("\tOPERATOR 3 =,\n");
        sql.append("\tOPERATOR 4 >=,\n");
        sql.append("\tOPERATOR 5 >,\n");
        sql.append("\tFUNCTION 1 ");
        sql.append(prefix);
        sql.append(function);
        sql.append("(");
        sql.append(prefix);
        sql.append(self.name);
        sql.append(", ");
        sql.append(prefix);
        sql.append(self.name);
        sql.append(");");
        sql
    }

    /// Renders the operator class by the rule of its kind.
    pub fn to_sql(&self, context: &PgxSql) -> (rendered: Result<String, RenderError>)
        ensures
            match self.sql_text(context.entities()) {
                Ok(text) => rendered matches Ok(sql) && sql@ == text,
                Err(fault) => rendered == Err::<String, RenderError>(fault),
            },
    {
        match check_name(self.name, self.full_path, EntityKind::Ord, self.file, self.line) {
            Err(fault) => {
                return Err(fault);
            },
            Ok(()) => {},
        }
        let prefix = context.prefix_of(EntityKind::Ord, self.full_path);
        let function = self.cmp_fn_name();
        Ok(self.statement_with(prefix.as_str(), function.as_str()))
    }
}

impl From<PostgresOrdEntity> for SqlGraphEntity {
    fn from(val: PostgresOrdEntity) -> (entity: Self) {
        SqlGraphEntity::Ord(val)
    }
}

impl vstd::std_specs::convert::FromSpecImpl<PostgresOrdEntity> for SqlGraphEntity {
    open spec fn obeys_from_spec() -> bool {
        true
    }

    open spec fn from_spec(val: PostgresOrdEntity) -> Self {
        SqlGraphEntity::Ord(val)
    }
}

impl SqlGraphIdentifier for PostgresOrdEntity {
    open spec fn dot_identifier_text(&self) -> Seq<char> {
        "ord "@ + self.full_path@
    }

    open spec fn rust_identifier_text(&self) -> Seq<char> {
        self.full_path@
    }

    open spec fn origin_file(&self) -> Option<&'static str> {
        Some(self.file)
    }

    open spec fn origin_line(&self) -> Option<u32> {
        Some(self.line)
    }

    fn dot_identifier(&self) -> String {
        String::from_str("ord ").concat(self.full_path)
    }

    fn rust_identifier(&self) -> String {
        String::from_str(self.full_path)
    }

    fn file(&self) -> Option<&'static str> {
        Some(self.file)
    }

    fn line(&self) -> Option<u32> {
        Some(self.line)
    }
}

} // verus!
