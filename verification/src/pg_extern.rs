//! A function exposed to the database.

use vstd::prelude::*;
use vstd::string::*;
use crate::{EntityKind, SqlGraphEntity, SqlGraphIdentifier, anchor_comment, anchor_text};
use crate::error::{FailureCause, RenderError, check_name, name_fault};
use crate::pgx_sql::{PgxSql, Sought, first_neighbor, handle_of, prefix_of, used_type_prefix};
use crate::to_sql::entity::ToSqlConfigEntity;
use crate::used_type::UsedTypeEntity;

verus! {

/// One argument of a function.
#[derive(Debug, Clone, PartialEq, Eq, Hash)]
pub struct PgExternArgumentEntity {
    pub pattern: &'static str,
    pub used_ty: UsedTypeEntity,
}

/// What a function returns.
#[derive(Debug, Clone, PartialEq, Eq, Hash)]
pub enum PgExternReturnEntity {
    /// Nothing.
    Void,
    /// One value.
    Type { ty: UsedTypeEntity },
    /// A set of values.
    SetOf { ty: UsedTypeEntity },
    /// The function is a trigger function.
    Trigger,
}

/// A function exposed to the database.
#[derive(Debug, Clone, PartialEq, Eq, Hash)]
pub struct PgExternEntity {
    pub name: &'static str,
    pub unaliased_name: &'static str,
    pub source_module_path: &'static str,
    pub full_path: &'static str,
    pub file: &'static str,
    pub line: u32,
    pub fn_args: Vec<PgExternArgumentEntity>,
    pub fn_return: PgExternReturnEntity,
    pub to_sql_config: ToSqlConfigEntity,
}

impl PgExternEntity {
    /// Whether a type absorbs the function in the graph over `nodes`: some
    /// neighbor of the function is a type that has it as its input or its
    /// output converter.
    pub open spec fn absorbed(self, nodes: Seq<SqlGraphEntity>) -> bool {
        match handle_of(nodes, EntityKind::Function, self.full_path@) {
            Some(node) => first_neighbor(nodes, node as int, Sought::ConvertedBy(&self)) is Some,
            None => false,
        }
    }

    /// Tells whether a type absorbs the function.
    pub fn is_absorbed(&self, context: &PgxSql) -> (absorbed: bool)
        ensures
            absorbed == self.absorbed(context.entities()),
    {
        match context.find(EntityKind::Function, self.full_path) {
            Some(node) => context.first_neighbor(node, &Sought::ConvertedBy(self)).is_some(),
            None => false,
        }
    }

    /// Whether a database type is known for every argument.
    pub open spec fn arguments_mapped(self) -> bool {
        forall|k: int|
            0 <= k < self.fn_args@.len() ==> (#[trigger] self.fn_args@[k]).used_ty.sql is Some
    }

    /// Whether a database type is known for what the function returns.
    pub open spec fn return_mapped(self) -> bool {
        match self.fn_return {
            PgExternReturnEntity::Type { ty } => ty.sql is Some,
            PgExternReturnEntity::SetOf { ty } => ty.sql is Some,
            _ => true,
        }
    }

    /// The line of one argument: its name between double quotes behind a
    /// tab, its qualified database type, and the source type in a comment.
    pub open spec fn argument_line(
        self,
        nodes: Seq<SqlGraphEntity>,
        owner: Option<usize>,
        at: int,
    ) -> Seq<char> {
        let argument = self.fn_args@[at];
        "\t\""@ + argument.pattern@ + "\" "@ + used_type_prefix(nodes, owner, argument.used_ty)
            + argument.used_ty.sql_name() + " /* "@ + argument.used_ty.full_path@ + " */"@
    }

    /// The lines of the first `count` arguments, with a comma between one
    /// line and the next.
    pub open spec fn argument_lines(
        self,
        nodes: Seq<SqlGraphEntity>,
        owner: Option<usize>,
        count: int,
    ) -> Seq<char>
        decreases count,
    {
        if count <= 0 {
            Seq::empty()
        } else if count == 1 {
            self.argument_line(nodes, owner, 0)
        } else {
            self.argument_lines(nodes, owner, count - 1) + ",\n"@ + self.argument_line(
                nodes,
                owner,
                count - 1,
            )
        }
    }

    /// What stands between the brackets of the statement: nothing for a
    /// function without arguments, else the lines of the arguments.
    pub open spec fn arguments_block(self, nodes: Seq<SqlGraphEntity>, owner: Option<usize>) -> Seq<
        char,
    > {
        if self.fn_args@.len() == 0 {
            Seq::empty()
        } else {
            "\n"@ + self.argument_lines(nodes, owner, self.fn_args@.len() as int) + "\n"@
        }
    }

    /// The clause that says what the function returns.
    pub open spec fn returns_clause(self, nodes: Seq<SqlGraphEntity>, owner: Option<usize>) -> Seq<
        char,
    > {
        match self.fn_return {
            PgExternReturnEntity::Void => "RETURNS void"@,
            PgExternReturnEntity::Type { ty } => "RETURNS "@ + used_type_prefix(nodes, owner, ty)
                + ty.sql_name(),
            PgExternReturnEntity::SetOf { ty } => "RETURNS SETOF "@ + used_type_prefix(
                nodes,
                owner,
                ty,
            ) + ty.sql_name(),
            PgExternReturnEntity::Trigger => "RETURNS trigger"@,
        }
    }

    /// The statement that declares the function in the graph over `nodes`.
    pub open spec fn statement(self, nodes: Seq<SqlGraphEntity>) -> Seq<char> {
        let owner = handle_of(nodes, EntityKind::Function, self.full_path@);
        anchor_text(Some(self.file), Some(self.line), self.full_path@) + "\n"@
            + "CREATE FUNCTION "@ + prefix_of(nodes, EntityKind::Function, self.full_path@) + "\""@
            + self.name@ + "\"("@ + self.arguments_block(nodes, owner) + ") "@
            + self.returns_clause(nodes, owner) + "\n"@ + "LANGUAGE c /* Rust */\n"@
            + "AS 'MODULE_PATHNAME', '"@ + self.unaliased_name@ + "_wrapper';"@
    }

    /// The failure that this function gives rise to for the cause `cause`.
    pub open spec fn failure(self, cause: FailureCause) -> RenderError {
        RenderError::RenderingFailure {
            identity: self.full_path,
            kind: EntityKind::Function,
            file: self.file,
            line: self.line,
            cause,
        }
    }

    /// What rendering the function by the rule of its kind gives: the
    /// failure of a name that is too long; else that of an argument, else
    /// that of a result, for which no database type is known; else the
    /// statement.
    pub open spec fn sql_text(self, nodes: Seq<SqlGraphEntity>) -> Result<Seq<char>, RenderError> {
        match name_fault(self.name, self.full_path, EntityKind::Function, self.file, self.line) {
            Some(fault) => Err(fault),
            None => if !self.arguments_mapped() {
                Err(self.failure(FailureCause::UnmappedArgument))
            } else if !self.return_mapped() {
                Err(self.failure(FailureCause::UnmappedReturn))
            } else {
                Ok(self.statement(nodes))
            },
        }
    }

    fn fail(&self, cause: FailureCause) -> (fault: RenderError)
        ensures
            fault == self.failure(cause),
    {
        RenderError::RenderingFailure {
            identity: self.full_path,
            kind: EntityKind::Function,
            file: self.file,
            line: self.line,
            cause,
        }
    }

    /// Renders the function by the rule of its kind.
    pub fn to_sql(&self, context: &PgxSql) -> (rendered: Result<String, RenderError>)
        ensures
            match self.sql_text(context.entities()) {
                Ok(text) => rendered matches Ok(sql) && sql@ == text,
                Err(fault) => rendered == Err::<String, RenderError>(fault),
            },
    {
        match check_name(self.name, self.full_path, EntityKind::Function, self.file, self.line) {
            Err(fault) => {
                return Err(fault);
            },
            Ok(()) => {},
        }
        let owner = context.find(EntityKind::Function, self.full_path);
        let mut lines = String::new();
        let mut at: usize = 0;
        while at < self.fn_args.len()
            invariant
                at <= self.fn_args@.len(),
                name_fault(
                    self.name,
                    self.full_path,
                    EntityKind::Function,
                    self.file,
                    self.line,
                ) is None,
                owner == handle_of(context.entities(), EntityKind::Function, self.full_path@),
                forall|k: int| 0 <= k < at ==> (#[trigger] self.fn_args@[k]).used_ty.sql is Some,
                lines@ == self.argument_lines(context.entities(), owner, at as int),
            decreases self.fn_args@.len() - at,
        {
            let argument = &self.fn_args[at];
            let name = match argument.used_ty.sql {
                Some(name) => name,
                None => {
                    assert(self.fn_args@[at as int].used_ty.sql is None);
                    return Err(self.fail(FailureCause::UnmappedArgument));
                },
            };
            let prefix = context.used_type_prefix(owner, &argument.used_ty);
            let mut line = String::from_str("\t\"");
            line.append(argument.pattern);
            line.append("\" ");
            line.append(prefix.as_str());
            line.append(name);
            line.append(" /* ");
            line.append(argument.used_ty.full_path);
            line.append(" */");
            if at == 0 {
                lines = line;
            } else {
                lines.append(",\n");
                lines.append(line.as_str());
            }
            at += 1;
        }
        let block = if self.fn_args.len() == 0 {
            String::new()
        } else {
            String::from_str("\n").concat(lines.as_str()).concat("\n")
        };
        let returned = match &self.fn_return {
            PgExternReturnEntity::Void => String::from_str("RETURNS void"),
            PgExternReturnEntity::Type { ty } => match ty.sql {
                Some(name) => String::from_str("RETURNS ").concat(
                    context.used_type_prefix(owner, ty).as_str(),
                ).concat(name),
                None => {
                    return Err(self.fail(FailureCause::UnmappedReturn));
                },
            },
            PgExternReturnEntity::SetOf { ty } => match ty.sql {
                Some(name) => String::from_str("RETURNS SETOF ").concat(
                    context.used_type_prefix(owner, ty).as_str(),
                ).concat(name),
                None => {
                    return Err(self.fail(FailureCause::UnmappedReturn));
                },
            },
            PgExternReturnEntity::Trigger => String::from_str("RETURNS trigger"),
        };
        let prefix = match owner {
            Some(node) => context.schema_prefix_for(node),
            None => String::new(),
        };
        let mut sql = anchor_comment(Some(self.file), Some(self.line), self.full_path);
        sql.append("\n");
        sql.append("CREATE FUNCTION ");
        sql.append(prefix.as_str());
        sql.append("\"");
        sql.append(self.name);
        sql.append("\"(");
        sql.append(block.as_str());
        sql.append(") ");
        sql.append(returned.as_str());
        sql.append("\n");
        sql.append("LANGUAGE c /* Rust */\n");
        sql.append("AS 'MODULE_PATHNAME', '");
        sql.append(self.unaliased_name);
        sql.append("_wrapper';");
        Ok(sql)
    }
}

impl From<PgExternEntity> for SqlGraphEntity {
    fn from(val: PgExternEntity) -> (entity: Self) {
        SqlGraphEntity::Function(val)
    }
}

impl vstd::std_specs::convert::FromSpecImpl<PgExternEntity> for SqlGraphEntity {
    open spec fn obeys_from_spec() -> bool {
        true
    }

    open spec fn from_spec(val: PgExternEntity) -> Self {
        SqlGraphEntity::Function(val)
    }
}

impl SqlGraphIdentifier for PgExternEntity {
    open spec fn dot_identifier_text(&self) -> Seq<char> {
        "fn "@ + self.full_path@
    }

    open spec fn rust_identifier_text(&self) -> Seq<char> {
        self.full_path@
    }

    open spec fn origin_file(&self) -> Option<&'static str> {
        Some(self.file)
    }

    open spec fn origin_line(&self) -> Option<u32> {
        Some(self.line)
    }

    fn dot_identifier(&self) -> String {
        String::from_str("fn ").concat(self.full_path)
    }

    fn rust_identifier(&self) -> String {
        String::from_str(self.full_path)
    }

    fn file(&self) -> Option<&'static str> {
        Some(self.file)
    }

    fn line(&self) -> Option<u32> {
        Some(self.line)
    }
}

} // verus!
