//! An aggregate.

use vstd::prelude::*;
use vstd::string::*;
use crate::{EntityKind, SqlGraphEntity, SqlGraphIdentifier, anchor_comment, anchor_text};
use crate::error::{FailureCause, RenderError, check_name, name_fault};
use crate::pgx_sql::{PgxSql, handle_of, prefix_of, used_type_prefix};
use crate::to_sql::entity::ToSqlConfigEntity;
use crate::used_type::UsedTypeEntity;

verus! {

/// Whether the final function may modify the transition state.
#[derive(Debug, Clone, Copy, PartialEq, Eq, Hash)]
pub enum FinalizeModify {
    ReadOnly,
    Shareable,
    ReadWrite,
}

/// Whether the aggregate may run in parallel workers.
#[derive(Debug, Clone, Copy, PartialEq, Eq, Hash)]
pub enum ParallelOption {
    Safe,
    Restricted,
    Unsafe,
}

impl FinalizeModify {
    /// The keyword of the mode.
    pub open spec fn keyword(self) -> Seq<char> {
        match self {
            FinalizeModify::ReadOnly => "READ_ONLY"@,
            FinalizeModify::Shareable => "SHAREABLE"@,
            FinalizeModify::ReadWrite => "READ_WRITE"@,
        }
    }

    /// Gives the keyword of the mode.
    pub fn as_sql(&self) -> (text: &'static str)
        ensures
            text@ == self.keyword(),
    {
        match self {
            FinalizeModify::ReadOnly => "READ_ONLY",
            FinalizeModify::Shareable => "SHAREABLE",
            FinalizeModify::ReadWrite => "READ_WRITE",
        }
    }
}

impl ParallelOption {
    /// The keyword of the option.
    pub open spec fn keyword(self) -> Seq<char> {
        match self {
            ParallelOption::Safe => "SAFE"@,
            ParallelOption::Restricted => "RESTRICTED"@,
            ParallelOption::Unsafe => "UNSAFE"@,
        }
    }

    /// Gives the keyword of the option.
    pub fn as_sql(&self) -> (text: &'static str)
        ensures
            text@ == self.keyword(),
    {
        match self {
            ParallelOption::Safe => "SAFE",
            ParallelOption::Restricted => "RESTRICTED",
            ParallelOption::Unsafe => "UNSAFE",
        }
    }
}

/// One argument of an aggregate.
#[derive(Debug, Clone, PartialEq, Eq, Hash)]
pub struct AggregateTypeEntity {
    pub used_ty: UsedTypeEntity,
    pub name: Option<&'static str>,
}

/// An aggregate: its state type, its transition function and its options.
#[derive(Debug, Clone, PartialEq, Eq, Hash)]
pub struct PgAggregateEntity {
    pub full_path: &'static str,
    pub source_module_path: &'static str,
    pub file: &'static str,
    pub line: u32,
    pub name: &'static str,
    pub args: Vec<AggregateTypeEntity>,
    pub stype: UsedTypeEntity,
    pub sfunc: &'static str,
    pub finalfunc: Option<&'static str>,
    pub finalfunc_modify: Option<FinalizeModify>,
    pub initial_condition: Option<&'static str>,
    pub parallel: Option<ParallelOption>,
    pub to_sql_config: ToSqlConfigEntity,
}

impl AggregateTypeEntity {
    /// The name of the argument and a space, where it has a name.
    pub open spec fn label(self) -> Seq<char> {
        match self.name {
            Some(name) => name@ + " "@,
            None => Seq::empty(),
        }
    }
}

impl PgAggregateEntity {
    /// Whether a database type is known for every argument.
    pub open spec fn arguments_mapped(self) -> bool {
        forall|k: int| 0 <= k < self.args@.len() ==> (#[trigger] self.args@[k]).used_ty.sql is Some
    }

    /// Whether the options contradict each other: the aggregate says how
    /// its final function treats the state, and has no final function.
    pub open spec fn options_conflict(self) -> bool {
        self.finalfunc_modify is Some && self.finalfunc is None
    }

    /// One argument: its name, where it has one, and its qualified database
    /// type.
    pub open spec fn argument_text(
        self,
        nodes: Seq<SqlGraphEntity>,
        owner: Option<usize>,
        at: int,
    ) -> Seq<char> {
        let argument = self.args@[at];
        argument.label() + used_type_prefix(nodes, owner, argument.used_ty)
            + argument.used_ty.sql_name()
    }

    /// The first `count` arguments, with a comma and a space between one
    /// and the next.
    pub open spec fn argument_list(
        self,
        nodes: Seq<SqlGraphEntity>,
        owner: Option<usize>,
        count: int,
    ) -> Seq<char>
        decreases count,
    {
        if count <= 0 {
            Seq::empty()
        } else if count == 1 {
            self.argument_text(nodes, owner, 0)
        } else {
            self.argument_list(nodes, owner, count - 1) + ", "@ + self.argument_text(
                nodes,
                owner,
                count - 1,
            )
        }
    }

    /// What stands between the brackets behind the name: a star for an
    /// aggregate without arguments, else the arguments.
    pub open spec fn arguments(self, nodes: Seq<SqlGraphEntity>, owner: Option<usize>) -> Seq<char> {
        if self.args@.len() == 0 {
            "*"@
        } else {
            self.argument_list(nodes, owner, self.args@.len() as int)
        }
    }

    /// The option that names the final function, where there is one.
    pub open spec fn final_function_clause(self, prefix: Seq<char>) -> Seq<char> {
        match self.finalfunc {
            Some(function) => ",\n\tFINALFUNC = "@ + prefix + "\""@ + function@ + "\""@,
            None => Seq::empty(),
        }
    }

    /// The option that says how the final function treats the state.
    pub open spec fn finalize_modify_clause(self) -> Seq<char> {
        match self.finalfunc_modify {
            Some(mode) => ",\n\tFINALFUNC_MODIFY = "@ + mode.keyword(),
            None => Seq::empty(),
        }
    }

    /// The option that gives the initial state.
    pub open spec fn initial_condition_clause(self) -> Seq<char> {
        match self.initial_condition {
            Some(condition) => ",\n\tINITCOND = '"@ + condition@ + "'"@,
            None => Seq::empty(),
        }
    }

    /// The option that says whether the aggregate may run in parallel.
    pub open spec fn parallel_clause(self) -> Seq<char> {
        match self.parallel {
            Some(option) => ",\n\tPARALLEL = "@ + option.keyword(),
            None => Seq::empty(),
        }
    }

    /// The statement that declares the aggregate in the graph over `nodes`.
    pub open spec fn statement(self, nodes: Seq<SqlGraphEntity>) -> Seq<char> {
        let owner = handle_of(nodes, EntityKind::Aggregate, self.full_path@);
        let prefix = prefix_of(nodes, EntityKind::Aggregate, self.full_path@);
        anchor_text(Some(self.file), Some(self.line), self.full_path@) + "\n"@
            + "CREATE AGGREGATE "@ + prefix + self.name@ + " ("@ + self.arguments(nodes, owner)
            + ")\n"@ + "(\n"@ + "\tSFUNC = "@ + prefix + "\""@ + self.sfunc@ + "\",\n"@
            + "\tSTYPE = "@ + used_type_prefix(nodes, owner, self.stype) + self.stype.sql_name()
            + self.final_function_clause(prefix) + self.finalize_modify_clause()
            + self.initial_condition_clause() + self.parallel_clause() + "\n"@ + ");"@
    }

    /// The failure that this aggregate gives rise to for the cause `cause`.
    pub open spec fn failure(self, cause: FailureCause) -> RenderError {
        RenderError::RenderingFailure {
            identity: self.full_path,
            kind: EntityKind::Aggregate,
            file: self.file,
            line: self.line,
            cause,
        }
    }

    /// What rendering the aggregate by the rule of its kind gives: the
    /// failure of a name that is too long; else that of a state, else that
    /// of an argument, for which no database type is known; else that of
    /// options that contradict each other; else the statement.
    pub open spec fn sql_text(self, nodes: Seq<SqlGraphEntity>) -> Result<Seq<char>, RenderError> {
        match name_fault(self.name, self.full_path, EntityKind::Aggregate, self.file, self.line) {
            Some(fault) => Err(fault),
            None => if self.stype.sql is None {
                Err(self.failure(FailureCause::UnmappedState))
            } else if !self.arguments_mapped() {
                Err(self.failure(FailureCause::UnmappedArgument))
            } else if self.options_conflict() {
                Err(self.failure(FailureCause::FinalizeModifyWithoutFinalFunction))
            } else {
                Ok(self.statement(nodes))
            },
        }
    }

    fn fail(&self, cause: FailureCause) -> (fault: RenderError)
        ensures
            fault == self.failure(cause),
    {
        RenderError::RenderingFailure {
            identity: self.full_path,
            kind: EntityKind::Aggregate,
            file: self.file,
            line: self.line,
            cause,
        }
    }

    /// Renders the aggregate by the rule of its kind.
    pub fn to_sql(&self, context: &PgxSql) -> (rendered: Result<String, RenderError>)
        ensures
            match self.sql_text(context.entities()) {
                Ok(text) => rendered matches Ok(sql) && sql@ == text,
                Err(fault) => rendered == Err::<String, RenderError>(fault),
            },
    {
        match check_name(self.name, self.full_path, EntityKind::Aggregate, self.file, self.line) {
            Err(fault) => {
                return Err(fault);
            },
            Ok(()) => {},
        }
        let state = match self.stype.sql {
            Some(name) => name,
            None => {
                return Err(self.fail(FailureCause::UnmappedState));
            },
        };
        let owner = context.find(EntityKind::Aggregate, self.full_path);
        let mut list = String::new();
        let mut at: usize = 0;
        while at < self.args.len()
            invariant
                at <= self.args@.len(),
                name_fault(
                    self.name,
                    self.full_path,
                    EntityKind::Aggregate,
                    self.file,
                    self.line,
                ) is None,
                self.stype.sql is Some,
                owner == handle_of(context.entities(), EntityKind::Aggregate, self.full_path@),
                forall|k: int| 0 <= k < at ==> (#[trigger] self.args@[k]).used_ty.sql is Some,
                list@ == self.argument_list(context.entities(), owner, at as int),
            decreases self.args@.len() - at,
        {
            let argument = &self.args[at];
            let name = match argument.used_ty.sql {
                Some(name) => name,
                None => {
                    assert(self.args@[at as int].used_ty.sql is None);
                    return Err(self.fail(FailureCause::UnmappedArgument));
                },
            };
            let mut text = match argument.name {
                Some(label) => String::from_str(label).concat(" "),
                None => String::new(),
            };
            text.append(context.used_type_prefix(owner, &argument.used_ty).as_str());
            text.append(name);
            if at == 0 {
                list = text;
            } else {
                list.append(", ");
                list.append(text.as_str());
            }
            at += 1;
        }
        if self.finalfunc_modify.is_some() && self.finalfunc.is_none() {
            return Err(self.fail(FailureCause::FinalizeModifyWithoutFinalFunction));
        }
        let arguments = if self.args.len() == 0 {
            String::from_str("*")
        } else {
            list
        };
        let prefix = match owner {
            Some(node) => context.schema_prefix_for(node),
            None => String::new(),
        };
        let final_function = match self.finalfunc {
            Some(function) => String::from_str(",\n\tFINALFUNC = ").concat(prefix.as_str()).concat(
                "\"",
            ).concat(function).concat("\""),
            None => String::new(),
        };
        let finalize_modify = match &self.finalfunc_modify {
            Some(mode) => String::from_str(",\n\tFINALFUNC_MODIFY = ").concat(mode.as_sql()),
            None => String::new(),
        };
        let initial_condition = match self.initial_condition {
            Some(condition) => String::from_str(",\n\tINITCOND = '").concat(condition).concat("'"),
            None => String::new(),
        };
        let parallel = match &self.parallel {
            Some(option) => String::from_str(",\n\tPARALLEL = ").concat(option.as_sql()),
            None => String::new(),
        };
        let state_prefix = context.used_type_prefix(owner, &self.stype);
        let mut sql = anchor_comment(Some(self.file), Some(self.line), self.full_path);
        sql.append("\n");
        sql.append("CREATE AGGREGATE ");
        sql.append(prefix.as_str());
        sql.append(self.name);
        sql.append(" (");
        sql.append(arguments.as_str());
        sql.append(")\n");
        sql.append("(\n");
        sql.append("\tSFUNC = ");
        sql.append(prefix.as_str());
        sql.append("\"");
        sql.append(self.sfunc);
        sql.append("\",\n");
        sql.append("\tSTYPE = ");
        sql.append(state_prefix.as_str());
        sql.append(state);
        sql.append(final_function.as_str());
        sql.append(finalize_modify.as_str());
        sql.append(initial_condition.as_str());
        sql.append(parallel.as_str());
        sql.append("\n");
        sql.append(");");
        Ok(sql)
    }
}

impl From<PgAggregateEntity> for SqlGraphEntity {
    fn from(val: PgAggregateEntity) -> (entity: Self) {
        SqlGraphEntity::Aggregate(val)
    }
}

impl vstd::std_specs::convert::FromSpecImpl<PgAggregateEntity> for SqlGraphEntity {
    open spec fn obeys_from_spec() -> bool {
        true
    }

    open spec fn from_spec(val: PgAggregateEntity) -> Self {
        SqlGraphEntity::Aggregate(val)
    }
}

impl SqlGraphIdentifier for PgAggregateEntity {
    open spec fn dot_identifier_text(&self) -> Seq<char> {
        "aggregate "@ + self.full_path@
    }

    open spec fn rust_identifier_text(&self) -> Seq<char> {
        self.full_path@
    }

    open spec fn origin_file(&self) -> Option<&'static str> {
        Some(self.file)
    }

    open spec fn origin_line(&self) -> Option<u32> {
        Some(self.line)
    }

    fn dot_identifier(&self) -> String {
        String::from_str("aggregate ").concat(self.full_path)
    }

    fn rust_identifier(&self) -> String {
        String::from_str(self.full_path)
    }

    fn file(&self) -> Option<&'static str> {
        Some(self.file)
    }

    fn line(&self) -> Option<u32> {
        Some(self.line)
    }
}

} // verus!
