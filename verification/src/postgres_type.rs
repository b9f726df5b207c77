//! A base type with its input and output converter functions.

use vstd::prelude::*;
use vstd::string::*;
use crate::{EntityKind, SqlGraphEntity, SqlGraphIdentifier, anchor_comment, anchor_text};
use crate::error::{RenderError, check_name, name_fault};
use crate::mapping::{RustSqlMapping, mappings_register, registers};
use crate::pgx_sql::{PgxSql, Sought, first_neighbor, handle_of, prefix_of, schema_prefix};
use crate::to_sql::entity::ToSqlConfigEntity;

verus! {

/// A base type. Its converters are named by the module that holds them and
/// by their function names.
#[derive(Debug, Clone, PartialEq, Eq, Hash)]
pub struct PostgresTypeEntity {
    pub name: &'static str,
    pub file: &'static str,
    pub line: u32,
    pub full_path: &'static str,
    pub source_module_path: &'static str,
    pub mappings: Vec<RustSqlMapping>,
    pub in_fn: &'static str,
    pub in_fn_module_path: String,
    pub out_fn: &'static str,
    pub out_fn_module_path: String,
    pub to_sql_config: ToSqlConfigEntity,
}

/// The declaration of a converter inside the block of its type: the
/// function at `found` rendered by the rule of its kind behind a blank
/// line, or nothing where no converter was found.
pub open spec fn converter_declaration(nodes: Seq<SqlGraphEntity>, found: Option<usize>) -> Result<
    Seq<char>,
    RenderError,
> {
    match found {
        Some(node) => if node < nodes.len() {
            match nodes[node as int] {
                SqlGraphEntity::Function(function) => match function.sql_text(nodes) {
                    Ok(text) => Ok("\n\n"@ + text),
                    Err(fault) => Err(fault),
                },
                _ => Ok(Seq::empty()),
            }
        } else {
            Ok(Seq::empty())
        },
        None => Ok(Seq::empty()),
    }
}

/// The prefix of a converter: that of the function at `found`, or nothing
/// where no converter was found.
pub open spec fn converter_prefix(nodes: Seq<SqlGraphEntity>, found: Option<usize>) -> Seq<char> {
    match found {
        Some(node) => schema_prefix(nodes, node as int),
        None => Seq::empty(),
    }
}

impl PostgresTypeEntity {
    /// Whether one of the registrations of this type is for the type
    /// `candidate`.
    pub fn id_matches(&self, candidate: &core::any::TypeId) -> (found: bool)
        ensures
            found == registers(self.mappings@, *candidate),
    {
        mappings_register(&self.mappings, candidate)
    }

    /// The input converter of the type in the graph over `nodes`: the first
    /// neighbor of the type that is its input converter.
    pub open spec fn input_converter(self, nodes: Seq<SqlGraphEntity>) -> Option<usize> {
        match handle_of(nodes, EntityKind::Type, self.full_path@) {
            Some(node) => first_neighbor(nodes, node as int, Sought::InputOf(&self)),
            None => None,
        }
    }

    /// The output converter of the type in the graph over `nodes`.
    pub open spec fn output_converter(self, nodes: Seq<SqlGraphEntity>) -> Option<usize> {
        match handle_of(nodes, EntityKind::Type, self.full_path@) {
            Some(node) => first_neighbor(nodes, node as int, Sought::OutputOf(&self)),
            None => None,
        }
    }

    /// The block that declares the type: the shell type, the declarations
    /// of its converters, and the type itself with the converters under
    /// their qualified names.
    pub open spec fn block(
        self,
        nodes: Seq<SqlGraphEntity>,
        input_declaration: Seq<char>,
        output_declaration: Seq<char>,
    ) -> Seq<char> {
        anchor_text(Some(self.file), Some(self.line), self.full_path@) + "\n"@ + "CREATE TYPE "@
            + prefix_of(nodes, EntityKind::Type, self.full_path@) + self.name@ + ";"@
            + input_declaration + output_declaration + "\n\n"@ + "CREATE TYPE "@ + prefix_of(
            nodes,
            EntityKind::Type,
            self.full_path@,
        ) + self.name@ + " (\n"@ + "\tINTERNALLENGTH = variable,\n"@ + "\tINPUT = "@
            + converter_prefix(nodes, self.input_converter(nodes)) + self.in_fn@ + ",\n"@
            + "\tOUTPUT = "@ + converter_prefix(nodes, self.output_converter(nodes)) + self.out_fn@
            + ",\n"@ + "\tSTORAGE = extended\n"@ + ");"@
    }

    /// What rendering the type by the rule of its kind gives: the failure
    /// of a name that is too long; else the failure of its input converter,
    /// else that of its output converter, where rendering one fails; else
    /// the block.
    pub open spec fn sql_text(self, nodes: Seq<SqlGraphEntity>) -> Result<Seq<char>, RenderError> {
        match name_fault(self.name, self.full_path, EntityKind::Type, self.file, self.line) {
            Some(fault) => Err(fault),
            None => match converter_declaration(nodes, self.input_converter(nodes)) {
                Err(fault) => Err(fault),
                Ok(input_declaration) => match converter_declaration(
                    nodes,
                    self.output_converter(nodes),
                ) {
                    Err(fault) => Err(fault),
                    Ok(output_declaration) => Ok(
                        self.block(nodes, input_declaration, output_declaration),
                    ),
                },
            },
        }
    }

    /// Renders the type by the rule of its kind.
    pub fn to_sql(&self, context: &PgxSql) -> (rendered: Result<String, RenderError>)
        ensures
            match self.sql_text(context.entities()) {
                Ok(text) => rendered matches Ok(sql) && sql@ == text,
                Err(fault) => rendered == Err::<String, RenderError>(fault),
            },
    {
        match check_name(self.name, self.full_path, EntityKind::Type, self.file, self.line) {
            Err(fault) => {
                return Err(fault);
            },
            Ok(()) => {},
        }
        let owner = context.find(EntityKind::Type, self.full_path);
        let (input, output) = match owner {
            Some(node) => (
                context.first_neighbor(node, &Sought::InputOf(self)),
                context.first_neighbor(node, &Sought::OutputOf(self)),
            ),
            None => (None, None),
        };
        let input_declaration = match declare_converter(context, input) {
            Ok(text) => text,
            Err(fault) => {
                return Err(fault);
            },
        };
        let output_declaration = match declare_converter(context, output) {
            Ok(text) => text,
            Err(fault) => {
                return Err(fault);
            },
        };
        let prefix = match owner {
            Some(node) => context.schema_prefix_for(node),
            None => String::new(),
        };
        let input_prefix = match input {
            Some(node) => context.schema_prefix_for(node),
            None => String::new(),
        };
        let output_prefix = match output {
            Some(node) => context.schema_prefix_for(node),
            None => String::new(),
        };
        let mut sql = anchor_comment(Some(self.file), Some(self.line), self.full_path);
        sql.append("\n");
        sql.append("CREATE TYPE ");
        sql.append(prefix.as_str());
        sql.append(self.name);
        sql.append(";");
        sql.append(input_declaration.as_str());
        sql.append(output_declaration.as_str());
        sql.append("\n\n");
        sql.append("CREATE TYPE ");
        sql.append(prefix.as_str());
        sql.append(self.name);
        sql.append(" (\n");
        sql.append("\tINTERNALLENGTH = variable,\n");
        sql.append("\tINPUT = ");
        sql.append(input_prefix.as_str());
        sql.append(self.in_fn);
        sql.append(",\n");
        sql.append("\tOUTPUT = ");
        sql.append(output_prefix.as_str());
        sql.append(self.out_fn);
        sql.append(",\n");
        sql.append("\tSTORAGE = extended\n");
        sql.append(");");
        Ok(sql)
    }
}

/// Renders the declaration of the converter at `found` for the block of its
/// type.
pub fn declare_converter(context: &PgxSql, found: Option<usize>) -> (rendered: Result<
    String,
    RenderError,
>)
    ensures
        match converter_declaration(context.entities(), found) {
            Ok(text) => rendered matches Ok(sql) && sql@ == text,
            Err(fault) => rendered == Err::<String, RenderError>(fault),
        },
{
    match found {
        Some(node) => match context.entity(node) {
            Some(SqlGraphEntity::Function(function)) => match function.to_sql(context) {
                Ok(text) => Ok(String::from_str("\n\n").concat(text.as_str())),
                Err(fault) => Err(fault),
            },
            _ => Ok(String::new()),
        },
        None => Ok(String::new()),
    }
}

impl From<PostgresTypeEntity> for SqlGraphEntity {
    fn from(val: PostgresTypeEntity) -> (entity: Self) {
        SqlGraphEntity::Type(val)
    }
}

impl vstd::std_specs::convert::FromSpecImpl<PostgresTypeEntity> for SqlGraphEntity {
    open spec fn obeys_from_spec() -> bool {
        true
    }

    open spec fn from_spec(val: PostgresTypeEntity) -> Self {
        SqlGraphEntity::Type(val)
    }
}

impl SqlGraphIdentifier for PostgresTypeEntity {
    open spec fn dot_identifier_text(&self) -> Seq<char> {
        "type "@ + self.full_path@
    }

    open spec fn rust_identifier_text(&self) -> Seq<char> {
        self.full_path@
    }

    open spec fn origin_file(&self) -> Option<&'static str> {
        Some(self.file)
    }

    open spec fn origin_line(&self) -> Option<u32> {
        Some(self.line)
    }

    fn dot_identifier(&self) -> String {
        String::from_str("type ").concat(self.full_path)
    }

    fn rust_identifier(&self) -> String {
        String::from_str(self.full_path)
    }

    fn file(&self) -> Option<&'static str> {
        Some(self.file)
    }

    fn line(&self) -> Option<u32> {
        Some(self.line)
    }
}

} // verus!
