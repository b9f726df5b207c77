//! What holds of every graph and every script, stated over the
//! specification functions that the contracts of the library use.

use vstd::prelude::*;
use vstd::string::*;
use crate::{EntityKind, SqlGraphEntity, SqlGraphIdentifier};
use crate::emission::{
    emission_order, lemma_emission_order_below, lemma_script_fails, node_fragment, script_text,
    script_upto,
};
use crate::error::{RenderError, fits_identifier};
use crate::pgx_sql::{
    PgxSql, Sought, handle_of, is_duplicate, is_implicit_schema, lemma_first_accepted,
    lemma_handle_of, lemma_neighbors_below, neighbors, prefix_of, resolved_schema, schema_prefix,
};
use crate::to_sql::entity::{SqlOverride, ToSqlConfigEntity};

verus! {

/// Building is a function of the descriptors: two graphs built from the
/// same collection have the same nodes, the same edges, the same index
/// tables and the same emission order, and their scripts are the same text
/// or the same failure.
pub proof fn lemma_build_is_deterministic(
    first: PgxSql,
    second: PgxSql,
    descriptors: Seq<SqlGraphEntity>,
)
    requires
        first.is_graph_of(descriptors),
        second.is_graph_of(descriptors),
    ensures
        first.entities() == second.entities(),
        first.edges() == second.edges(),
        forall|kind: EntityKind| first.table_of(kind) == second.table_of(kind),
        first.order() == second.order(),
        script_text(first.entities()) == script_text(second.entities()),
{
    assert forall|kind: EntityKind| first.table_of(kind) == second.table_of(kind) by {
        assert(first.table_of(kind) == crate::pgx_sql::kind_handles(descriptors, kind));
        assert(second.table_of(kind) == crate::pgx_sql::kind_handles(descriptors, kind));
    }
}

/// A function that is the input or the output converter of a type in the
/// same collection, and carries no override, is never declared on its own:
/// its node renders as nothing, unless its name is one that the database
/// would truncate, which ends the emission.
pub proof fn lemma_converter_is_absorbed(nodes: Seq<SqlGraphEntity>, function: int, ty: int)
    requires
        nodes.len() <= usize::MAX,
        0 <= function < nodes.len(),
        0 <= ty < nodes.len(),
        nodes[function] is Function,
        nodes[ty] is Type,
        nodes[ty]->Type_0.converts_with(nodes[function]->Function_0),
        nodes[function].directive() is UseDefault,
    ensures
        node_fragment(nodes, function) == (match nodes[function].naming_fault() {
            Some(fault) => Err::<Seq<char>, RenderError>(fault),
            None => Ok(Seq::empty()),
        }),
        nodes[function].fragment(nodes) == node_fragment(nodes, function),
{
    let item = nodes[function]->Function_0;
    lemma_handle_of(nodes, EntityKind::Function, item.full_path@);
    let found = handle_of(nodes, EntityKind::Function, item.full_path@);
    assert(found is Some);
    let node = found->0 as int;
    let twin = nodes[node]->Function_0;
    assert(nodes[node] is Function);
    assert(twin.full_path@ == item.full_path@);
    assert(nodes[ty].converts_with(nodes[node]));
    assert(nodes[node].related(nodes[ty]));
    lemma_neighbors_below(nodes, node, nodes.len() as int);
    let around = neighbors(nodes, node);
    assert(around.contains(ty as usize));
    let k = choose|k: int| 0 <= k < around.len() && around[k] == ty as usize;
    lemma_first_accepted(nodes, around, Sought::ConvertedBy(&item), 0);
    assert(Sought::ConvertedBy(&item).accepts(nodes[around[k] as int]));
    assert(item.absorbed(nodes));
}

/// A type finds its converters: where the collection holds a function that
/// is the input converter of a type, the block of the type declares an
/// input converter, a function among the neighbors of the type; and the
/// same holds of the output converter.
pub proof fn lemma_type_finds_its_converters(nodes: Seq<SqlGraphEntity>, ty: int, function: int)
    requires
        nodes.len() <= usize::MAX,
        0 <= ty < nodes.len(),
        0 <= function < nodes.len(),
        nodes[ty] is Type,
        nodes[function] is Function,
        !is_duplicate(nodes, ty),
    ensures
        nodes[ty]->Type_0.reads_with(nodes[function]->Function_0) ==> {
            &&& nodes[ty]->Type_0.input_converter(nodes) matches Some(found)
            &&& neighbors(nodes, ty).contains(found)
            &&& nodes[found as int] matches SqlGraphEntity::Function(converter)
            &&& nodes[ty]->Type_0.reads_with(converter)
        },
        nodes[ty]->Type_0.writes_with(nodes[function]->Function_0) ==> {
            &&& nodes[ty]->Type_0.output_converter(nodes) matches Some(found)
            &&& neighbors(nodes, ty).contains(found)
            &&& nodes[found as int] matches SqlGraphEntity::Function(converter)
            &&& nodes[ty]->Type_0.writes_with(converter)
        },
{
    let item = nodes[ty]->Type_0;
    lemma_prefix_of_node(nodes, ty);
    lemma_neighbors_below(nodes, ty, nodes.len() as int);
    let around = neighbors(nodes, ty);
    if item.converts_with(nodes[function]->Function_0) {
        assert(nodes[ty].converts_with(nodes[function]));
        assert(nodes[ty].related(nodes[function]));
        assert(around.contains(function as usize));
        let k = choose|k: int| 0 <= k < around.len() && around[k] == function as usize;
        lemma_first_accepted(nodes, around, Sought::InputOf(&item), 0);
        lemma_first_accepted(nodes, around, Sought::OutputOf(&item), 0);
        if item.reads_with(nodes[function]->Function_0) {
            assert(Sought::InputOf(&item).accepts(nodes[around[k] as int]));
        }
        if item.writes_with(nodes[function]->Function_0) {
            assert(Sought::OutputOf(&item).accepts(nodes[around[k] as int]));
        }
    }
}

/// A node that resolves to no schema, or to the default schema or the
/// system catalog, has no prefix; every other node has the name of its
/// schema and a dot.
pub proof fn lemma_schema_prefix(nodes: Seq<SqlGraphEntity>, node: int)
    requires
        nodes.len() <= usize::MAX,
    ensures
        match resolved_schema(nodes, node) {
            Some(owner) => {
                &&& owner < nodes.len()
                &&& nodes[owner as int] matches SqlGraphEntity::Schema(schema)
                &&& neighbors(nodes, node).contains(owner)
                &&& schema_prefix(nodes, node) == if is_implicit_schema(schema.name@) {
                    Seq::<char>::empty()
                } else {
                    schema.name@ + "."@
                }
            },
            None => schema_prefix(nodes, node) == Seq::<char>::empty(),
        },
{
    if 0 <= node < nodes.len() {
        lemma_neighbors_below(nodes, node, nodes.len() as int);
        lemma_first_accepted(nodes, neighbors(nodes, node), Sought::Schema, 0);
    }
}

/// The statement of a node is qualified by the schema that the node
/// resolves to: for a node that repeats no earlier one, the prefix that the
/// index tables give its kind and identity is the prefix of the node.
pub proof fn lemma_prefix_of_node(nodes: Seq<SqlGraphEntity>, node: int)
    requires
        nodes.len() <= usize::MAX,
        0 <= node < nodes.len(),
        !is_duplicate(nodes, node),
    ensures
        handle_of(nodes, nodes[node].kind_of(), nodes[node].rust_identifier_text()) == Some(
            node as usize,
        ),
        prefix_of(nodes, nodes[node].kind_of(), nodes[node].rust_identifier_text())
            == schema_prefix(nodes, node),
{
    lemma_handle_of(nodes, nodes[node].kind_of(), nodes[node].rust_identifier_text());
    let found = handle_of(nodes, nodes[node].kind_of(), nodes[node].rust_identifier_text());
    assert(found is Some);
    if found->0 < node {
        assert(nodes[found->0 as int].kind_of() == nodes[node].kind_of());
    }
}

/// The operator classes are qualified like every other declaration: the
/// statements of an operator class that repeats no earlier node carry the
/// prefix of its node before every name, so none where the node resolves to
/// no schema or to an implicit one, and else the name of the schema and a
/// dot.
pub proof fn lemma_operator_class_is_qualified(nodes: Seq<SqlGraphEntity>, node: int)
    requires
        nodes.len() <= usize::MAX,
        0 <= node < nodes.len(),
        !is_duplicate(nodes, node),
    ensures
        nodes[node] matches SqlGraphEntity::Ord(item) ==> item.statement(nodes)
            == item.statement_text(
            schema_prefix(nodes, node),
            crate::text::lowercase_text(item.name@) + "_cmp"@,
        ),
        nodes[node] matches SqlGraphEntity::Hash(item) ==> item.statement(nodes)
            == item.statement_text(
            schema_prefix(nodes, node),
            crate::text::lowercase_text(item.name@) + "_hash"@,
        ),
{
    lemma_prefix_of_node(nodes, node);
}

/// The override is asked before any rule of a kind, for every kind that is
/// a declaration: replacement text on a schema, be it an implicit one, on
/// the root of the extension or on hand-written SQL is emitted as it
/// stands, as it is on every other entity.
pub proof fn lemma_override_goes_first(
    nodes: Seq<SqlGraphEntity>,
    entity: SqlGraphEntity,
    text: &'static str,
)
    requires
        entity.override_config() matches Some(config) && config.enabled && config.content == Some(
            text,
        ),
    ensures
        entity.fragment(nodes) == Ok::<Seq<char>, RenderError>(text@),
        entity.override_config() is Some <==> !(entity is BuiltinType),
{
}

impl SqlGraphEntity {
    /// The name under which the database knows the entity, for the kinds
    /// that declare a named object.
    pub open spec fn declared_name(self) -> Option<&'static str> {
        match self {
            SqlGraphEntity::Schema(item) => Some(item.name),
            SqlGraphEntity::Function(item) => Some(item.name),
            SqlGraphEntity::Type(item) => Some(item.name),
            SqlGraphEntity::Enum(item) => Some(item.name),
            SqlGraphEntity::Ord(item) => Some(item.name),
            SqlGraphEntity::Hash(item) => Some(item.name),
            SqlGraphEntity::Aggregate(item) => Some(item.name),
            SqlGraphEntity::Trigger(item) => Some(item.name),
            _ => None,
        }
    }
}

/// An entity that renders by the rule of its kind and whose name has 64
/// characters or more renders as the failure that tells of the name, its
/// length and the place of the declaration, never as a statement.
pub proof fn lemma_long_name_is_refused(nodes: Seq<SqlGraphEntity>, entity: SqlGraphEntity)
    requires
        entity.directive() is UseDefault,
        entity.declared_name() is Some,
        entity.declared_name()->0@.len() >= 64,
    ensures
        ({
            &&& entity.fragment(nodes) matches Err(
                RenderError::IdentifierTooLong { name, length, identity, kind, file, line },
            )
            &&& name == entity.declared_name()->0
            &&& length == name@.len() as usize
            &&& identity@ == entity.rust_identifier_text()
            &&& kind == entity.kind_of()
            &&& entity.origin_file() == Some(file)
            &&& entity.origin_line() == Some(line)
        }),
{
    assert(!fits_identifier(entity.declared_name()->0@));
}

/// A node that renders by the rule of its kind and whose name has 64
/// characters or more ends the emission: the script is a failure, never a
/// text with a truncated or ambiguous statement.
pub proof fn lemma_long_name_ends_emission(nodes: Seq<SqlGraphEntity>, node: int)
    requires
        nodes.len() <= usize::MAX,
        0 <= node < nodes.len(),
        nodes[node].directive() is UseDefault,
        nodes[node].declared_name() is Some,
        nodes[node].declared_name()->0@.len() >= 64,
    ensures
        node_fragment(nodes, node) == nodes[node].fragment(nodes),
        node_fragment(nodes, node) matches Err(fault) && fault is IdentifierTooLong,
        script_text(nodes) is Err,
{
    lemma_long_name_is_refused(nodes, nodes[node]);
    lemma_failure_ends_emission(nodes, node);
}

/// A failure on any node ends the emission: where the fragment of a node
/// fails, the script fails.
pub proof fn lemma_failure_ends_emission(nodes: Seq<SqlGraphEntity>, node: int)
    requires
        nodes.len() <= usize::MAX,
        0 <= node < nodes.len(),
        node_fragment(nodes, node) is Err,
    ensures
        script_text(nodes) is Err,
{
    let order = emission_order(nodes);
    lemma_emission_order_below(nodes, nodes.len() as int);
    assert(order.contains(node as usize));
    let k = choose|k: int| 0 <= k < order.len() && order[k] == node as usize;
    assert(script_upto(nodes, order, k + 1) is Err);
    lemma_script_fails(nodes, order, k + 1, nodes.len() as int);
}

/// Replacement text is emitted as it stands: the fragment of an entity
/// whose override supplies text is that text, whatever the kind of the
/// entity and whatever its other fields hold.
pub proof fn lemma_replacement_is_verbatim(
    nodes: Seq<SqlGraphEntity>,
    entity: SqlGraphEntity,
    text: &'static str,
)
    requires
        entity.directive() == SqlOverride::Replace(text),
    ensures
        entity.fragment(nodes) == Ok::<Seq<char>, RenderError>(text@),
{
}

/// The same holds of the node of such an entity, whether or not it repeats
/// an earlier node.
pub proof fn lemma_replaced_node_is_verbatim(
    nodes: Seq<SqlGraphEntity>,
    node: int,
    text: &'static str,
)
    requires
        0 <= node < nodes.len(),
        nodes[node].directive() == SqlOverride::Replace(text),
    ensures
        node_fragment(nodes, node) == Ok::<Seq<char>, RenderError>(text@),
{
}

/// An override that supplies text and leaves rendering switched on answers
/// with that text; one that switches rendering off answers that the node
/// is skipped, whatever text it supplies.
pub proof fn lemma_override_answers(config: ToSqlConfigEntity)
    ensures
        config.enabled && config.content is Some ==> config.directive() == SqlOverride::Replace(
            config.content->0,
        ),
        config.enabled && config.content is None ==> config.directive() is UseDefault,
        !config.enabled ==> config.directive() is Skip,
{
}

/// An entity whose override switches rendering off renders as nothing.
pub proof fn lemma_skipped_renders_nothing(nodes: Seq<SqlGraphEntity>, entity: SqlGraphEntity)
    requires
        entity.directive() is Skip,
    ensures
        entity.fragment(nodes) == Ok::<Seq<char>, RenderError>(Seq::empty()),
{
}

/// Of the nodes of one kind and identity only the first is rendered by the
/// rule of its kind: a later one without an override, and with a name that
/// the database takes, renders as nothing.
pub proof fn lemma_duplicate_renders_nothing(nodes: Seq<SqlGraphEntity>, first: int, later: int)
    requires
        0 <= first < later < nodes.len(),
        nodes[first].kind_of() == nodes[later].kind_of(),
        nodes[first].rust_identifier_text() == nodes[later].rust_identifier_text(),
        nodes[later].directive() is UseDefault,
        nodes[later].naming_fault() is None,
    ensures
        node_fragment(nodes, later) == Ok::<Seq<char>, RenderError>(Seq::empty()),
{
}

} // verus!
