//! The entity graph: the descriptors as nodes, an edge wherever one
//! descriptor refers to another, a table of handles for each kind, and the
//! order in which the nodes are emitted.

use vstd::prelude::*;
use vstd::string::*;
use crate::{EntityKind, SqlGraphEntity, SqlGraphIdentifier};
use crate::pg_extern::PgExternEntity;
use crate::postgres_type::PostgresTypeEntity;
use crate::text::str_eq;
use crate::used_type::UsedTypeEntity;

verus! {

/// The handles below `bound` of the nodes that an edge joins to `node`, in
/// increasing order.
pub open spec fn neighbors_below(nodes: Seq<SqlGraphEntity>, node: int, bound: int) -> Seq<usize>
    decreases bound,
{
    if bound <= 0 {
        Seq::empty()
    } else {
        let earlier = neighbors_below(nodes, node, bound - 1);
        if bound - 1 != node && nodes[node].related(nodes[bound - 1]) {
            earlier.push((bound - 1) as usize)
        } else {
            earlier
        }
    }
}

/// The handles of the nodes that an edge joins to `node`, in increasing
/// order.
pub open spec fn neighbors(nodes: Seq<SqlGraphEntity>, node: int) -> Seq<usize> {
    neighbors_below(nodes, node, nodes.len() as int)
}

/// The adjacency lists of the graph over `nodes`.
pub open spec fn edge_lists(nodes: Seq<SqlGraphEntity>) -> Seq<Seq<usize>> {
    Seq::new(nodes.len(), |node: int| neighbors(nodes, node))
}

/// The handles below `bound` of the nodes of kind `kind`, in increasing
/// order.
pub open spec fn kind_handles_below(nodes: Seq<SqlGraphEntity>, kind: EntityKind, bound: int) -> Seq<
    usize,
>
    decreases bound,
{
    if bound <= 0 {
        Seq::empty()
    } else {
        let earlier = kind_handles_below(nodes, kind, bound - 1);
        if nodes[bound - 1].kind_of() == kind {
            earlier.push((bound - 1) as usize)
        } else {
            earlier
        }
    }
}

/// The index table of `kind`: the handles of the nodes of that kind, in
/// increasing order.
pub open spec fn kind_handles(nodes: Seq<SqlGraphEntity>, kind: EntityKind) -> Seq<usize> {
    kind_handles_below(nodes, kind, nodes.len() as int)
}

/// The first handle in `among`, from position `from` on, whose node has the
/// identity `identity`.
pub open spec fn first_named(
    nodes: Seq<SqlGraphEntity>,
    among: Seq<usize>,
    identity: Seq<char>,
    from: int,
) -> Option<usize>
    decreases among.len() - from,
{
    if from < 0 || from >= among.len() {
        None
    } else if nodes[among[from] as int].rust_identifier_text() == identity {
        Some(among[from])
    } else {
        first_named(nodes, among, identity, from + 1)
    }
}

/// The handle that the index table of `kind` holds for `identity`.
pub open spec fn handle_of(nodes: Seq<SqlGraphEntity>, kind: EntityKind, identity: Seq<char>) -> Option<
    usize,
> {
    first_named(nodes, kind_handles(nodes, kind), identity, 0)
}

/// Whether the node at `node` repeats an earlier one: an earlier node is of
/// the same kind and has the same identity.
pub open spec fn is_duplicate(nodes: Seq<SqlGraphEntity>, node: int) -> bool {
    &&& node < nodes.len()
    &&& exists|earlier: int|
        0 <= earlier < node && (#[trigger] nodes[earlier]).kind_of() == nodes[node].kind_of()
            && nodes[earlier].rust_identifier_text() == nodes[node].rust_identifier_text()
}

/// What a walk over the neighbors of a node looks for.
pub enum Sought<'a> {
    /// A schema.
    Schema,
    /// The entity that declares a used type.
    Declaring(&'a UsedTypeEntity),
    /// A type that has the function as one of its converters.
    ConvertedBy(&'a PgExternEntity),
    /// The function that is the input converter of the type.
    InputOf(&'a PostgresTypeEntity),
    /// The function that is the output converter of the type.
    OutputOf(&'a PostgresTypeEntity),
}

impl<'a> Sought<'a> {
    /// Whether `entity` is what the walk looks for.
    pub open spec fn accepts(self, entity: SqlGraphEntity) -> bool {
        match self {
            Sought::Schema => entity is Schema,
            Sought::Declaring(used) => entity.declares(*used),
            Sought::ConvertedBy(function) => entity matches SqlGraphEntity::Type(ty)
                && ty.converts_with(*function),
            Sought::InputOf(ty) => entity matches SqlGraphEntity::Function(function)
                && ty.reads_with(function),
            Sought::OutputOf(ty) => entity matches SqlGraphEntity::Function(function)
                && ty.writes_with(function),
        }
    }

    /// Tells whether `entity` is what the walk looks for.
    pub fn admits(&self, entity: &SqlGraphEntity) -> (found: bool)
        ensures
            found == self.accepts(*entity),
    {
        match self {
            Sought::Schema => match entity {
                SqlGraphEntity::Schema(_) => true,
                _ => false,
            },
            Sought::Declaring(used) => entity.declares_type(used),
            Sought::ConvertedBy(function) => match entity {
                SqlGraphEntity::Type(ty) => ty.is_converter(function),
                _ => false,
            },
            Sought::InputOf(ty) => match entity {
                SqlGraphEntity::Function(function) => ty.is_input_converter(function),
                _ => false,
            },
            Sought::OutputOf(ty) => match entity {
                SqlGraphEntity::Function(function) => ty.is_output_converter(function),
                _ => false,
            },
        }
    }
}

/// The first handle in `among`, from position `from` on, whose node is what
/// `sought` looks for.
pub open spec fn first_accepted(
    nodes: Seq<SqlGraphEntity>,
    among: Seq<usize>,
    sought: Sought,
    from: int,
) -> Option<usize>
    decreases among.len() - from,
{
    if from < 0 || from >= among.len() {
        None
    } else if sought.accepts(nodes[among[from] as int]) {
        Some(among[from])
    } else {
        first_accepted(nodes, among, sought, from + 1)
    }
}

/// The first neighbor of `node` that is what `sought` looks for.
pub open spec fn first_neighbor(nodes: Seq<SqlGraphEntity>, node: int, sought: Sought) -> Option<
    usize,
> {
    if 0 <= node < nodes.len() {
        first_accepted(nodes, neighbors(nodes, node), sought, 0)
    } else {
        None
    }
}

/// Whether a schema of this name is implicit: the default schema and the
/// system catalog are never declared and never written as a prefix.
pub open spec fn is_implicit_schema(name: Seq<char>) -> bool {
    name == "public"@ || name == "pg_catalog"@
}

/// Tells whether a schema of this name is implicit.
pub fn schema_is_implicit(name: &str) -> (implicit: bool)
    ensures
        implicit == is_implicit_schema(name@),
{
    str_eq(name, "public") || str_eq(name, "pg_catalog")
}

/// The schema that `node` resolves to: the first schema among its
/// neighbors.
pub open spec fn resolved_schema(nodes: Seq<SqlGraphEntity>, node: int) -> Option<usize> {
    first_neighbor(nodes, node, Sought::Schema)
}

/// The text that qualifies the names of `node`: the name of its schema and
/// a dot, or nothing where it has no schema or an implicit one.
pub open spec fn schema_prefix(nodes: Seq<SqlGraphEntity>, node: int) -> Seq<char> {
    match resolved_schema(nodes, node) {
        Some(owner) => match nodes[owner as int] {
            SqlGraphEntity::Schema(schema) => if is_implicit_schema(schema.name@) {
                Seq::empty()
            } else {
                schema.name@ + "."@
            },
            _ => Seq::empty(),
        },
        None => Seq::empty(),
    }
}

/// The prefix of the entity of kind `kind` that is named `identity`, looked
/// up in the index table of its kind; nothing where the table does not
/// hold it.
pub open spec fn prefix_of(nodes: Seq<SqlGraphEntity>, kind: EntityKind, identity: Seq<char>) -> Seq<
    char,
> {
    match handle_of(nodes, kind, identity) {
        Some(node) => schema_prefix(nodes, node as int),
        None => Seq::empty(),
    }
}

/// The prefix of a type that the entity at `owner` uses: that of the
/// neighbor that declares the type, or nothing.
pub open spec fn used_type_prefix(
    nodes: Seq<SqlGraphEntity>,
    owner: Option<usize>,
    used: UsedTypeEntity,
) -> Seq<char> {
    match owner {
        Some(node) => match first_neighbor(nodes, node as int, Sought::Declaring(&used)) {
            Some(declarer) => schema_prefix(nodes, declarer as int),
            None => Seq::empty(),
        },
        None => Seq::empty(),
    }
}

/// The index tables: for each kind the handles of the nodes of that kind.
pub struct IndexTables {
    roots: Vec<usize>,
    schemas: Vec<usize>,
    extension_sqls: Vec<usize>,
    externs: Vec<usize>,
    types: Vec<usize>,
    builtin_types: Vec<usize>,
    enums: Vec<usize>,
    ords: Vec<usize>,
    hashes: Vec<usize>,
    aggregates: Vec<usize>,
    triggers: Vec<usize>,
}

impl IndexTables {
    /// The table of `kind`.
    pub closed spec fn table_of(self, kind: EntityKind) -> Seq<usize> {
        match kind {
            EntityKind::ExtensionRoot => self.roots@,
            EntityKind::Schema => self.schemas@,
            EntityKind::CustomSql => self.extension_sqls@,
            EntityKind::Function => self.externs@,
            EntityKind::Type => self.types@,
            EntityKind::BuiltinType => self.builtin_types@,
            EntityKind::Enum => self.enums@,
            EntityKind::Ord => self.ords@,
            EntityKind::Hash => self.hashes@,
            EntityKind::Aggregate => self.aggregates@,
            EntityKind::Trigger => self.triggers@,
        }
    }

    /// Whether each table lists the nodes of its kind.
    pub open spec fn indexes(self, nodes: Seq<SqlGraphEntity>) -> bool {
        forall|kind: EntityKind| #[trigger] self.table_of(kind) == kind_handles(nodes, kind)
    }

    /// Gives the table of `kind`.
    pub fn table(&self, kind: EntityKind) -> (table: &Vec<usize>)
        ensures
            table@ == self.table_of(kind),
    {
        match kind {
            EntityKind::ExtensionRoot => &self.roots,
            EntityKind::Schema => &self.schemas,
            EntityKind::CustomSql => &self.extension_sqls,
            EntityKind::Function => &self.externs,
            EntityKind::Type => &self.types,
            EntityKind::BuiltinType => &self.builtin_types,
            EntityKind::Enum => &self.enums,
            EntityKind::Ord => &self.ords,
            EntityKind::Hash => &self.hashes,
            EntityKind::Aggregate => &self.aggregates,
            EntityKind::Trigger => &self.triggers,
        }
    }

    /// Builds the tables of `nodes`.
    pub fn build(nodes: &Vec<SqlGraphEntity>) -> (tables: IndexTables)
        ensures
            tables.indexes(nodes@),
    {
        IndexTables {
            roots: collect_kind(nodes, EntityKind::ExtensionRoot),
            schemas: collect_kind(nodes, EntityKind::Schema),
            extension_sqls: collect_kind(nodes, EntityKind::CustomSql),
            externs: collect_kind(nodes, EntityKind::Function),
            types: collect_kind(nodes, EntityKind::Type),
            builtin_types: collect_kind(nodes, EntityKind::BuiltinType),
            enums: collect_kind(nodes, EntityKind::Enum),
            ords: collect_kind(nodes, EntityKind::Ord),
            hashes: collect_kind(nodes, EntityKind::Hash),
            aggregates: collect_kind(nodes, EntityKind::Aggregate),
            triggers: collect_kind(nodes, EntityKind::Trigger),
        }
    }
}

/// Lists the handles of the nodes of kind `kind`.
fn collect_kind(nodes: &Vec<SqlGraphEntity>, kind: EntityKind) -> (handles: Vec<usize>)
    ensures
        handles@ == kind_handles(nodes@, kind),
{
    let mut handles: Vec<usize> = Vec::new();
    let mut handle: usize = 0;
    while handle < nodes.len()
        invariant
            handle <= nodes@.len(),
            handles@ == kind_handles_below(nodes@, kind, handle as int),
        decreases nodes@.len() - handle,
    {
        if nodes[handle].kind() == kind {
            handles.push(handle);
        }
        handle += 1;
    }
    handles
}

/// Lists the handles of the nodes that an edge joins to `node`.
fn collect_neighbors(nodes: &Vec<SqlGraphEntity>, node: usize) -> (handles: Vec<usize>)
    requires
        node < nodes@.len(),
    ensures
        handles@ == neighbors(nodes@, node as int),
{
    let mut handles: Vec<usize> = Vec::new();
    let mut other: usize = 0;
    while other < nodes.len()
        invariant
            node < nodes@.len(),
            other <= nodes@.len(),
            handles@ == neighbors_below(nodes@, node as int, other as int),
        decreases nodes@.len() - other,
    {
        if other != node && nodes[node].is_related_to(&nodes[other]) {
            handles.push(other);
        }
        other += 1;
    }
    handles
}

/// The entity graph with its index tables and its emission order.
pub struct PgxSql {
    nodes: Vec<SqlGraphEntity>,
    adjacency: Vec<Vec<usize>>,
    tables: IndexTables,
    order: Vec<usize>,
}

impl PgxSql {
    #[verifier::type_invariant]
    spec fn well_formed(&self) -> bool {
        self.is_graph_of(self.nodes@)
    }

    /// The nodes of the graph: the descriptors, in the order in which they
    /// were handed in. A node's handle is its position.
    pub closed spec fn entities(&self) -> Seq<SqlGraphEntity> {
        self.nodes@
    }

    /// The adjacency list of each node.
    pub closed spec fn edges(&self) -> Seq<Seq<usize>> {
        Seq::new(self.adjacency@.len(), |node: int| self.adjacency@[node]@)
    }

    /// The index table of `kind`.
    pub closed spec fn table_of(&self, kind: EntityKind) -> Seq<usize> {
        self.tables.table_of(kind)
    }

    /// The order in which the nodes are emitted.
    pub closed spec fn order(&self) -> Seq<usize> {
        self.order@
    }

    /// Whether this is the graph of `descriptors`: one node for each
    /// descriptor, an edge wherever one refers to the other, each index
    /// table the list of the nodes of its kind, and the emission order that
    /// of the descriptors.
    pub open spec fn is_graph_of(&self, descriptors: Seq<SqlGraphEntity>) -> bool {
        &&& self.entities() == descriptors
        &&& self.edges() == edge_lists(descriptors)
        &&& forall|kind: EntityKind| #[trigger] self.table_of(kind) == kind_handles(descriptors, kind)
        &&& self.order() == crate::emission::emission_order(descriptors)
    }

    /// Builds the graph of `descriptors`.
    pub fn build(descriptors: Vec<SqlGraphEntity>) -> (graph: PgxSql)
        ensures
            graph.is_graph_of(descriptors@),
    {
        let mut adjacency: Vec<Vec<usize>> = Vec::new();
        let mut node: usize = 0;
        while node < descriptors.len()
            invariant
                node <= descriptors@.len(),
                adjacency@.len() == node,
                forall|k: int|
                    0 <= k < node ==> (#[trigger] adjacency@[k])@ == neighbors(descriptors@, k),
            decreases descriptors@.len() - node,
        {
            let handles = collect_neighbors(&descriptors, node);
            adjacency.push(handles);
            node += 1;
        }
        let tables = IndexTables::build(&descriptors);
        let order = crate::emission::order_nodes(&descriptors);
        proof {
            assert(Seq::new(adjacency@.len(), |node: int| adjacency@[node]@) =~= edge_lists(
                descriptors@,
            ));
        }
        PgxSql { nodes: descriptors, adjacency, tables, order }
    }

    /// The number of nodes.
    pub fn len(&self) -> (count: usize)
        ensures
            count == self.entities().len(),
    {
        self.nodes.len()
    }

    /// The neighbors of the node at `handle`, if there is such a node.
    pub fn neighbors(&self, handle: usize) -> (found: Option<&Vec<usize>>)
        ensures
            match found {
                Some(handles) => handle < self.entities().len() && handles@ == neighbors(
                    self.entities(),
                    handle as int,
                ),
                None => handle >= self.entities().len(),
            },
    {
        proof {
            use_type_invariant(self);
        }
        if handle < self.nodes.len() {
            proof {
                assert(self.edges().len() == self.adjacency@.len());
                assert(edge_lists(self.nodes@).len() == self.nodes@.len());
                assert(self.edges()[handle as int] == self.adjacency@[handle as int]@);
                assert(edge_lists(self.nodes@)[handle as int] == neighbors(
                    self.nodes@,
                    handle as int,
                ));
            }
            Some(&self.adjacency[handle])
        } else {
            None
        }
    }

    /// The index table of `kind`.
    pub fn table(&self, kind: EntityKind) -> (table: &Vec<usize>)
        ensures
            table@ == kind_handles(self.entities(), kind),
    {
        proof {
            use_type_invariant(self);
            assert(self.table_of(kind) == kind_handles(self.entities(), kind));
        }
        self.tables.table(kind)
    }

    /// The emission order.
    pub fn emission_order(&self) -> (order: &Vec<usize>)
        ensures
            order@ == crate::emission::emission_order(self.entities()),
    {
        proof {
            use_type_invariant(self);
        }
        &self.order
    }

    /// Looks up the handle of the entity of kind `kind` that is named
    /// `identity`.
    pub fn find(&self, kind: EntityKind, identity: &str) -> (found: Option<usize>)
        ensures
            found == handle_of(self.entities(), kind, identity@),
            found matches Some(handle) ==> handle < self.entities().len(),
    {
        let count = self.nodes.len();
        proof {
            use_type_invariant(self);
            lemma_kind_handles_below(self.nodes@, kind, count as int);
        }
        let table = self.table(kind);
        let mut at: usize = 0;
        while at < table.len()
            invariant
                at <= table@.len(),
                table@ == kind_handles(self.nodes@, kind),
                forall|k: int| 0 <= k < table@.len() ==> (#[trigger] table@[k]) < self.nodes@.len(),
                first_named(self.nodes@, table@, identity@, 0) == first_named(
                    self.nodes@,
                    table@,
                    identity@,
                    at as int,
                ),
            decreases table@.len() - at,
        {
            let handle = table[at];
            if str_eq(self.nodes[handle].identity(), identity) {
                return Some(handle);
            }
            at += 1;
        }
        None
    }

    /// Tells whether the node at `handle` repeats an earlier one of its
    /// kind and identity.
    pub fn repeats_earlier(&self, handle: usize) -> (repeated: bool)
        ensures
            repeated == is_duplicate(self.entities(), handle as int),
    {
        if handle >= self.nodes.len() {
            return false;
        }
        let node = &self.nodes[handle];
        proof {
            lemma_handle_of(self.nodes@, node.kind_of(), node.rust_identifier_text());
        }
        match self.find(node.kind(), node.identity()) {
            Some(first) => {
                proof {
                    if first != handle {
                        assert(self.nodes@[first as int].kind_of() == node.kind_of());
                    }
                }
                first != handle
            },
            None => false,
        }
    }

    /// Walks the neighbors of the node at `handle` and gives the first that
    /// is what `sought` looks for.
    pub fn first_neighbor(&self, handle: usize, sought: &Sought) -> (found: Option<usize>)
        ensures
            found == first_neighbor(self.entities(), handle as int, *sought),
            found matches Some(other) ==> other < self.entities().len() && sought.accepts(
                self.entities()[other as int],
            ),
    {
        let count = self.nodes.len();
        proof {
            use_type_invariant(self);
            lemma_neighbors_below(self.nodes@, handle as int, count as int);
        }
        match self.neighbors(handle) {
            None => None,
            Some(handles) => {
                let mut at: usize = 0;
                while at < handles.len()
                    invariant
                        at <= handles@.len(),
                        handle < self.nodes@.len(),
                        handles@ == neighbors(self.nodes@, handle as int),
                        forall|k: int|
                            0 <= k < handles@.len() ==> (#[trigger] handles@[k]) < self.nodes@.len(),
                        first_accepted(self.nodes@, handles@, *sought, 0) == first_accepted(
                            self.nodes@,
                            handles@,
                            *sought,
                            at as int,
                        ),
                    decreases handles@.len() - at,
                {
                    let other = handles[at];
                    if sought.admits(&self.nodes[other]) {
                        return Some(other);
                    }
                    at += 1;
                }
                None
            },
        }
    }

    /// The text that qualifies the names of the node at `handle`: the name
    /// of the schema it resolves to and a dot, or nothing where it resolves
    /// to no schema or to an implicit one.
    pub fn schema_prefix_for(&self, handle: usize) -> (prefix: String)
        ensures
            prefix@ == schema_prefix(self.entities(), handle as int),
    {
        match self.first_neighbor(handle, &Sought::Schema) {
            Some(owner) => match &self.nodes[owner] {
                SqlGraphEntity::Schema(schema) => {
                    if schema_is_implicit(schema.name) {
                        String::new()
                    } else {
                        String::from_str(schema.name).concat(".")
                    }
                },
                _ => String::new(),
            },
            None => String::new(),
        }
    }

    /// The prefix of the entity of kind `kind` that is named `identity`.
    pub fn prefix_of(&self, kind: EntityKind, identity: &str) -> (prefix: String)
        ensures
            prefix@ == prefix_of(self.entities(), kind, identity@),
    {
        match self.find(kind, identity) {
            Some(node) => self.schema_prefix_for(node),
            None => String::new(),
        }
    }

    /// The prefix of a type that the node at `owner` uses.
    pub fn used_type_prefix(&self, owner: Option<usize>, used: &UsedTypeEntity) -> (prefix: String)
        ensures
            prefix@ == used_type_prefix(self.entities(), owner, *used),
    {
        match owner {
            Some(node) => match self.first_neighbor(node, &Sought::Declaring(used)) {
                Some(declarer) => self.schema_prefix_for(declarer),
                None => String::new(),
            },
            None => String::new(),
        }
    }

    /// The node at `handle`, if there is one.
    pub fn entity(&self, handle: usize) -> (node: Option<&SqlGraphEntity>)
        ensures
            node == (if handle < self.entities().len() {
                Some(&self.entities()[handle as int])
            } else {
                None
            }),
    {
        if handle < self.nodes.len() {
            Some(&self.nodes[handle])
        } else {
            None
        }
    }
}

/// What the neighbors and the index tables hold: handles of nodes, in
/// increasing order, each list exactly the nodes it is meant to list.
pub proof fn lemma_neighbors_below(nodes: Seq<SqlGraphEntity>, node: int, bound: int)
    requires
        0 <= bound <= usize::MAX,
    ensures
        forall|k: int|
            0 <= k < neighbors_below(nodes, node, bound).len() ==> {
                let other = #[trigger] neighbors_below(nodes, node, bound)[k];
                &&& other < bound
                &&& other != node
                &&& nodes[node].related(nodes[other as int])
            },
        forall|other: int|
            0 <= other < bound && other != node && nodes[node].related(#[trigger] nodes[other])
                ==> neighbors_below(nodes, node, bound).contains(other as usize),
    decreases bound,
{
    if bound > 0 {
        lemma_neighbors_below(nodes, node, bound - 1);
        let earlier = neighbors_below(nodes, node, bound - 1);
        let all = neighbors_below(nodes, node, bound);
        assert forall|other: int|
            0 <= other < bound && other != node && nodes[node].related(
                #[trigger] nodes[other],
            ) implies all.contains(other as usize) by {
            if other < bound - 1 {
                let k = choose|k: int| 0 <= k < earlier.len() && earlier[k] == other as usize;
                assert(all[k] == other as usize);
            } else {
                assert(all[all.len() - 1] == other as usize);
            }
        }
    }
}

/// The index table of a kind lists the handles of the nodes of that kind,
/// each once, in increasing order.
pub proof fn lemma_kind_handles_below(nodes: Seq<SqlGraphEntity>, kind: EntityKind, bound: int)
    requires
        0 <= bound <= usize::MAX,
    ensures
        forall|k: int|
            0 <= k < kind_handles_below(nodes, kind, bound).len() ==> {
                let handle = #[trigger] kind_handles_below(nodes, kind, bound)[k];
                &&& handle < bound
                &&& nodes[handle as int].kind_of() == kind
            },
        forall|j: int, k: int|
            0 <= j < k < kind_handles_below(nodes, kind, bound).len() ==> (
            #[trigger] kind_handles_below(nodes, kind, bound)[j]) < (#[trigger] kind_handles_below(
                nodes,
                kind,
                bound,
            )[k]),
        forall|handle: int|
            0 <= handle < bound && (#[trigger] nodes[handle]).kind_of() == kind
                ==> kind_handles_below(nodes, kind, bound).contains(handle as usize),
    decreases bound,
{
    if bound > 0 {
        lemma_kind_handles_below(nodes, kind, bound - 1);
        let earlier = kind_handles_below(nodes, kind, bound - 1);
        let all = kind_handles_below(nodes, kind, bound);
        assert forall|handle: int|
            0 <= handle < bound && (#[trigger] nodes[handle]).kind_of() == kind implies all.contains(
            handle as usize,
        ) by {
            if handle < bound - 1 {
                let k = choose|k: int| 0 <= k < earlier.len() && earlier[k] == handle as usize;
                assert(all[k] == handle as usize);
            } else {
                assert(all[all.len() - 1] == handle as usize);
            }
        }
    }
}

/// What a walk finds: the first handle, from position `from` on, whose
/// node is what `sought` looks for; and nothing only where no node is.
pub proof fn lemma_first_accepted(
    nodes: Seq<SqlGraphEntity>,
    among: Seq<usize>,
    sought: Sought,
    from: int,
)
    requires
        0 <= from,
    ensures
        match first_accepted(nodes, among, sought, from) {
            Some(found) => exists|k: int|
                {
                    &&& from <= k < among.len()
                    &&& #[trigger] among[k] == found
                    &&& sought.accepts(nodes[found as int])
                    &&& forall|j: int|
                        from <= j < k ==> !sought.accepts(nodes[(#[trigger] among[j]) as int])
                },
            None => forall|k: int|
                from <= k < among.len() ==> !sought.accepts(nodes[(#[trigger] among[k]) as int]),
        },
    decreases among.len() - from,
{
    if from < among.len() {
        if sought.accepts(nodes[among[from] as int]) {
            assert(among[from] == among[from]);
        } else {
            lemma_first_accepted(nodes, among, sought, from + 1);
            match first_accepted(nodes, among, sought, from + 1) {
                Some(found) => {
                    let k = choose|k: int|
                        {
                            &&& from + 1 <= k < among.len()
                            &&& #[trigger] among[k] == found
                            &&& sought.accepts(nodes[found as int])
                            &&& forall|j: int|
                                from + 1 <= j < k ==> !sought.accepts(
                                    nodes[(#[trigger] among[j]) as int],
                                )
                        };
                    assert(among[k] == found);
                },
                None => {},
            }
        }
    }
}

/// What a lookup by identity finds: the first handle, from position
/// `from` on, whose node has the identity; and nothing only where no node
/// has.
pub proof fn lemma_first_named(
    nodes: Seq<SqlGraphEntity>,
    among: Seq<usize>,
    identity: Seq<char>,
    from: int,
)
    requires
        0 <= from,
    ensures
        match first_named(nodes, among, identity, from) {
            Some(found) => exists|k: int|
                {
                    &&& from <= k < among.len()
                    &&& #[trigger] among[k] == found
                    &&& nodes[found as int].rust_identifier_text() == identity
                    &&& forall|j: int|
                        from <= j < k ==> nodes[(#[trigger] among[j]) as int].rust_identifier_text()
                            != identity
                },
            None => forall|k: int|
                from <= k < among.len() ==> nodes[(#[trigger] among[k]) as int].rust_identifier_text()
                    != identity,
        },
    decreases among.len() - from,
{
    if from < among.len() {
        if nodes[among[from] as int].rust_identifier_text() == identity {
            assert(among[from] == among[from]);
        } else {
            lemma_first_named(nodes, among, identity, from + 1);
            match first_named(nodes, among, identity, from + 1) {
                Some(found) => {
                    let k = choose|k: int|
                        {
                            &&& from + 1 <= k < among.len()
                            &&& #[trigger] among[k] == found
                            &&& nodes[found as int].rust_identifier_text() == identity
                            &&& forall|j: int|
                                from + 1 <= j < k ==> nodes[(
                                #[trigger] among[j]) as int].rust_identifier_text() != identity
                        };
                    assert(among[k] == found);
                },
                None => {},
            }
        }
    }
}

/// The index tables hold every entity under its kind and identity: the
/// lookup gives the first node of the kind with the identity, and gives
/// nothing only where the graph has no such node.
pub proof fn lemma_handle_of(nodes: Seq<SqlGraphEntity>, kind: EntityKind, identity: Seq<char>)
    requires
        nodes.len() <= usize::MAX,
    ensures
        match handle_of(nodes, kind, identity) {
            Some(found) => {
                &&& found < nodes.len()
                &&& nodes[found as int].kind_of() == kind
                &&& nodes[found as int].rust_identifier_text() == identity
                &&& forall|node: int|
                    0 <= node < found && (#[trigger] nodes[node]).kind_of() == kind
                        ==> nodes[node].rust_identifier_text() != identity
            },
            None => forall|node: int|
                0 <= node < nodes.len() && (#[trigger] nodes[node]).kind_of() == kind
                    ==> nodes[node].rust_identifier_text() != identity,
        },
{
    let table = kind_handles(nodes, kind);
    lemma_kind_handles_below(nodes, kind, nodes.len() as int);
    lemma_first_named(nodes, table, identity, 0);
    match handle_of(nodes, kind, identity) {
        Some(found) => {
            let at = choose|at: int|
                {
                    &&& 0 <= at < table.len()
                    &&& #[trigger] table[at] == found
                    &&& nodes[found as int].rust_identifier_text() == identity
                    &&& forall|j: int|
                        0 <= j < at ==> nodes[(#[trigger] table[j]) as int].rust_identifier_text()
                            != identity
                };
            assert forall|node: int|
                0 <= node < found && (#[trigger] nodes[node]).kind_of()
                    == kind implies nodes[node].rust_identifier_text() != identity by {
                assert(table.contains(node as usize));
                let k = choose|k: int| 0 <= k < table.len() && table[k] == node as usize;
                if k >= at {
                    if k > at {
                        assert(table[at] < table[k]);
                    }
                }
                assert(nodes[table[k] as int].rust_identifier_text() != identity);
            }
        },
        None => {
            assert forall|node: int|
                0 <= node < nodes.len() && (#[trigger] nodes[node]).kind_of()
                    == kind implies nodes[node].rust_identifier_text() != identity by {
                assert(table.contains(node as usize));
                let k = choose|k: int| 0 <= k < table.len() && table[k] == node as usize;
                assert(nodes[table[k] as int].rust_identifier_text() != identity);
            }
        },
    }
}

/// Edges have no direction: a node is among the neighbors of another
/// exactly when the other is among its own, and exactly when one of the two
/// refers to the other.
pub proof fn lemma_edges_undirected(nodes: Seq<SqlGraphEntity>, node: int, other: int)
    requires
        nodes.len() <= usize::MAX,
        0 <= node < nodes.len(),
        0 <= other < nodes.len(),
    ensures
        neighbors(nodes, node).contains(other as usize) == neighbors(nodes, other).contains(
            node as usize,
        ),
        neighbors(nodes, node).contains(other as usize) == (node != other && nodes[node].related(
            nodes[other],
        )),
{
    lemma_neighbors_below(nodes, node, nodes.len() as int);
    lemma_neighbors_below(nodes, other, nodes.len() as int);
    assert(nodes[node].related(nodes[other]) == nodes[other].related(nodes[node]));
    if neighbors(nodes, node).contains(other as usize) {
        let k = choose|k: int|
            0 <= k < neighbors(nodes, node).len() && neighbors(nodes, node)[k] == other as usize;
        assert(neighbors(nodes, node)[k] != node);
    }
    if neighbors(nodes, other).contains(node as usize) {
        let k = choose|k: int|
            0 <= k < neighbors(nodes, other).len() && neighbors(nodes, other)[k] == node as usize;
        assert(neighbors(nodes, other)[k] != other);
    }
}

} // verus!
