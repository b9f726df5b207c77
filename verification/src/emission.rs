//! The order in which the nodes of the graph are emitted: the extension
//! root first, then by the place of the declaration, and where that does
//! not decide, in the order in which the descriptors were handed in.

use vstd::prelude::*;
use vstd::string::*;
use crate::{SqlGraphEntity, SqlGraphIdentifier};
use crate::error::RenderError;
use crate::pgx_sql::{PgxSql, is_duplicate};
use crate::text::{
    bytes_precede, lemma_bytes_order, lemma_same_bytes_same_text, str_eq, str_precedes,
};

verus! {

/// Whether a declaration at the first place is emitted before one at the
/// second: an unknown place comes before every known one, files are taken
/// in the order of their names, and lines within a file in rising order.
pub open spec fn origin_precedes(
    first: Option<(&'static str, u32)>,
    second: Option<(&'static str, u32)>,
) -> bool {
    match (first, second) {
        (None, Some(_)) => true,
        (Some((file, line)), Some((other_file, other_line))) => {
            ||| bytes_precede(file.spec_bytes(), other_file.spec_bytes())
            ||| file@ == other_file@ && line < other_line
        },
        _ => false,
    }
}

impl SqlGraphEntity {
    /// The place of the declaration, where both its file and its line are
    /// known.
    pub open spec fn origin(self) -> Option<(&'static str, u32)> {
        match (self.origin_file(), self.origin_line()) {
            (Some(file), Some(line)) => Some((file, line)),
            _ => None,
        }
    }

    /// Whether the entity is the root of the extension.
    pub open spec fn is_root(self) -> bool {
        self is ExtensionRoot
    }

    /// Whether this entity must be emitted before `other` whatever the
    /// order in which the two were handed in.
    pub open spec fn emits_before(self, other: SqlGraphEntity) -> bool {
        ||| self.is_root() && !other.is_root()
        ||| self.is_root() == other.is_root() && origin_precedes(self.origin(), other.origin())
    }

    /// Tells whether this entity must be emitted before `other`.
    pub fn precedes(&self, other: &SqlGraphEntity) -> (before: bool)
        ensures
            before == self.emits_before(*other),
    {
        let root = match self {
            SqlGraphEntity::ExtensionRoot(_) => true,
            _ => false,
        };
        let other_root = match other {
            SqlGraphEntity::ExtensionRoot(_) => true,
            _ => false,
        };
        if root != other_root {
            return root;
        }
        match (self.file(), self.line(), other.file(), other.line()) {
            (Some(file), Some(line), Some(other_file), Some(other_line)) => {
                str_precedes(file, other_file) || (str_eq(file, other_file) && line < other_line)
            },
            (Some(_), Some(_), _, _) => false,
            (_, _, Some(_), Some(_)) => true,
            _ => false,
        }
    }
}

/// Where the node `handle` goes into `placed`: behind the last node that
/// does not have to come after it.
pub open spec fn insert_position(nodes: Seq<SqlGraphEntity>, placed: Seq<usize>, handle: int) -> int
    decreases placed.len(),
{
    if placed.len() == 0 {
        0
    } else if nodes[handle].emits_before(nodes[placed.last() as int]) {
        insert_position(nodes, placed.drop_last(), handle)
    } else {
        placed.len() as int
    }
}

/// The emission order of the nodes below `bound`.
pub open spec fn emission_order_below(nodes: Seq<SqlGraphEntity>, bound: int) -> Seq<usize>
    decreases bound,
{
    if bound <= 0 {
        Seq::empty()
    } else {
        let placed = emission_order_below(nodes, bound - 1);
        placed.insert(insert_position(nodes, placed, bound - 1), (bound - 1) as usize)
    }
}

/// The emission order of the graph: each handle once.
pub open spec fn emission_order(nodes: Seq<SqlGraphEntity>) -> Seq<usize> {
    emission_order_below(nodes, nodes.len() as int)
}

/// The emission order below `bound` holds `bound` handles, each below
/// `bound`, and every handle below `bound` is among them.
pub proof fn lemma_emission_order_below(nodes: Seq<SqlGraphEntity>, bound: int)
    requires
        0 <= bound <= usize::MAX,
    ensures
        emission_order_below(nodes, bound).len() == bound,
        forall|k: int|
            0 <= k < bound ==> (#[trigger] emission_order_below(nodes, bound)[k]) < bound,
        forall|handle: usize|
            handle < bound ==> #[trigger] emission_order_below(nodes, bound).contains(handle),
    decreases bound,
{
    if bound > 0 {
        lemma_emission_order_below(nodes, bound - 1);
        let placed = emission_order_below(nodes, bound - 1);
        let at = insert_position(nodes, placed, bound - 1);
        lemma_insert_position(nodes, placed, bound - 1);
        let all = emission_order_below(nodes, bound);
        assert(all == placed.insert(at, (bound - 1) as usize));
        assert forall|handle: usize| handle < bound implies #[trigger] all.contains(handle) by {
            if handle < bound - 1 {
                assert(placed.contains(handle));
                let k = choose|k: int| 0 <= k < placed.len() && placed[k] == handle;
                if k < at {
                    assert(all[k] == handle);
                } else {
                    assert(all[k + 1] == handle);
                }
            } else {
                assert(all[at] == handle);
            }
        }
    }
}

/// The order of places is a strict weak order: two places never precede
/// each other, and where one place precedes another, every third place
/// follows the one or precedes the other.
pub proof fn lemma_origin_order(
    first: Option<(&'static str, u32)>,
    second: Option<(&'static str, u32)>,
    third: Option<(&'static str, u32)>,
)
    ensures
        origin_precedes(first, second) ==> !origin_precedes(second, first),
        origin_precedes(first, third) ==> origin_precedes(first, second) || origin_precedes(
            second,
            third,
        ),
{
    match (first, second, third) {
        (Some((a, _)), Some((b, _)), Some((c, _))) => {
            lemma_bytes_order(a.spec_bytes(), b.spec_bytes(), c.spec_bytes());
            lemma_bytes_order(b.spec_bytes(), a.spec_bytes(), c.spec_bytes());
            lemma_bytes_order(b.spec_bytes(), c.spec_bytes(), a.spec_bytes());
            lemma_bytes_order(a.spec_bytes(), c.spec_bytes(), b.spec_bytes());
            if a.spec_bytes() == b.spec_bytes() {
                lemma_same_bytes_same_text(a, b);
            }
            if b.spec_bytes() == c.spec_bytes() {
                lemma_same_bytes_same_text(b, c);
            }
        },
        (Some((a, _)), Some((b, _)), None) => {
            lemma_bytes_order(a.spec_bytes(), b.spec_bytes(), a.spec_bytes());
        },
        _ => {},
    }
}

/// What must come first is a strict weak order on entities.
pub proof fn lemma_emits_before_order(
    first: SqlGraphEntity,
    second: SqlGraphEntity,
    third: SqlGraphEntity,
)
    ensures
        first.emits_before(second) ==> !second.emits_before(first),
        first.emits_before(third) ==> first.emits_before(second) || second.emits_before(third),
{
    lemma_origin_order(first.origin(), second.origin(), third.origin());
}

/// Where a node goes into the order: every node behind the position has
/// to come after it, and the node just before the position has not.
pub proof fn lemma_insert_position(nodes: Seq<SqlGraphEntity>, placed: Seq<usize>, handle: int)
    ensures
        0 <= insert_position(nodes, placed, handle) <= placed.len(),
        forall|k: int|
            insert_position(nodes, placed, handle) <= k < placed.len() ==> nodes[handle].emits_before(
                nodes[(#[trigger] placed[k]) as int],
            ),
        insert_position(nodes, placed, handle) > 0 ==> !nodes[handle].emits_before(
            nodes[placed[insert_position(nodes, placed, handle) - 1] as int],
        ),
    decreases placed.len(),
{
    if placed.len() > 0 && nodes[handle].emits_before(nodes[placed.last() as int]) {
        lemma_insert_position(nodes, placed.drop_last(), handle);
        let at = insert_position(nodes, placed, handle);
        assert forall|k: int| at <= k < placed.len() implies nodes[handle].emits_before(
            nodes[(#[trigger] placed[k]) as int],
        ) by {
            if k < placed.len() - 1 {
                assert(placed.drop_last()[k] == placed[k]);
            }
        }
        if at > 0 {
            assert(placed.drop_last()[at - 1] == placed[at - 1]);
        }
    }
}

/// Whether `order` is sorted for emission over `nodes`: no node stands
/// before one that must come first, and of two nodes neither of which must
/// come first the one that was handed in earlier stands first.
pub open spec fn sorted_for_emission(nodes: Seq<SqlGraphEntity>, order: Seq<usize>) -> bool {
    forall|p: int, q: int|
        0 <= p < q < order.len() ==> {
            let early = #[trigger] order[p];
            let late = #[trigger] order[q];
            &&& !nodes[late as int].emits_before(nodes[early as int])
            &&& nodes[early as int].emits_before(nodes[late as int]) || early < late
        }
}

/// The emission order below `bound` is sorted for emission.
pub proof fn lemma_emission_order_below_sorted(nodes: Seq<SqlGraphEntity>, bound: int)
    requires
        0 <= bound <= usize::MAX,
    ensures
        sorted_for_emission(nodes, emission_order_below(nodes, bound)),
    decreases bound,
{
    if bound > 0 {
        lemma_emission_order_below_sorted(nodes, bound - 1);
        lemma_emission_order_below(nodes, bound - 1);
        let placed = emission_order_below(nodes, bound - 1);
        let handle = bound - 1;
        let at = insert_position(nodes, placed, handle);
        lemma_insert_position(nodes, placed, handle);
        let all = emission_order_below(nodes, bound);
        assert(all == placed.insert(at, handle as usize));
        assert forall|p: int, q: int| 0 <= p < q < all.len() implies ({
            let early = #[trigger] all[p];
            let late = #[trigger] all[q];
            &&& !nodes[late as int].emits_before(nodes[early as int])
            &&& nodes[early as int].emits_before(nodes[late as int]) || early < late
        }) by {
            let early = all[p];
            let late = all[q];
            if p == at {
                assert(late == placed[q - 1]);
                lemma_emits_before_order(nodes[handle], nodes[late as int], nodes[handle]);
            } else if q == at {
                assert(early == placed[p]);
                let last = placed[at - 1];
                if p < at - 1 {
                    assert(!nodes[last as int].emits_before(nodes[placed[p] as int]));
                }
                lemma_emits_before_order(nodes[handle], nodes[last as int], nodes[early as int]);
            } else {
                let before = if p < at {
                    p
                } else {
                    p - 1
                };
                let after = if q < at {
                    q
                } else {
                    q - 1
                };
                assert(early == placed[before]);
                assert(late == placed[after]);
            }
        }
    }
}

/// The emission order holds each handle of the graph once, and is sorted
/// for emission: by the place of the declaration, and among declarations
/// that the place does not tell apart, in the order in which they were
/// handed in.
pub proof fn lemma_emission_order(nodes: Seq<SqlGraphEntity>)
    requires
        nodes.len() <= usize::MAX,
    ensures
        emission_order(nodes).len() == nodes.len(),
        forall|k: int|
            0 <= k < nodes.len() ==> (#[trigger] emission_order(nodes)[k]) < nodes.len(),
        forall|handle: usize|
            handle < nodes.len() ==> #[trigger] emission_order(nodes).contains(handle),
        sorted_for_emission(nodes, emission_order(nodes)),
{
    lemma_emission_order_below(nodes, nodes.len() as int);
    lemma_emission_order_below_sorted(nodes, nodes.len() as int);
}

/// The root of the extension comes first: no node that is not the root
/// stands before the root in the emission order.
pub proof fn lemma_root_comes_first(nodes: Seq<SqlGraphEntity>, p: int, q: int)
    requires
        nodes.len() <= usize::MAX,
        0 <= p < q < nodes.len(),
        nodes[emission_order(nodes)[q] as int].is_root(),
    ensures
        nodes[emission_order(nodes)[p] as int].is_root(),
{
    lemma_emission_order(nodes);
    let order = emission_order(nodes);
    let early = order[p];
    let late = order[q];
    assert(!nodes[late as int].emits_before(nodes[early as int]));
}

/// Computes the emission order of `nodes`.
pub fn order_nodes(nodes: &Vec<SqlGraphEntity>) -> (order: Vec<usize>)
    ensures
        order@ == emission_order(nodes@),
{
    let mut order: Vec<usize> = Vec::new();
    let mut handle: usize = 0;
    while handle < nodes.len()
        invariant
            handle <= nodes@.len(),
            order@ == emission_order_below(nodes@, handle as int),
        decreases nodes@.len() - handle,
    {
        proof {
            lemma_emission_order_below(nodes@, handle as int);
        }
        let mut at: usize = order.len();
        proof {
            assert(order@.take(at as int) =~= order@);
        }
        while at > 0 && nodes[handle].precedes(&nodes[order[at - 1]])
            invariant
                handle < nodes@.len(),
                at <= order@.len(),
                order@.len() == handle,
                forall|k: int| 0 <= k < order@.len() ==> (#[trigger] order@[k]) < handle,
                insert_position(nodes@, order@, handle as int) == insert_position(
                    nodes@,
                    order@.take(at as int),
                    handle as int,
                ),
            decreases at,
        {
            proof {
                assert(order@.take(at as int).drop_last() =~= order@.take(at - 1));
            }
            at -= 1;
        }
        proof {
            if at > 0 {
                assert(order@.take(at as int).last() == order@[at - 1]);
            }
        }
        order.insert(at, handle);
        handle += 1;
    }
    order
}

/// The fragment of the node at `node`: nothing for a node that repeats an
/// earlier one and would render by the rule of its kind, else the fragment
/// of its entity.
pub open spec fn node_fragment(nodes: Seq<SqlGraphEntity>, node: int) -> Result<
    Seq<char>,
    RenderError,
> {
    if 0 <= node < nodes.len() {
        let entity = nodes[node];
        if entity.directive() is UseDefault && entity.naming_fault() is None && is_duplicate(
            nodes,
            node,
        ) {
            Ok(Seq::empty())
        } else {
            entity.fragment(nodes)
        }
    } else {
        Ok(Seq::empty())
    }
}

/// The script with one more fragment: an empty fragment leaves it as it
/// is, and a blank line parts the fragment from what stands before it.
pub open spec fn joined(script: Seq<char>, fragment: Seq<char>) -> Seq<char> {
    if fragment.len() == 0 {
        script
    } else if script.len() == 0 {
        fragment
    } else {
        script + "\n\n"@ + fragment
    }
}

/// The script of the first `count` nodes of `order`: the fragments that are
/// not empty, parted by blank lines; or the failure of the first node in
/// that order whose fragment fails.
pub open spec fn script_upto(nodes: Seq<SqlGraphEntity>, order: Seq<usize>, count: int) -> Result<
    Seq<char>,
    RenderError,
>
    decreases count,
{
    if count <= 0 {
        Ok(Seq::empty())
    } else {
        match script_upto(nodes, order, count - 1) {
            Err(fault) => Err(fault),
            Ok(script) => match node_fragment(nodes, order[count - 1] as int) {
                Err(fault) => Err(fault),
                Ok(fragment) => Ok(joined(script, fragment)),
            },
        }
    }
}

/// The script of the graph over `nodes`: the fragments of all nodes in
/// emission order, or the failure that ends the emission.
pub open spec fn script_text(nodes: Seq<SqlGraphEntity>) -> Result<Seq<char>, RenderError> {
    script_upto(nodes, emission_order(nodes), nodes.len() as int)
}

impl PgxSql {
    /// Renders the fragment of the node at `handle`: the override is asked
    /// first; without one the name is held to the database's limit, a node
    /// that repeats an earlier one is passed over, and only then the rule
    /// of the kind renders. A handle of no node gives nothing.
    pub fn render(&self, handle: usize) -> (rendered: Result<String, RenderError>)
        ensures
            match node_fragment(self.entities(), handle as int) {
                Ok(text) => rendered matches Ok(sql) && sql@ == text,
                Err(fault) => rendered == Err::<String, RenderError>(fault),
            },
    {
        match self.entity(handle) {
            None => Ok(String::new()),
            Some(entity) => {
                let plain = match entity.resolve_override() {
                    crate::to_sql::entity::SqlOverride::UseDefault => entity.check_naming().is_ok(),
                    _ => false,
                };
                if plain && self.repeats_earlier(handle) {
                    Ok(String::new())
                } else {
                    entity.to_sql(self)
                }
            },
        }
    }

    /// Renders the script: the fragment of each node in emission order,
    /// with a blank line between one statement and the next. A failure on
    /// any node ends the emission, and nothing of the script is handed out.
    pub fn to_sql(&self) -> (rendered: Result<String, RenderError>)
        ensures
            match script_text(self.entities()) {
                Ok(text) => rendered matches Ok(sql) && sql@ == text,
                Err(fault) => rendered == Err::<String, RenderError>(fault),
            },
    {
        let order = self.emission_order();
        let count = self.len();
        proof {
            lemma_emission_order_below(self.entities(), count as int);
        }
        let mut script = String::new();
        let mut at: usize = 0;
        while at < order.len()
            invariant
                at <= order@.len(),
                order@.len() == self.entities().len(),
                order@ == emission_order(self.entities()),
                forall|k: int| 0 <= k < order@.len() ==> (#[trigger] order@[k]) < order@.len(),
                script_upto(self.entities(), order@, at as int) == Ok::<Seq<char>, RenderError>(
                    script@,
                ),
            decreases order@.len() - at,
        {
            match self.render(order[at]) {
                Err(fault) => {
                    proof {
                        lemma_script_fails(self.entities(), order@, at as int + 1, order@.len() as int);
                    }
                    return Err(fault);
                },
                Ok(fragment) => {
                    if fragment.as_str().is_empty() {
                    } else if script.as_str().is_empty() {
                        script = fragment;
                    } else {
                        script.append("\n\n");
                        script.append(fragment.as_str());
                    }
                },
            }
            at += 1;
        }
        Ok(script)
    }
}

/// A failure stays: once the script of the first `count` nodes has failed,
/// that of any longer run of nodes fails in the same way.
pub proof fn lemma_script_fails(
    nodes: Seq<SqlGraphEntity>,
    order: Seq<usize>,
    count: int,
    longer: int,
)
    requires
        0 <= count <= longer,
        script_upto(nodes, order, count) is Err,
    ensures
        script_upto(nodes, order, longer) == script_upto(nodes, order, count),
    decreases longer - count,
{
    if count < longer {
        lemma_script_fails(nodes, order, count, longer - 1);
    }
}

} // verus!
