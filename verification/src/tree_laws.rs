//! Laws of the walks over an ordered model.
//!
//! The printed forms of a model and the derivation of its record types
//! walk the tree as many levels deep as the model has nodes. In an
//! ordered model, where every child has a greater id than its parent,
//! no walk reaches that bound: a deeper bound gives the same result.
use crate::config_model::{ModelView, NodeId};
use crate::generator::derive::{
    elements_below, elements_from, instances_below, instances_from, plural_instances,
    record_types, records_below, records_from,
};
use crate::generator::shapes::RecordView;
use crate::model_render::{
    nested_children, nested_node, nested_text, tree_children, tree_node, tree_text,
};
use vstd::prelude::*;

verus! {

/// Whether `levels` levels are enough for a walk from `id`: as many as
/// there are ids from `id` on.
pub open spec fn enough(m: ModelView, id: NodeId, levels: nat) -> bool {
    id < m.nodes.len() ==> levels >= m.nodes.len() - id
}

/// The room that a walk from `id` has in the model.
pub open spec fn room(m: ModelView, id: NodeId) -> nat {
    if id < m.nodes.len() {
        (m.nodes.len() - id) as nat
    } else {
        0
    }
}

/// The number of children of `id`, if it is an entity.
pub open spec fn fan(m: ModelView, id: NodeId) -> nat {
    if m.is_entity(id) {
        m.entity(id).children.len()
    } else {
        0
    }
}

/// The nested form of a node of an ordered model is the same under
/// every bound that is enough.
pub proof fn lemma_nested_node_levels(m: ModelView, id: NodeId, depth: nat, a: nat, b: nat)
    requires
        m.ordered(),
        enough(m, id, a),
        enough(m, id, b),
    ensures
        nested_node(m, id, depth, a) == nested_node(m, id, depth, b),
    decreases room(m, id), fan(m, id) + 1,
{
    if m.is_entity(id) {
        let e = m.entity(id);
        lemma_nested_children_levels(
            m,
            id,
            e.children.len(),
            depth + 1,
            (a - 1) as nat,
            (b - 1) as nat,
        );
    }
}

proof fn lemma_nested_children_levels(
    m: ModelView,
    parent: NodeId,
    count: nat,
    depth: nat,
    a: nat,
    b: nat,
)
    requires
        m.ordered(),
        m.is_entity(parent),
        count <= m.entity(parent).children.len(),
        a + 1 >= m.nodes.len() - parent,
        b + 1 >= m.nodes.len() - parent,
    ensures
        nested_children(m, m.entity(parent).children, count, depth, a) == nested_children(
            m,
            m.entity(parent).children,
            count,
            depth,
            b,
        ),
    decreases room(m, parent), count,
{
    if count > 0 {
        let child = m.entity(parent).children[count - 1];
        lemma_nested_children_levels(m, parent, (count - 1) as nat, depth, a, b);
        lemma_nested_node_levels(m, child, depth, a, b);
    }
}

/// The tree form of a node of an ordered model is the same under every
/// bound that is enough.
pub proof fn lemma_tree_node_levels(
    m: ModelView,
    id: NodeId,
    prefix: Seq<char>,
    is_last: bool,
    a: nat,
    b: nat,
)
    requires
        m.ordered(),
        enough(m, id, a),
        enough(m, id, b),
    ensures
        tree_node(m, id, prefix, is_last, a) == tree_node(m, id, prefix, is_last, b),
    decreases room(m, id), fan(m, id) + 1,
{
    if m.is_entity(id) {
        let e = m.entity(id);
        lemma_tree_children_levels(
            m,
            id,
            e.children.len(),
            prefix + crate::model_render::continuation(is_last),
            (a - 1) as nat,
            (b - 1) as nat,
        );
    }
}

proof fn lemma_tree_children_levels(
    m: ModelView,
    parent: NodeId,
    count: nat,
    prefix: Seq<char>,
    a: nat,
    b: nat,
)
    requires
        m.ordered(),
        m.is_entity(parent),
        count <= m.entity(parent).children.len(),
        a + 1 >= m.nodes.len() - parent,
        b + 1 >= m.nodes.len() - parent,
    ensures
        tree_children(m, m.entity(parent).children, count, prefix, a) == tree_children(
            m,
            m.entity(parent).children,
            count,
            prefix,
            b,
        ),
    decreases room(m, parent), count,
{
    if count > 0 {
        let children = m.entity(parent).children;
        let child = children[count - 1];
        lemma_tree_children_levels(m, parent, (count - 1) as nat, prefix, a, b);
        lemma_tree_node_levels(m, child, prefix, count == children.len(), a, b);
    }
}

/// The printed forms of an ordered model are those of the whole tree:
/// a deeper walk prints the same.
pub proof fn lemma_printed_forms_are_whole(m: ModelView, deeper: nat)
    requires
        m.ordered(),
        deeper >= m.nodes.len(),
    ensures
        nested_text(m) == nested_node(m, m.root(), 0, deeper) + ".\n"@,
        tree_text(m) == tree_node(m, m.root(), Seq::<char>::empty(), false, deeper),
{
    lemma_nested_node_levels(m, m.root(), 0, m.nodes.len(), deeper);
    lemma_tree_node_levels(m, m.root(), Seq::<char>::empty(), false, m.nodes.len(), deeper);
}

proof fn lemma_instances_levels(m: ModelView, id: NodeId, a: nat, b: nat, marks: Set<NodeId>)
    requires
        m.ordered(),
        enough(m, id, a),
        enough(m, id, b),
    ensures
        instances_from(m, id, a, marks) == instances_from(m, id, b, marks),
    decreases room(m, id), fan(m, id) + 1,
{
    if m.is_entity(id) {
        let e = m.entity(id);
        let own = if e.plural_name is Some {
            crate::generator::derive::marked(marks, e.children, 0)
        } else {
            marks
        };
        lemma_instances_below_levels(m, id, 0, (a - 1) as nat, (b - 1) as nat, own);
    }
}

proof fn lemma_instances_below_levels(
    m: ModelView,
    parent: NodeId,
    from: nat,
    a: nat,
    b: nat,
    marks: Set<NodeId>,
)
    requires
        m.ordered(),
        m.is_entity(parent),
        a + 1 >= m.nodes.len() - parent,
        b + 1 >= m.nodes.len() - parent,
    ensures
        instances_below(m, m.entity(parent).children, from, a, marks) == instances_below(
            m,
            m.entity(parent).children,
            from,
            b,
            marks,
        ),
    decreases room(m, parent), m.entity(parent).children.len() - from,
{
    let children = m.entity(parent).children;
    if from < children.len() {
        let child = children[from as int];
        lemma_instances_levels(m, child, a, b, marks);
        lemma_instances_below_levels(
            m,
            parent,
            from + 1,
            a,
            b,
            instances_from(m, child, a, marks),
        );
    }
}

proof fn lemma_elements_levels(m: ModelView, id: NodeId, a: nat, b: nat, out: Seq<RecordView>)
    requires
        m.ordered(),
        enough(m, id, a),
        enough(m, id, b),
    ensures
        elements_from(m, id, a, out) == elements_from(m, id, b, out),
    decreases room(m, id), fan(m, id) + 1,
{
    if m.is_entity(id) {
        lemma_elements_below_levels(
            m,
            id,
            0,
            (a - 1) as nat,
            (b - 1) as nat,
            crate::generator::derive::element_emitted(m, id, out),
        );
    }
}

proof fn lemma_elements_below_levels(
    m: ModelView,
    parent: NodeId,
    from: nat,
    a: nat,
    b: nat,
    out: Seq<RecordView>,
)
    requires
        m.ordered(),
        m.is_entity(parent),
        a + 1 >= m.nodes.len() - parent,
        b + 1 >= m.nodes.len() - parent,
    ensures
        elements_below(m, m.entity(parent).children, from, a, out) == elements_below(
            m,
            m.entity(parent).children,
            from,
            b,
            out,
        ),
    decreases room(m, parent), m.entity(parent).children.len() - from,
{
    let children = m.entity(parent).children;
    if from < children.len() {
        let child = children[from as int];
        lemma_elements_levels(m, child, a, b, out);
        lemma_elements_below_levels(m, parent, from + 1, a, b, elements_from(m, child, a, out));
    }
}

proof fn lemma_records_levels(
    m: ModelView,
    instances: Set<NodeId>,
    id: NodeId,
    a: nat,
    b: nat,
    out: Seq<RecordView>,
)
    requires
        m.ordered(),
        enough(m, id, a),
        enough(m, id, b),
    ensures
        records_from(m, instances, id, a, out) == records_from(m, instances, id, b, out),
    decreases room(m, id), fan(m, id) + 1,
{
    if m.is_entity(id) {
        let own = if instances.contains(id) {
            out
        } else {
            crate::generator::derive::entity_emitted(m, id, out)
        };
        lemma_records_below_levels(m, instances, id, 0, (a - 1) as nat, (b - 1) as nat, own);
    }
}

proof fn lemma_records_below_levels(
    m: ModelView,
    instances: Set<NodeId>,
    parent: NodeId,
    from: nat,
    a: nat,
    b: nat,
    out: Seq<RecordView>,
)
    requires
        m.ordered(),
        m.is_entity(parent),
        a + 1 >= m.nodes.len() - parent,
        b + 1 >= m.nodes.len() - parent,
    ensures
        records_below(m, instances, m.entity(parent).children, from, a, out) == records_below(
            m,
            instances,
            m.entity(parent).children,
            from,
            b,
            out,
        ),
    decreases room(m, parent), m.entity(parent).children.len() - from,
{
    let children = m.entity(parent).children;
    if from < children.len() {
        let child = children[from as int];
        lemma_records_levels(m, instances, child, a, b, out);
        lemma_records_below_levels(
            m,
            instances,
            parent,
            from + 1,
            a,
            b,
            records_from(m, instances, child, a, out),
        );
    }
}

/// The record types of an ordered model are those of the whole tree:
/// deeper walks derive the same.
pub proof fn lemma_record_types_are_whole(m: ModelView, deeper: nat)
    requires
        m.ordered(),
        deeper >= m.nodes.len(),
    ensures
        plural_instances(m) == instances_from(m, m.root(), deeper, Set::empty()),
        record_types(m) == records_from(
            m,
            plural_instances(m),
            m.root(),
            deeper,
            elements_from(m, m.root(), deeper, Seq::empty()),
        ),
{
    let n = m.nodes.len();
    lemma_instances_levels(m, m.root(), n, deeper, Set::empty());
    lemma_elements_levels(m, m.root(), n, deeper, Seq::empty());
    lemma_records_levels(
        m,
        plural_instances(m),
        m.root(),
        n,
        deeper,
        elements_from(m, m.root(), n, Seq::empty()),
    );
}

} // verus!
