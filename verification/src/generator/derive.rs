//! The walk over a model that derives its record types.
//!
//! The walks go from the root through the children, as many levels deep
//! as the model has nodes, which is every level of a tree.
use crate::config_model::{ConfigModel, ConfigNode, ModelView, NodeId};
use crate::generator::naming::{struct_name, type_name_of};
use crate::generator::shapes::{
    api_type_name, contains_record, field_views, fields_of, has_record, record_fields,
    record_views, RecordField, RecordFieldView, RecordType, RecordView,
};
use crate::text::same_text;
use std::collections::{HashMap, HashSet};
use vstd::prelude::*;
use vstd::string::*;

verus! {

/// `marks` with each of `children` from position `from` on.
pub open spec fn marked(marks: Set<NodeId>, children: Seq<NodeId>, from: nat) -> Set<NodeId>
    decreases children.len() - from,
{
    if from >= children.len() {
        marks
    } else {
        marked(marks.insert(children[from as int]), children, from + 1)
    }
}

/// `marks` with each child of each plural entity that the walk from
/// `id` meets within `levels` levels.
pub open spec fn instances_from(m: ModelView, id: NodeId, levels: nat, marks: Set<NodeId>) -> Set<
    NodeId,
>
    decreases levels, 0nat,
{
    if !m.is_entity(id) {
        marks
    } else {
        let e = m.entity(id);
        let own = if e.plural_name is Some {
            marked(marks, e.children, 0)
        } else {
            marks
        };
        if levels == 0 {
            own
        } else {
            instances_below(m, e.children, 0, (levels - 1) as nat, own)
        }
    }
}

/// [`instances_from`] for each of `children` from position `from` on,
/// in order.
pub open spec fn instances_below(
    m: ModelView,
    children: Seq<NodeId>,
    from: nat,
    levels: nat,
    marks: Set<NodeId>,
) -> Set<NodeId>
    decreases levels, children.len() - from + 1,
{
    if from >= children.len() {
        marks
    } else {
        instances_below(
            m,
            children,
            from + 1,
            levels,
            instances_from(m, children[from as int], levels, marks),
        )
    }
}

/// The ids of the instances of plural entities: the children of the
/// plural entities that the walk from the root meets.
pub open spec fn plural_instances(m: ModelView) -> Set<NodeId> {
    instances_from(m, m.root(), m.nodes.len(), Set::empty())
}

/// `out` with the element type `name` with `fields`, unless `out` has
/// a type named `name`.
pub open spec fn with_element(
    out: Seq<RecordView>,
    name: Seq<char>,
    fields: Seq<RecordFieldView>,
) -> Seq<RecordView> {
    if has_record(out, name) {
        out
    } else {
        out.push(RecordView::Element { name, fields })
    }
}

/// `out` with the collection type `name` of `element` records, unless
/// `out` has a type named `name`.
pub open spec fn with_collection(
    out: Seq<RecordView>,
    name: Seq<char>,
    element: Seq<char>,
    singular: Seq<char>,
) -> Seq<RecordView> {
    if has_record(out, name) {
        out
    } else {
        out.push(RecordView::Collection { name, element, singular })
    }
}

/// `out` with the type `name` of an entity that stands for itself,
/// unless `out` has a type named `name`: the type with the fixed shape
/// where the name is `Api`, else the type with `fields`.
pub open spec fn with_entity(
    out: Seq<RecordView>,
    name: Seq<char>,
    fields: Seq<RecordFieldView>,
) -> Seq<RecordView> {
    if has_record(out, name) {
        out
    } else if name == api_type_name() {
        out.push(RecordView::Api { name })
    } else {
        out.push(RecordView::Entity { name, fields })
    }
}

/// Adds the element type `name` with `fields` to `out`, unless `out`
/// has a type of that name.
pub fn push_element_type(out: &mut Vec<RecordType>, name: String, fields: Vec<RecordField>)
    ensures
        record_views(final(out)@) == with_element(
            record_views(old(out)@),
            name@,
            field_views(fields@),
        ),
{
    if !contains_record(out, name.as_str()) {
        out.push(RecordType::Element { name, fields });
    }
}

/// Adds the collection type `name` of `element` records to `out`,
/// unless `out` has a type of that name.
pub fn push_collection_type(
    out: &mut Vec<RecordType>,
    name: String,
    element: String,
    singular: String,
)
    ensures
        record_views(final(out)@) == with_collection(
            record_views(old(out)@),
            name@,
            element@,
            singular@,
        ),
{
    if !contains_record(out, name.as_str()) {
        out.push(RecordType::Collection { name, element, singular });
    }
}

/// Adds the type `name` of an entity that stands for itself to `out`,
/// unless `out` has a type of that name.
pub fn push_entity_type(out: &mut Vec<RecordType>, name: String, fields: Vec<RecordField>)
    ensures
        record_views(final(out)@) == with_entity(
            record_views(old(out)@),
            name@,
            field_views(fields@),
        ),
{
    if !contains_record(out, name.as_str()) {
        if same_text(name.as_str(), "Api") {
            out.push(RecordType::Api { name });
        } else {
            out.push(RecordType::Entity { name, fields });
        }
    }
}

/// `out` with the element type of the plural entity `id`, shaped after
/// its first child, where `id` is a plural entity whose first child is
/// an entity and `out` has no type of that name yet.
pub open spec fn element_emitted(m: ModelView, id: NodeId, out: Seq<RecordView>) -> Seq<
    RecordView,
> {
    let e = m.entity(id);
    if m.is_entity(id) && e.plural_name is Some && e.children.len() > 0 && m.is_entity(
        e.children[0],
    ) {
        with_element(out, type_name_of(e.name), record_fields(m, m.entity(e.children[0])))
    } else {
        out
    }
}

/// `out` with the element types of the plural entities that the walk
/// from `id` meets within `levels` levels, a parent before its
/// children.
pub open spec fn elements_from(m: ModelView, id: NodeId, levels: nat, out: Seq<RecordView>) -> Seq<
    RecordView,
>
    decreases levels, 0nat,
{
    if !m.is_entity(id) {
        out
    } else {
        let own = element_emitted(m, id, out);
        if levels == 0 {
            own
        } else {
            elements_below(m, m.entity(id).children, 0, (levels - 1) as nat, own)
        }
    }
}

/// [`elements_from`] for each of `children` from position `from` on,
/// in order.
pub open spec fn elements_below(
    m: ModelView,
    children: Seq<NodeId>,
    from: nat,
    levels: nat,
    out: Seq<RecordView>,
) -> Seq<RecordView>
    decreases levels, children.len() - from + 1,
{
    if from >= children.len() {
        out
    } else {
        elements_below(
            m,
            children,
            from + 1,
            levels,
            elements_from(m, children[from as int], levels, out),
        )
    }
}

/// `out` with the type of the entity `id` where `out` has no type of
/// that name yet: the collection type of a plural entity, named after
/// the plural, else the type named after the entity, which has the
/// fixed shape where that name is `Api`.
pub open spec fn entity_emitted(m: ModelView, id: NodeId, out: Seq<RecordView>) -> Seq<RecordView> {
    if !m.is_entity(id) {
        out
    } else {
        let e = m.entity(id);
        match e.plural_name {
            Some(p) => with_collection(out, type_name_of(p), type_name_of(e.name), e.name),
            None => with_entity(out, type_name_of(e.name), record_fields(m, e)),
        }
    }
}

/// `out` with the types of the entities that the walk from `id` meets
/// within `levels` levels and that are not marked in `instances`, a
/// parent before its children.
pub open spec fn records_from(
    m: ModelView,
    instances: Set<NodeId>,
    id: NodeId,
    levels: nat,
    out: Seq<RecordView>,
) -> Seq<RecordView>
    decreases levels, 0nat,
{
    let own = if instances.contains(id) {
        out
    } else {
        entity_emitted(m, id, out)
    };
    if m.is_entity(id) && levels > 0 {
        records_below(m, instances, m.entity(id).children, 0, (levels - 1) as nat, own)
    } else {
        own
    }
}

/// [`records_from`] for each of `children` from position `from` on, in
/// order.
pub open spec fn records_below(
    m: ModelView,
    instances: Set<NodeId>,
    children: Seq<NodeId>,
    from: nat,
    levels: nat,
    out: Seq<RecordView>,
) -> Seq<RecordView>
    decreases levels, children.len() - from + 1,
{
    if from >= children.len() {
        out
    } else {
        records_below(
            m,
            instances,
            children,
            from + 1,
            levels,
            records_from(m, instances, children[from as int], levels, out),
        )
    }
}

/// The record types of a model, in the order in which generated code
/// declares them: the element types of the plural entities, then the
/// types of the entities that are not instances of a plural entity.
pub open spec fn record_types(m: ModelView) -> Seq<RecordView> {
    records_from(
        m,
        plural_instances(m),
        m.root(),
        m.nodes.len(),
        elements_from(m, m.root(), m.nodes.len(), Seq::empty()),
    )
}

/// Marks the children of each plural entity that the walk from
/// `node_id` meets within `levels` levels.
#[verifier::loop_isolation(false)]
pub fn identify_plural_instances(
    model: &ConfigModel,
    node_id: NodeId,
    levels: usize,
    instances: &mut HashSet<NodeId>,
)
    ensures
        final(instances)@ == instances_from(model@, node_id, levels as nat, old(instances)@),
    decreases levels,
{
    match model.get_node(node_id) {
        Some(ConfigNode::Entity(ent)) => {
            if ent.plural_name.is_some() {
                let mut i: usize = 0;
                while i < ent.children.len()
                    invariant
                        i <= ent.children.len(),
                        marked(old(instances)@, ent@.children, 0) == marked(
                            instances@,
                            ent@.children,
                            i as nat,
                        ),
                    decreases ent.children.len() - i,
                {
                    instances.insert(ent.children[i]);
                    i += 1;
                }
            }
            if levels > 0 {
                let ghost own = instances@;
                let mut k: usize = 0;
                while k < ent.children.len()
                    invariant
                        k <= ent.children.len(),
                        instances_below(model@, ent@.children, 0, (levels - 1) as nat, own)
                            == instances_below(
                            model@,
                            ent@.children,
                            k as nat,
                            (levels - 1) as nat,
                            instances@,
                        ),
                    decreases ent.children.len() - k,
                {
                    identify_plural_instances(model, ent.children[k], levels - 1, instances);
                    k += 1;
                }
            }
        },
        _ => {},
    }
}

/// Adds to `out` the element type named `struct_name`, shaped after
/// the entity `node_id`. A node that is no entity adds nothing.
pub fn emit_singular_struct(
    model: &ConfigModel,
    node_id: NodeId,
    struct_name: String,
    out: &mut Vec<RecordType>,
)
    ensures
        record_views(final(out)@) == if model@.is_entity(node_id) {
            record_views(old(out)@).push(
                RecordView::Element {
                    name: struct_name@,
                    fields: record_fields(model@, model@.entity(node_id)),
                },
            )
        } else {
            record_views(old(out)@)
        },
{
    match model.get_node(node_id) {
        Some(ConfigNode::Entity(ent)) => {
            let fields = fields_of(model, ent);
            out.push(RecordType::Element { name: struct_name, fields });
        },
        _ => {},
    }
}

/// Adds to `out` the element types of the plural entities that the walk
/// from `node_id` meets within `levels` levels.
#[verifier::loop_isolation(false)]
pub fn identify_and_emit_singular_entities(
    model: &ConfigModel,
    node_id: NodeId,
    levels: usize,
    out: &mut Vec<RecordType>,
)
    ensures
        record_views(final(out)@) == elements_from(
            model@,
            node_id,
            levels as nat,
            record_views(old(out)@),
        ),
    decreases levels,
{
    match model.get_node(node_id) {
        Some(ConfigNode::Entity(ent)) => {
            if ent.plural_name.is_some() && ent.children.len() > 0 {
                let first_child_id = ent.children[0];
                let first_is_entity = match model.get_node(first_child_id) {
                    Some(ConfigNode::Entity(_)) => true,
                    _ => false,
                };
                if first_is_entity {
                    let singular_struct_name = struct_name(ent.name.as_str());
                    if !contains_record(out, singular_struct_name.as_str()) {
                        emit_singular_struct(model, first_child_id, singular_struct_name, out);
                    }
                }
            }
            if levels > 0 {
                let ghost own = record_views(out@);
                let mut k: usize = 0;
                while k < ent.children.len()
                    invariant
                        k <= ent.children.len(),
                        elements_below(model@, ent@.children, 0, (levels - 1) as nat, own)
                            == elements_below(
                            model@,
                            ent@.children,
                            k as nat,
                            (levels - 1) as nat,
                            record_views(out@),
                        ),
                    decreases ent.children.len() - k,
                {
                    identify_and_emit_singular_entities(model, ent.children[k], levels - 1, out);
                    k += 1;
                }
            }
        },
        _ => {},
    }
}

/// Adds to `out` the type of the entity `node_id`, unless `out` has a
/// type of that name.
pub fn emit_entity(model: &ConfigModel, node_id: NodeId, out: &mut Vec<RecordType>)
    ensures
        record_views(final(out)@) == entity_emitted(model@, node_id, record_views(old(out)@)),
{
    match model.get_node(node_id) {
        Some(ConfigNode::Entity(ent)) => {
            match &ent.plural_name {
                Some(plural_name) => {
                    let collection_struct_name = struct_name(plural_name.as_str());
                    let singular_struct_name = struct_name(ent.name.as_str());
                    push_collection_type(
                        out,
                        collection_struct_name,
                        singular_struct_name,
                        ent.name.clone(),
                    );
                },
                None => {
                    let name = struct_name(ent.name.as_str());
                    if contains_record(out, name.as_str()) {
                        return ;
                    }
                    let fields = fields_of(model, ent);
                    push_entity_type(out, name, fields);
                },
            }
        },
        _ => {},
    }
}

/// Adds to `out` the types of the entities that the walk from
/// `node_id` meets within `levels` levels and that `instances` does
/// not mark.
#[verifier::loop_isolation(false)]
pub fn emit_all_entities(
    model: &ConfigModel,
    instances: &HashSet<NodeId>,
    node_id: NodeId,
    levels: usize,
    out: &mut Vec<RecordType>,
)
    ensures
        record_views(final(out)@) == records_from(
            model@,
            instances@,
            node_id,
            levels as nat,
            record_views(old(out)@),
        ),
    decreases levels,
{
    if !instances.contains(&node_id) {
        emit_entity(model, node_id, out);
    }
    if levels > 0 {
        match model.get_node(node_id) {
            Some(ConfigNode::Entity(ent)) => {
                let ghost own = record_views(out@);
                let mut k: usize = 0;
                while k < ent.children.len()
                    invariant
                        k <= ent.children.len(),
                        records_below(
                            model@,
                            instances@,
                            ent@.children,
                            0,
                            (levels - 1) as nat,
                            own,
                        ) == records_below(
                            model@,
                            instances@,
                            ent@.children,
                            k as nat,
                            (levels - 1) as nat,
                            record_views(out@),
                        ),
                    decreases ent.children.len() - k,
                {
                    emit_all_entities(model, instances, ent.children[k], levels - 1, out);
                    k += 1;
                }
            },
            _ => {},
        }
    }
}

/// The record types of `model`, in the order in which generated code
/// declares them.
pub fn derive_record_types(model: &ConfigModel) -> (r: Vec<RecordType>)
    ensures
        record_views(r@) == record_types(model@),
{
    let levels = model.node_count();
    let mut instances: HashSet<NodeId> = HashSet::new();
    identify_plural_instances(model, model.root_id(), levels, &mut instances);
    let mut out: Vec<RecordType> = Vec::new();
    assert(record_views(out@) =~= Seq::<RecordView>::empty());
    identify_and_emit_singular_entities(model, model.root_id(), levels, &mut out);
    emit_all_entities(model, &instances, model.root_id(), levels, &mut out);
    out
}

/// `names` with the struct name of each entity that the walk from `id`
/// meets within `levels` levels, under the id of the entity.
pub open spec fn names_from(
    m: ModelView,
    id: NodeId,
    levels: nat,
    names: Map<NodeId, Seq<char>>,
) -> Map<NodeId, Seq<char>>
    decreases levels, 0nat,
{
    if !m.is_entity(id) {
        names
    } else {
        let own = names.insert(id, type_name_of(m.entity(id).name));
        if levels == 0 {
            own
        } else {
            names_below(m, m.entity(id).children, 0, (levels - 1) as nat, own)
        }
    }
}

/// [`names_from`] for each of `children` from position `from` on, in
/// order.
pub open spec fn names_below(
    m: ModelView,
    children: Seq<NodeId>,
    from: nat,
    levels: nat,
    names: Map<NodeId, Seq<char>>,
) -> Map<NodeId, Seq<char>>
    decreases levels, children.len() - from + 1,
{
    if from >= children.len() {
        names
    } else {
        names_below(
            m,
            children,
            from + 1,
            levels,
            names_from(m, children[from as int], levels, names),
        )
    }
}

/// The views of the names in a map from ids to names.
pub open spec fn named_ids(names: Map<NodeId, String>) -> Map<NodeId, Seq<char>> {
    Map::new(|id: NodeId| names.dom().contains(id), |id: NodeId| names[id]@)
}

/// Adds to `map` the struct name of each entity that the walk from
/// `node_id` meets within `levels` levels, under the id of the entity.
#[verifier::loop_isolation(false)]
pub fn collect_struct_names(
    model: &ConfigModel,
    node_id: NodeId,
    levels: usize,
    map: &mut HashMap<NodeId, String>,
)
    ensures
        named_ids(final(map)@) == names_from(model@, node_id, levels as nat, named_ids(old(map)@)),
    decreases levels,
{
    match model.get_node(node_id) {
        Some(ConfigNode::Entity(ent)) => {
            let ghost before = named_ids(map@);
            map.insert(node_id, struct_name(ent.name.as_str()));
            assert(named_ids(map@) =~= before.insert(node_id, type_name_of(ent@.name)));
            if levels > 0 {
                let ghost own = named_ids(map@);
                let mut k: usize = 0;
                while k < ent.children.len()
                    invariant
                        k <= ent.children.len(),
                        names_below(model@, ent@.children, 0, (levels - 1) as nat, own)
                            == names_below(
                            model@,
                            ent@.children,
                            k as nat,
                            (levels - 1) as nat,
                            named_ids(map@),
                        ),
                    decreases ent.children.len() - k,
                {
                    collect_struct_names(model, ent.children[k], levels - 1, map);
                    k += 1;
                }
            }
        },
        _ => {},
    }
}

/// Whether no two of `records` have the same name.
pub open spec fn distinct_records(records: Seq<RecordView>) -> bool {
    forall|i: int, j: int|
        0 <= i < j < records.len() ==> (#[trigger] records[i]).name() != (
        #[trigger] records[j]).name()
}

proof fn lemma_push_distinct(out: Seq<RecordView>, record: RecordView)
    requires
        distinct_records(out),
        !has_record(out, record.name()),
    ensures
        distinct_records(out.push(record)),
{
    let after = out.push(record);
}

proof fn lemma_elements_distinct(m: ModelView, id: NodeId, levels: nat, out: Seq<RecordView>)
    requires
        distinct_records(out),
    ensures
        distinct_records(elements_from(m, id, levels, out)),
    decreases levels, 0nat,
{
    if m.is_entity(id) {
        let own = element_emitted(m, id, out);
        if own != out {
            lemma_push_distinct(
                out,
                RecordView::Element {
                    name: type_name_of(m.entity(id).name),
                    fields: record_fields(m, m.entity(m.entity(id).children[0])),
                },
            );
        }
        if levels > 0 {
            lemma_elements_below_distinct(m, m.entity(id).children, 0, (levels - 1) as nat, own);
        }
    }
}

proof fn lemma_elements_below_distinct(
    m: ModelView,
    children: Seq<NodeId>,
    from: nat,
    levels: nat,
    out: Seq<RecordView>,
)
    requires
        distinct_records(out),
    ensures
        distinct_records(elements_below(m, children, from, levels, out)),
    decreases levels, children.len() - from + 1,
{
    if from < children.len() {
        lemma_elements_distinct(m, children[from as int], levels, out);
        lemma_elements_below_distinct(
            m,
            children,
            from + 1,
            levels,
            elements_from(m, children[from as int], levels, out),
        );
    }
}

proof fn lemma_entity_emitted_distinct(m: ModelView, id: NodeId, out: Seq<RecordView>)
    requires
        distinct_records(out),
    ensures
        distinct_records(entity_emitted(m, id, out)),
{
    if m.is_entity(id) {
        let e = m.entity(id);
        match e.plural_name {
            Some(p) => {
                if !has_record(out, type_name_of(p)) {
                    lemma_push_distinct(
                        out,
                        RecordView::Collection {
                            name: type_name_of(p),
                            element: type_name_of(e.name),
                            singular: e.name,
                        },
                    );
                }
            },
            None => {
                let name = type_name_of(e.name);
                if !has_record(out, name) {
                    if name == api_type_name() {
                        lemma_push_distinct(out, RecordView::Api { name });
                    } else {
                        lemma_push_distinct(
                            out,
                            RecordView::Entity { name, fields: record_fields(m, e) },
                        );
                    }
                }
            },
        }
    }
}

proof fn lemma_records_distinct(
    m: ModelView,
    instances: Set<NodeId>,
    id: NodeId,
    levels: nat,
    out: Seq<RecordView>,
)
    requires
        distinct_records(out),
    ensures
        distinct_records(records_from(m, instances, id, levels, out)),
    decreases levels, 0nat,
{
    let own = if instances.contains(id) {
        out
    } else {
        entity_emitted(m, id, out)
    };
    lemma_entity_emitted_distinct(m, id, out);
    if m.is_entity(id) && levels > 0 {
        lemma_records_below_distinct(
            m,
            instances,
            m.entity(id).children,
            0,
            (levels - 1) as nat,
            own,
        );
    }
}

proof fn lemma_records_below_distinct(
    m: ModelView,
    instances: Set<NodeId>,
    children: Seq<NodeId>,
    from: nat,
    levels: nat,
    out: Seq<RecordView>,
)
    requires
        distinct_records(out),
    ensures
        distinct_records(records_below(m, instances, children, from, levels, out)),
    decreases levels, children.len() - from + 1,
{
    if from < children.len() {
        lemma_records_distinct(m, instances, children[from as int], levels, out);
        lemma_records_below_distinct(
            m,
            instances,
            children,
            from + 1,
            levels,
            records_from(m, instances, children[from as int], levels, out),
        );
    }
}

/// A model has one record type of each name: entities that share a
/// name, wherever they stand in the tree, share a type.
pub proof fn lemma_one_record_type_per_name(m: ModelView)
    ensures
        distinct_records(record_types(m)),
{
    let elements = elements_from(m, m.root(), m.nodes.len(), Seq::empty());
    lemma_elements_distinct(m, m.root(), m.nodes.len(), Seq::empty());
    lemma_records_distinct(m, plural_instances(m), m.root(), m.nodes.len(), elements);
}

} // verus!
