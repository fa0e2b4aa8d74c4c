//! Laws that join the derivation of record types and hydration: what
//! the record types of a model, which a generator run writes out, give
//! when they are hydrated from the model.
use crate::config_model::{
    distinct_names, lemma_field_position, lemma_field_position_is, ModelView, NodeId, ValueView,
};
use crate::generator::derive::{
    element_emitted, elements_below, elements_from, entity_emitted, plural_instances,
    record_types, records_below, records_from,
};
use crate::generator::naming::{field_name_of, type_name_of};
use crate::generator::shapes::{
    child_field, child_fields, has_record, record_fields, scalar_field, scalar_fields,
    RecordView,
};
use crate::hydration::{elements_of, field_data, hydrated, DataView};
use vstd::prelude::*;

verus! {

/// The scalar of a record that holds what a value of the model holds.
pub open spec fn data_of(value: ValueView) -> DataView {
    match value {
        ValueView::Integer(i) => DataView::Integer(i),
        ValueView::Float { bits, text } => DataView::Float(bits),
        ValueView::Boolean(b) => DataView::Boolean(b),
        ValueView::Text(s) => DataView::Text(s),
    }
}

/// Whether the walk from `id` meets `target` within `levels` levels.
pub open spec fn met(m: ModelView, id: NodeId, levels: nat, target: NodeId) -> bool
    decreases levels,
{
    m.is_entity(id) && (id == target || (levels > 0 && exists|k: int|
        #![trigger m.entity(id).children[k]]
        0 <= k < m.entity(id).children.len() && met(
            m,
            m.entity(id).children[k],
            (levels - 1) as nat,
            target,
        )))
}

/// Whether `later` holds the records of `out`, in their places, and
/// maybe more after them.
pub open spec fn grows(out: Seq<RecordView>, later: Seq<RecordView>) -> bool {
    out.len() <= later.len() && forall|i: int| 0 <= i < out.len() ==> #[trigger] later[i] == out[i]
}

/// Whether every record of `out` that is named `name` is `record`.
pub open spec fn settled(out: Seq<RecordView>, name: Seq<char>, record: RecordView) -> bool {
    forall|i: int| 0 <= i < out.len() && (#[trigger] out[i]).name() == name ==> out[i] == record
}

/// Whether `plural` is a plural entity whose first child is an entity.
pub open spec fn has_instances(m: ModelView, plural: NodeId) -> bool {
    &&& m.is_entity(plural)
    &&& m.entity(plural).plural_name is Some
    &&& m.entity(plural).children.len() > 0
    &&& m.is_entity(m.entity(plural).children[0])
}

/// The element type of the plural entity `plural`: named after the
/// entity and shaped after its first child.
pub open spec fn element_type(m: ModelView, plural: NodeId) -> RecordView {
    RecordView::Element {
        name: type_name_of(m.entity(plural).name),
        fields: record_fields(m, m.entity(m.entity(plural).children[0])),
    }
}

/// Whether no other entity of the model gives a type of the name of
/// the element type of `plural`: neither by its name nor by its plural
/// name.
pub open spec fn type_name_is_own(m: ModelView, plural: NodeId) -> bool {
    &&& forall|e: NodeId|
        m.is_entity(e) && e != plural ==> type_name_of(#[trigger] m.entity(e).name)
            != type_name_of(m.entity(plural).name)
    &&& forall|e: NodeId|
        m.is_entity(e) && (#[trigger] m.entity(e)).plural_name is Some ==> type_name_of(
            m.entity(e).plural_name->0,
        ) != type_name_of(m.entity(plural).name)
}

proof fn lemma_scalar_fields(
    fields: Seq<(Seq<char>, ValueView)>,
    from: nat,
    k: int,
)
    requires
        from <= k < fields.len(),
    ensures
        scalar_fields(fields, from).len() == fields.len() - from,
        scalar_fields(fields, from)[k - from] == scalar_field(fields[k].0, fields[k].1),
    decreases fields.len() - from,
{
    lemma_scalar_fields_len(fields, from + 1);
    if from < k {
        lemma_scalar_fields(fields, from + 1, k);
    }
}

proof fn lemma_scalar_fields_len(fields: Seq<(Seq<char>, ValueView)>, from: nat)
    ensures
        scalar_fields(fields, from).len() == if from <= fields.len() {
            fields.len() - from
        } else {
            0
        },
    decreases fields.len() - from,
{
    if from < fields.len() {
        lemma_scalar_fields_len(fields, from + 1);
    }
}

/// A record shaped after an entity and hydrated from that entity holds,
/// for each field of the entity, the value of the field under the
/// field's name in generated code.
pub proof fn lemma_own_shape_holds_own_values(m: ModelView, id: NodeId, name: Seq<char>, k: int)
    requires
        m.is_entity(id),
        distinct_names(m.entity(id).fields),
        0 <= k < m.entity(id).fields.len(),
    ensures
        ({
            let e = m.entity(id);
            let record = RecordView::Element { name, fields: record_fields(m, e) };
            &&& k < record_fields(m, e).len()
            &&& record_fields(m, e)[k] == scalar_field(e.fields[k].0, e.fields[k].1)
            &&& hydrated(m, record, id).record_type == name
            &&& hydrated(m, record, id).fields[k] == (
                field_name_of(e.fields[k].0),
                data_of(e.fields[k].1),
            )
        }),
{
    let e = m.entity(id);
    lemma_scalar_fields(e.fields, 0, k);
    assert forall|j: int| 0 <= j < k implies (#[trigger] e.fields[j]).0 != e.fields[k].0 by {}
    lemma_field_position_is(e.fields, e.fields[k].0, k);
    lemma_field_position(e.fields, e.fields[k].0);
    let field = record_fields(m, e)[k];
    assert(field_data(m, id, field) == data_of(e.fields[k].1));
}

proof fn lemma_elements_from(
    m: ModelView,
    id: NodeId,
    levels: nat,
    out: Seq<RecordView>,
    plural: NodeId,
)
    requires
        has_instances(m, plural),
        type_name_is_own(m, plural),
        settled(out, type_name_of(m.entity(plural).name), element_type(m, plural)),
    ensures
        grows(out, elements_from(m, id, levels, out)),
        settled(
            elements_from(m, id, levels, out),
            type_name_of(m.entity(plural).name),
            element_type(m, plural),
        ),
        met(m, id, levels, plural) ==> has_record(
            elements_from(m, id, levels, out),
            type_name_of(m.entity(plural).name),
        ),
    decreases levels, 0nat,
{
    let wanted = type_name_of(m.entity(plural).name);
    if m.is_entity(id) {
        let own = element_emitted(m, id, out);
        if own != out {
            assert(own == out.push(own.last()));
            assert(id != plural ==> type_name_of(m.entity(id).name) != wanted);
        }
        assert(grows(out, own));
        assert(settled(own, wanted, element_type(m, plural)));
        if id == plural {
            if own == out {
                assert(has_record(out, wanted));
            } else {
                assert(own[own.len() - 1].name() == wanted);
            }
            assert(has_record(own, wanted));
        }
        if levels > 0 {
            lemma_elements_below(m, m.entity(id).children, 0, (levels - 1) as nat, own, plural);
            let after = elements_below(m, m.entity(id).children, 0, (levels - 1) as nat, own);
            if has_record(own, wanted) {
                lemma_grown_has(own, after, wanted);
            }
        }
    }
}

proof fn lemma_grown_has(out: Seq<RecordView>, later: Seq<RecordView>, name: Seq<char>)
    requires
        grows(out, later),
        has_record(out, name),
    ensures
        has_record(later, name),
{
    let i = choose|i: int| 0 <= i < out.len() && (#[trigger] out[i]).name() == name;
    assert(later[i] == out[i]);
}

proof fn lemma_grows_on(a: Seq<RecordView>, b: Seq<RecordView>, c: Seq<RecordView>)
    requires
        grows(a, b),
        grows(b, c),
    ensures
        grows(a, c),
{
    assert forall|i: int| 0 <= i < a.len() implies #[trigger] c[i] == a[i] by {
        assert(b[i] == a[i]);
        assert(c[i] == b[i]);
    }
}

proof fn lemma_elements_below(
    m: ModelView,
    children: Seq<NodeId>,
    from: nat,
    levels: nat,
    out: Seq<RecordView>,
    plural: NodeId,
)
    requires
        has_instances(m, plural),
        type_name_is_own(m, plural),
        settled(out, type_name_of(m.entity(plural).name), element_type(m, plural)),
    ensures
        grows(out, elements_below(m, children, from, levels, out)),
        settled(
            elements_below(m, children, from, levels, out),
            type_name_of(m.entity(plural).name),
            element_type(m, plural),
        ),
        (exists|k: int| from <= k < children.len() && met(m, #[trigger] children[k], levels, plural))
            ==> has_record(
            elements_below(m, children, from, levels, out),
            type_name_of(m.entity(plural).name),
        ),
    decreases levels, children.len() - from + 1,
{
    let wanted = type_name_of(m.entity(plural).name);
    if from < children.len() {
        let next = elements_from(m, children[from as int], levels, out);
        lemma_elements_from(m, children[from as int], levels, out, plural);
        lemma_elements_below(m, children, from + 1, levels, next, plural);
        let after = elements_below(m, children, from + 1, levels, next);
        lemma_grows_on(out, next, after);
        if exists|k: int| from <= k < children.len() && met(m, #[trigger] children[k], levels, plural) {
            let k = choose|k: int|
                from <= k < children.len() && met(m, #[trigger] children[k], levels, plural);
            if k == from {
                lemma_grown_has(next, after, wanted);
            } else {
                assert(from + 1 <= k < children.len() && met(m, children[k], levels, plural));
            }
        }
    }
}

proof fn lemma_records_from(
    m: ModelView,
    instances: Set<NodeId>,
    id: NodeId,
    levels: nat,
    out: Seq<RecordView>,
    plural: NodeId,
)
    requires
        has_instances(m, plural),
        type_name_is_own(m, plural),
        settled(out, type_name_of(m.entity(plural).name), element_type(m, plural)),
    ensures
        grows(out, records_from(m, instances, id, levels, out)),
        settled(
            records_from(m, instances, id, levels, out),
            type_name_of(m.entity(plural).name),
            element_type(m, plural),
        ),
    decreases levels, 0nat,
{
    let wanted = type_name_of(m.entity(plural).name);
    let own = if instances.contains(id) {
        out
    } else {
        entity_emitted(m, id, out)
    };
    if own != out {
        assert(own == out.push(own.last()));
        assert(own.last().name() != wanted);
    }
    assert(grows(out, own));
    assert(settled(own, wanted, element_type(m, plural)));
    if m.is_entity(id) && levels > 0 {
        lemma_records_below(
            m,
            instances,
            m.entity(id).children,
            0,
            (levels - 1) as nat,
            own,
            plural,
        );
        lemma_grows_on(
            out,
            own,
            records_below(m, instances, m.entity(id).children, 0, (levels - 1) as nat, own),
        );
    }
}

proof fn lemma_records_below(
    m: ModelView,
    instances: Set<NodeId>,
    children: Seq<NodeId>,
    from: nat,
    levels: nat,
    out: Seq<RecordView>,
    plural: NodeId,
)
    requires
        has_instances(m, plural),
        type_name_is_own(m, plural),
        settled(out, type_name_of(m.entity(plural).name), element_type(m, plural)),
    ensures
        grows(out, records_below(m, instances, children, from, levels, out)),
        settled(
            records_below(m, instances, children, from, levels, out),
            type_name_of(m.entity(plural).name),
            element_type(m, plural),
        ),
    decreases levels, children.len() - from + 1,
{
    if from < children.len() {
        let next = records_from(m, instances, children[from as int], levels, out);
        lemma_records_from(m, instances, children[from as int], levels, out, plural);
        lemma_records_below(m, instances, children, from + 1, levels, next, plural);
        lemma_grows_on(out, next, records_below(m, instances, children, from + 1, levels, next));
    }
}

/// The element type that a model gives for a plural entity, hydrated
/// from the first child of that entity, holds the values of the
/// child's fields.
///
/// The record types of a model, which a generator run writes out, hold
/// the element type of every plural entity that the walk from the root
/// meets and whose first child is an entity. Where no other entity
/// gives a type of the same name, the type is shaped after that first
/// child, and hydrated from the child it holds, under the name of each
/// field, the value that the child holds for the field.
pub proof fn lemma_element_type_holds_first_child(m: ModelView, plural: NodeId, k: int)
    requires
        met(m, m.root(), m.nodes.len(), plural),
        has_instances(m, plural),
        type_name_is_own(m, plural),
        distinct_names(m.entity(m.entity(plural).children[0]).fields),
        0 <= k < m.entity(m.entity(plural).children[0]).fields.len(),
    ensures
        ({
            let first = m.entity(plural).children[0];
            let name = type_name_of(m.entity(plural).name);
            let record = element_type(m, plural);
            &&& has_record(record_types(m), name)
            &&& settled(record_types(m), name, record)
            &&& hydrated(m, record, first).record_type == name
            &&& hydrated(m, record, first).fields[k] == (
                field_name_of(m.entity(first).fields[k].0),
                data_of(m.entity(first).fields[k].1),
            )
        }),
{
    let first = m.entity(plural).children[0];
    let name = type_name_of(m.entity(plural).name);
    let levels = m.nodes.len();
    let elements = elements_from(m, m.root(), levels, Seq::empty());
    lemma_elements_from(m, m.root(), levels, Seq::empty(), plural);
    lemma_records_from(m, plural_instances(m), m.root(), levels, elements, plural);
    lemma_grown_has(elements, record_types(m), name);
    lemma_own_shape_holds_own_values(m, first, name, k);
}

proof fn lemma_child_fields_hold(m: ModelView, children: Seq<NodeId>, from: nat, j: int)
    requires
        from <= j < children.len(),
        m.is_entity(children[j]),
    ensures
        exists|i: int|
            0 <= i < child_fields(m, children, from).len() && #[trigger] child_fields(
                m,
                children,
                from,
            )[i] == child_field(m.entity(children[j])),
    decreases children.len() - from,
{
    let all = child_fields(m, children, from);
    if from == j {
        assert(all[0] == child_field(m.entity(children[j])));
    } else {
        lemma_child_fields_hold(m, children, from + 1, j);
        let rest = child_fields(m, children, from + 1);
        let i = choose|i: int|
            0 <= i < rest.len() && #[trigger] rest[i] == child_field(m.entity(children[j]));
        if m.is_entity(children[from as int]) {
            assert(all[i + 1] == rest[i]);
        } else {
            assert(all[i] == rest[i]);
        }
    }
}

/// A record shaped after an entity and hydrated from that entity has,
/// for each plural child entity, a collection field that holds the
/// elements of the collection under the entity: the entity children of
/// its child entities of that singular name, in document order.
pub proof fn lemma_own_shape_holds_collections(m: ModelView, id: NodeId, j: int)
    requires
        m.is_entity(id),
        0 <= j < m.entity(id).children.len(),
        m.is_entity(m.entity(id).children[j]),
        m.entity(m.entity(id).children[j]).plural_name is Some,
    ensures
        ({
            let child = m.entity(m.entity(id).children[j]);
            exists|i: int|
                0 <= i < record_fields(m, m.entity(id)).len() && #[trigger] record_fields(
                    m,
                    m.entity(id),
                )[i] == child_field(child) && field_data(m, id, record_fields(m, m.entity(id))[i])
                    == DataView::Collection(elements_of(m, id, child.name))
        }),
{
    let e = m.entity(id);
    let child = m.entity(e.children[j]);
    lemma_child_fields_hold(m, e.children, 0, j);
    lemma_scalar_fields_len(e.fields, 0);
    let nested = child_fields(m, e.children, 0);
    let i = choose|i: int| 0 <= i < nested.len() && #[trigger] nested[i] == child_field(child);
    let all = record_fields(m, e);
    assert(all[e.fields.len() + i] == nested[i]);
}

} // verus!
