//! Hydration: reading the values of a record out of a model.
//!
//! A record is hydrated from one entity. A scalar field is read from
//! the field map of the entity and falls back to the zero value of its
//! type; a nested record is the first child entity of its name, or
//! absent; a collection holds the children of the child entities of
//! its singular name, in document order. Nested records and the
//! elements of collections are given as the ids of their entities, from
//! which they are hydrated in turn.
use crate::config_model::{ConfigModel, ConfigNode, ConfigValue, ModelView, NodeId, ValueView};
use crate::generator::shapes::{
    field_views, record_views, FieldKind, RecordField, RecordFieldView, RecordType, RecordView,
    ScalarType,
};
use crate::text::same_text;
use vstd::prelude::*;
use vstd::string::*;

verus! {

/// The value of a field of a hydrated record.
#[derive(Debug)]
pub enum FieldData {
    Integer(i64),
    /// A 64-bit floating-point number, as its IEEE 754 bit pattern.
    Float(u64),
    Boolean(bool),
    Text(String),
    /// The entity of a nested record, if there is one.
    Nested(Option<NodeId>),
    /// The entities of the elements of a collection, in document order.
    Collection(Vec<NodeId>),
}

/// What a [`FieldData`] holds.
pub enum DataView {
    Integer(i64),
    Float(u64),
    Boolean(bool),
    Text(Seq<char>),
    Nested(Option<NodeId>),
    Collection(Seq<NodeId>),
}

impl View for FieldData {
    type V = DataView;

    open spec fn view(&self) -> DataView {
        match *self {
            FieldData::Integer(i) => DataView::Integer(i),
            FieldData::Float(bits) => DataView::Float(bits),
            FieldData::Boolean(b) => DataView::Boolean(b),
            FieldData::Text(s) => DataView::Text(s@),
            FieldData::Nested(id) => DataView::Nested(id),
            FieldData::Collection(ids) => DataView::Collection(ids@),
        }
    }
}

/// A hydrated record: the name of its type, and its fields by name, in
/// the order of the type.
#[derive(Debug)]
pub struct Hydrated {
    pub record_type: String,
    pub fields: Vec<(String, FieldData)>,
}

/// What a [`Hydrated`] holds.
pub struct HydratedView {
    pub record_type: Seq<char>,
    pub fields: Seq<(Seq<char>, DataView)>,
}

/// The views of a list of named field values.
pub open spec fn data_views(fields: Seq<(String, FieldData)>) -> Seq<(Seq<char>, DataView)> {
    fields.map_values(|f: (String, FieldData)| (f.0@, f.1@))
}

impl View for Hydrated {
    type V = HydratedView;

    open spec fn view(&self) -> HydratedView {
        HydratedView { record_type: self.record_type@, fields: data_views(self.fields@) }
    }
}

/// The zero value of a scalar type.
pub open spec fn zero_of(scalar: ScalarType) -> DataView {
    match scalar {
        ScalarType::Integer => DataView::Integer(0),
        ScalarType::Float => DataView::Float(0),
        ScalarType::Boolean => DataView::Boolean(false),
        ScalarType::Text => DataView::Text(Seq::empty()),
    }
}

/// The scalar of type `scalar` that `value` gives: what it holds where
/// it is of that type, else the zero value of the type.
pub open spec fn scalar_of(value: Option<ValueView>, scalar: ScalarType) -> DataView {
    match (value, scalar) {
        (Some(ValueView::Integer(i)), ScalarType::Integer) => DataView::Integer(i),
        (Some(ValueView::Float { bits, text }), ScalarType::Float) => DataView::Float(bits),
        (Some(ValueView::Boolean(b)), ScalarType::Boolean) => DataView::Boolean(b),
        (Some(ValueView::Text(s)), ScalarType::Text) => DataView::Text(s),
        _ => zero_of(scalar),
    }
}

/// Those of `children`, from position `from` on, that are entities.
pub open spec fn entity_children(m: ModelView, children: Seq<NodeId>, from: nat) -> Seq<NodeId>
    decreases children.len() - from,
{
    if from >= children.len() {
        Seq::empty()
    } else if m.is_entity(children[from as int]) {
        seq![children[from as int]] + entity_children(m, children, from + 1)
    } else {
        entity_children(m, children, from + 1)
    }
}

/// The entity children of those of `groups`, from position `from` on,
/// that are entities named `singular`.
pub open spec fn grouped_elements(
    m: ModelView,
    groups: Seq<NodeId>,
    singular: Seq<char>,
    from: nat,
) -> Seq<NodeId>
    decreases groups.len() - from,
{
    if from >= groups.len() {
        Seq::empty()
    } else if m.is_entity_named(groups[from as int], singular) {
        entity_children(m, m.entity(groups[from as int]).children, 0) + grouped_elements(
            m,
            groups,
            singular,
            from + 1,
        )
    } else {
        grouped_elements(m, groups, singular, from + 1)
    }
}

/// The elements of the collection under `parent` whose entities are
/// named `singular`: the entity children of each child entity of that
/// name, in document order.
pub open spec fn elements_of(m: ModelView, parent: NodeId, singular: Seq<char>) -> Seq<NodeId> {
    if m.is_entity(parent) {
        grouped_elements(m, m.entity(parent).children, singular, 0)
    } else {
        Seq::empty()
    }
}

/// The value of the field `field` of a record hydrated from `id`.
pub open spec fn field_data(m: ModelView, id: NodeId, field: RecordFieldView) -> DataView {
    match field.kind {
        FieldKind::Scalar(scalar) => scalar_of(m.field_value(id, field.original_name), scalar),
        FieldKind::Nested => DataView::Nested(m.child_named(id, field.original_name)),
        FieldKind::Collection => DataView::Collection(elements_of(m, id, field.original_name)),
    }
}

/// The fields of the API description type.
pub open spec fn api_fields() -> Seq<RecordFieldView> {
    seq![
        RecordFieldView {
            name: "key"@,
            original_name: "key"@,
            rust_type: "String"@,
            kind: FieldKind::Scalar(ScalarType::Text),
        },
        RecordFieldView {
            name: "type_"@,
            original_name: "type"@,
            rust_type: "String"@,
            kind: FieldKind::Scalar(ScalarType::Text),
        },
    ]
}

/// The values of `fields` for a record hydrated from `id`, each under
/// the name of its field.
pub open spec fn fields_data(m: ModelView, id: NodeId, fields: Seq<RecordFieldView>) -> Seq<
    (Seq<char>, DataView),
> {
    fields.map_values(|f: RecordFieldView| (f.name, field_data(m, id, f)))
}

/// The record of type `record` hydrated from `id`. A collection is
/// hydrated from the parent of its plural entities and has its
/// elements as the one field `items`.
pub open spec fn hydrated(m: ModelView, record: RecordView, id: NodeId) -> HydratedView {
    match record {
        RecordView::Element { name, fields } => HydratedView {
            record_type: name,
            fields: fields_data(m, id, fields),
        },
        RecordView::Entity { name, fields } => HydratedView {
            record_type: name,
            fields: fields_data(m, id, fields),
        },
        RecordView::Api { name } => HydratedView {
            record_type: name,
            fields: fields_data(m, id, api_fields()),
        },
        RecordView::Collection { name, element, singular } => HydratedView {
            record_type: name,
            fields: seq![("items"@, DataView::Collection(elements_of(m, id, singular)))],
        },
    }
}

/// The scalar of type `scalar` under `name` in the field map of `id`.
pub fn hydrate_scalar(model: &ConfigModel, id: NodeId, name: &str, scalar: ScalarType) -> (r:
    FieldData)
    ensures
        r@ == scalar_of(model@.field_value(id, name@), scalar),
{
    let value = model.get_field_value(id, name);
    match (value, scalar) {
        (Some(ConfigValue::Integer(i)), ScalarType::Integer) => FieldData::Integer(i),
        (Some(ConfigValue::Float(f)), ScalarType::Float) => FieldData::Float(f.bits),
        (Some(ConfigValue::Boolean(b)), ScalarType::Boolean) => FieldData::Boolean(b),
        (Some(ConfigValue::String(s)), ScalarType::Text) => FieldData::Text(s),
        (_, ScalarType::Integer) => FieldData::Integer(0),
        (_, ScalarType::Float) => FieldData::Float(0),
        (_, ScalarType::Boolean) => FieldData::Boolean(false),
        (_, ScalarType::Text) => FieldData::Text(String::new()),
    }
}

/// The elements of the collection under `parent_id` whose entities are
/// named `singular`, in document order.
#[verifier::loop_isolation(false)]
pub fn collect_elements(model: &ConfigModel, parent_id: NodeId, singular: &str) -> (r: Vec<NodeId>)
    ensures
        r@ == elements_of(model@, parent_id, singular@),
{
    let mut out: Vec<NodeId> = Vec::new();
    match model.get_node(parent_id) {
        Some(ConfigNode::Entity(parent)) => {
            let mut g: usize = 0;
            while g < parent.children.len()
                invariant
                    g <= parent.children.len(),
                    grouped_elements(model@, parent@.children, singular@, 0) == out@
                        + grouped_elements(model@, parent@.children, singular@, g as nat),
                decreases parent.children.len() - g,
            {
                match model.get_node(parent.children[g]) {
                    Some(ConfigNode::Entity(group)) => {
                        if same_text(group.name.as_str(), singular) {
                            let ghost before = out@;
                            let mut k: usize = 0;
                            while k < group.children.len()
                                invariant
                                    k <= group.children.len(),
                                    before + entity_children(model@, group@.children, 0) == out@
                                        + entity_children(model@, group@.children, k as nat),
                                decreases group.children.len() - k,
                            {
                                let child_id = group.children[k];
                                match model.get_node(child_id) {
                                    Some(ConfigNode::Entity(_)) => {
                                        out.push(child_id);
                                    },
                                    _ => {},
                                }
                                k += 1;
                            }
                        }
                    },
                    _ => {},
                }
                g += 1;
            }
        },
        _ => {},
    }
    out
}

/// The value of `field` for a record hydrated from `id`. A nested
/// record without a child entity of its name is absent.
pub fn hydrate_field(model: &ConfigModel, id: NodeId, field: &RecordField) -> (r: FieldData)
    ensures
        r@ == field_data(model@, id, field@),
        field@.kind is Nested && model@.child_named(id, field@.original_name) is None ==> r@
            == DataView::Nested(None),
{
    match field.kind {
        FieldKind::Scalar(scalar) => hydrate_scalar(
            model,
            id,
            field.original_name.as_str(),
            scalar,
        ),
        FieldKind::Nested => FieldData::Nested(
            model.find_child_entity_by_name(id, field.original_name.as_str()),
        ),
        FieldKind::Collection => FieldData::Collection(
            collect_elements(model, id, field.original_name.as_str()),
        ),
    }
}

fn hydrate_fields(model: &ConfigModel, id: NodeId, fields: &Vec<RecordField>) -> (r: Vec<
    (String, FieldData),
>)
    ensures
        data_views(r@) == fields_data(model@, id, field_views(fields@)),
{
    let mut out: Vec<(String, FieldData)> = Vec::new();
    let mut i: usize = 0;
    while i < fields.len()
        invariant
            i <= fields.len(),
            out.len() == i,
            forall|k: int|
                0 <= k < i ==> (#[trigger] out@[k]).0@ == fields@[k]@.name && out@[k].1@
                    == field_data(model@, id, fields@[k]@),
        decreases fields.len() - i,
    {
        let value = hydrate_field(model, id, &fields[i]);
        out.push((fields[i].name.clone(), value));
        i += 1;
    }
    out
}

fn api_record_fields() -> (r: Vec<RecordField>)
    ensures
        field_views(r@) == api_fields(),
{
    let mut fields: Vec<RecordField> = Vec::new();
    fields.push(
        RecordField {
            name: "key".to_owned(),
            original_name: "key".to_owned(),
            rust_type: "String".to_owned(),
            kind: FieldKind::Scalar(ScalarType::Text),
        },
    );
    fields.push(
        RecordField {
            name: "type_".to_owned(),
            original_name: "type".to_owned(),
            rust_type: "String".to_owned(),
            kind: FieldKind::Scalar(ScalarType::Text),
        },
    );
    fields
}

/// The record of type `record` hydrated from the entity `id`.
/// Hydration never fails: what the model lacks is zero, absent or
/// empty in the record.
pub fn hydrate(model: &ConfigModel, record: &RecordType, id: NodeId) -> (r: Hydrated)
    ensures
        r@ == hydrated(model@, record@, id),
{
    match record {
        RecordType::Element { name, fields } => Hydrated {
            record_type: name.clone(),
            fields: hydrate_fields(model, id, fields),
        },
        RecordType::Entity { name, fields } => Hydrated {
            record_type: name.clone(),
            fields: hydrate_fields(model, id, fields),
        },
        RecordType::Api { name } => {
            let fields = api_record_fields();
            Hydrated { record_type: name.clone(), fields: hydrate_fields(model, id, &fields) }
        },
        RecordType::Collection { name, element, singular } => {
            let mut fields: Vec<(String, FieldData)> = Vec::new();
            fields.push(
                (
                    "items".to_owned(),
                    FieldData::Collection(collect_elements(model, id, singular.as_str())),
                ),
            );
            assert(data_views(fields@) =~= seq![
                ("items"@, DataView::Collection(elements_of(model@, id, singular@))),
            ]);
            Hydrated { record_type: name.clone(), fields }
        },
    }
}

/// The position of the first of `records` that is named `name`, or the
/// number of records if there is none.
pub open spec fn record_position(records: Seq<RecordView>, name: Seq<char>) -> int
    decreases records.len(),
{
    if records.len() == 0 {
        0
    } else if records[0].name() == name {
        0
    } else {
        1 + record_position(records.drop_first(), name)
    }
}

/// The position of the first of `records` that is named `name`.
#[verifier::loop_isolation(false)]
pub fn find_record(records: &Vec<RecordType>, name: &str) -> (r: Option<usize>)
    ensures
        match r {
            Some(i) => i < records.len() && i == record_position(record_views(records@), name@),
            None => record_position(record_views(records@), name@) == records.len(),
        },
{
    let ghost all = record_views(records@);
    let mut i: usize = 0;
    assert(all.skip(0) =~= all);
    while i < records.len()
        invariant
            i <= records.len(),
            record_position(all, name@) == i + record_position(all.skip(i as int), name@),
        decreases records.len() - i,
    {
        assert(all.skip(i as int).drop_first() =~= all.skip(i + 1));
        if same_text(records[i].name().as_str(), name) {
            return Some(i);
        }
        i += 1;
    }
    None
}

/// The record of the root, hydrated from the root of the model, where
/// `records` holds the type of the root.
pub fn hydrate_from_model(model: &ConfigModel, records: &Vec<RecordType>) -> (r: Option<Hydrated>)
    ensures
        ({
            let i = record_position(record_views(records@), "Root"@);
            match r {
                Some(h) => i < records.len() && h@ == hydrated(
                    model@,
                    record_views(records@)[i],
                    model@.root(),
                ),
                None => i == records.len(),
            }
        }),
{
    match find_record(records, "Root") {
        Some(i) => Some(hydrate(model, &records[i], model.root_id())),
        None => None,
    }
}

proof fn lemma_entity_children_all(m: ModelView, children: Seq<NodeId>, from: nat)
    requires
        from <= children.len(),
        forall|k: int| from <= k < children.len() ==> m.is_entity(#[trigger] children[k]),
    ensures
        entity_children(m, children, from) == children.skip(from as int),
    decreases children.len() - from,
{
    if from < children.len() {
        lemma_entity_children_all(m, children, from + 1);
    }
}

proof fn lemma_grouped_none(m: ModelView, groups: Seq<NodeId>, singular: Seq<char>, from: nat)
    requires
        forall|k: int|
            from <= k < groups.len() ==> !m.is_entity_named(#[trigger] groups[k], singular),
    ensures
        grouped_elements(m, groups, singular, from) == Seq::<NodeId>::empty(),
    decreases groups.len() - from,
{
    if from < groups.len() {
        lemma_grouped_none(m, groups, singular, from + 1);
    }
}

proof fn lemma_grouped_single(
    m: ModelView,
    groups: Seq<NodeId>,
    singular: Seq<char>,
    from: nat,
    position: int,
)
    requires
        from <= position < groups.len(),
        m.is_entity_named(groups[position], singular),
        forall|k: int|
            from <= k < groups.len() && k != position ==> !m.is_entity_named(
                #[trigger] groups[k],
                singular,
            ),
    ensures
        grouped_elements(m, groups, singular, from) == entity_children(
            m,
            m.entity(groups[position]).children,
            0,
        ),
    decreases position - from,
{
    if from == position {
        lemma_grouped_none(m, groups, singular, from + 1);
    } else {
        lemma_grouped_single(m, groups, singular, from + 1, position);
    }
}

/// A collection holds the children of its plural entity in document
/// order: where one child of `parent` is an entity named `singular`
/// and all of that entity's children are entities, the elements of the
/// collection are exactly those children, in their order.
pub proof fn lemma_collection_keeps_document_order(
    m: ModelView,
    parent: NodeId,
    singular: Seq<char>,
    position: int,
)
    requires
        m.is_entity(parent),
        0 <= position < m.entity(parent).children.len(),
        m.is_entity_named(m.entity(parent).children[position], singular),
        forall|k: int|
            0 <= k < m.entity(parent).children.len() && k != position ==> !m.is_entity_named(
                #[trigger] m.entity(parent).children[k],
                singular,
            ),
        forall|k: int|
            0 <= k < m.entity(m.entity(parent).children[position]).children.len() ==> m.is_entity(
                #[trigger] m.entity(m.entity(parent).children[position]).children[k],
            ),
    ensures
        elements_of(m, parent, singular) == m.entity(m.entity(parent).children[position]).children,
{
    let groups = m.entity(parent).children;
    let elements = m.entity(groups[position]).children;
    lemma_grouped_single(m, groups, singular, 0, position);
    lemma_entity_children_all(m, elements, 0);
}

/// A nested record is absent where the entity has no child entity of
/// its name, whatever else the model holds.
pub proof fn lemma_missing_nested_is_absent(m: ModelView, id: NodeId, field: RecordFieldView)
    requires
        field.kind is Nested,
        m.child_named(id, field.original_name) is None,
    ensures
        field_data(m, id, field) == DataView::Nested(None),
{
}

} // verus!
