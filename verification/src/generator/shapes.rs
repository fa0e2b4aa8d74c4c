//! The record types that a model gives rise to.
//!
//! A plural entity yields a collection type and, from its first child,
//! the type of the collection's elements. Every other entity that is
//! not itself an element of a collection yields a type of its own.
//! Types go by name: of entities that share a name, the first one met
//! gives the type its shape.
use crate::config_model::{
    ConfigModel, ConfigNode, ConfigValue, EntityNode, EntityView, ModelView, NodeId, ValueView,
};
use crate::generator::naming::{field_name, field_name_of, struct_name, type_name_of};
use crate::text::same_text;
use vstd::prelude::*;
use vstd::string::*;

verus! {

/// The type of a scalar field in a record.
#[derive(Debug, Clone, Copy, PartialEq, Eq, Structural)]
pub enum ScalarType {
    /// A 64-bit signed integer.
    Integer,
    /// A 64-bit floating-point number.
    Float,
    Boolean,
    Text,
}

/// The scalar type of a value.
pub open spec fn scalar_type_of(value: ValueView) -> ScalarType {
    match value {
        ValueView::Integer(_) => ScalarType::Integer,
        ValueView::Float { .. } => ScalarType::Float,
        ValueView::Boolean(_) => ScalarType::Boolean,
        ValueView::Text(_) => ScalarType::Text,
    }
}

impl ScalarType {
    /// How the type is written in generated code.
    pub open spec fn word(self) -> Seq<char> {
        match self {
            ScalarType::Integer => "i64"@,
            ScalarType::Float => "f64"@,
            ScalarType::Boolean => "bool"@,
            ScalarType::Text => "String"@,
        }
    }

    /// The scalar type of `value`.
    pub fn of(value: &ConfigValue) -> (r: ScalarType)
        ensures
            r == scalar_type_of(value@),
    {
        match value {
            ConfigValue::Integer(_) => ScalarType::Integer,
            ConfigValue::Float(_) => ScalarType::Float,
            ConfigValue::Boolean(_) => ScalarType::Boolean,
            ConfigValue::String(_) => ScalarType::Text,
        }
    }

    /// The type as it is written in generated code.
    pub fn rust_type(&self) -> (r: &'static str)
        ensures
            r@ == self.word(),
    {
        match self {
            ScalarType::Integer => "i64",
            ScalarType::Float => "f64",
            ScalarType::Boolean => "bool",
            ScalarType::Text => "String",
        }
    }
}

/// What a field of a record is.
#[derive(Debug, Clone, Copy, PartialEq, Eq, Structural)]
pub enum FieldKind {
    /// A scalar, read from the field map of the entity.
    Scalar(ScalarType),
    /// A record that may be absent, read from a child entity.
    Nested,
    /// A collection of records, read from the children of plural child
    /// entities.
    Collection,
}

/// A field of a record type.
#[derive(Debug)]
pub struct RecordField {
    /// The name of the field in generated code.
    pub name: String,
    /// The name under which the model holds what the field is read
    /// from: the name of a field, or the singular name of a child
    /// entity.
    pub original_name: String,
    /// The type of the field in generated code, for a nested record
    /// without the wrapper that makes it optional.
    pub rust_type: String,
    pub kind: FieldKind,
}

/// What a [`RecordField`] holds.
pub struct RecordFieldView {
    pub name: Seq<char>,
    pub original_name: Seq<char>,
    pub rust_type: Seq<char>,
    pub kind: FieldKind,
}

impl View for RecordField {
    type V = RecordFieldView;

    open spec fn view(&self) -> RecordFieldView {
        RecordFieldView {
            name: self.name@,
            original_name: self.original_name@,
            rust_type: self.rust_type@,
            kind: self.kind,
        }
    }
}

impl Clone for RecordField {
    fn clone(&self) -> (r: Self)
        ensures
            r@ == self@,
    {
        RecordField {
            name: self.name.clone(),
            original_name: self.original_name.clone(),
            rust_type: self.rust_type.clone(),
            kind: self.kind,
        }
    }
}

/// The views of a list of record fields.
pub open spec fn field_views(fields: Seq<RecordField>) -> Seq<RecordFieldView> {
    fields.map_values(|f: RecordField| f@)
}

/// A record type of generated code.
#[derive(Debug)]
pub enum RecordType {
    /// The type of the elements of a collection, shaped after the
    /// first child of a plural entity.
    Element { name: String, fields: Vec<RecordField> },
    /// The type of an entity that stands for itself.
    Entity { name: String, fields: Vec<RecordField> },
    /// The type of a collection of `element` records, one for each
    /// child of the child entities named `singular`.
    Collection { name: String, element: String, singular: String },
    /// The type of an API description, which has a fixed shape.
    Api { name: String },
}

/// What a [`RecordType`] holds.
pub enum RecordView {
    Element { name: Seq<char>, fields: Seq<RecordFieldView> },
    Entity { name: Seq<char>, fields: Seq<RecordFieldView> },
    Collection { name: Seq<char>, element: Seq<char>, singular: Seq<char> },
    Api { name: Seq<char> },
}

impl View for RecordType {
    type V = RecordView;

    open spec fn view(&self) -> RecordView {
        match *self {
            RecordType::Element { name, fields } => RecordView::Element {
                name: name@,
                fields: field_views(fields@),
            },
            RecordType::Entity { name, fields } => RecordView::Entity {
                name: name@,
                fields: field_views(fields@),
            },
            RecordType::Collection { name, element, singular } => RecordView::Collection {
                name: name@,
                element: element@,
                singular: singular@,
            },
            RecordType::Api { name } => RecordView::Api { name: name@ },
        }
    }
}

impl RecordView {
    /// The name of the type.
    pub open spec fn name(self) -> Seq<char> {
        match self {
            RecordView::Element { name, .. } => name,
            RecordView::Entity { name, .. } => name,
            RecordView::Collection { name, .. } => name,
            RecordView::Api { name } => name,
        }
    }
}

impl RecordType {
    /// The name of the type.
    pub fn name(&self) -> (r: &String)
        ensures
            r@ == self@.name(),
    {
        match self {
            RecordType::Element { name, .. } => name,
            RecordType::Entity { name, .. } => name,
            RecordType::Collection { name, .. } => name,
            RecordType::Api { name } => name,
        }
    }
}

/// The views of a list of record types.
pub open spec fn record_views(records: Seq<RecordType>) -> Seq<RecordView> {
    records.map_values(|r: RecordType| r@)
}

/// The name of the record type with the fixed shape.
pub open spec fn api_type_name() -> Seq<char> {
    "Api"@
}

/// The record field for the scalar field `name` that holds `value`.
pub open spec fn scalar_field(name: Seq<char>, value: ValueView) -> RecordFieldView {
    RecordFieldView {
        name: field_name_of(name),
        original_name: name,
        rust_type: scalar_type_of(value).word(),
        kind: FieldKind::Scalar(scalar_type_of(value)),
    }
}

/// The record field for a child entity: a collection under the plural
/// name where the child is plural, else a nested record under the
/// child's name.
pub open spec fn child_field(child: EntityView) -> RecordFieldView {
    match child.plural_name {
        Some(plural) => RecordFieldView {
            name: field_name_of(plural),
            original_name: child.name,
            rust_type: type_name_of(plural),
            kind: FieldKind::Collection,
        },
        None => RecordFieldView {
            name: field_name_of(child.name),
            original_name: child.name,
            rust_type: type_name_of(child.name),
            kind: FieldKind::Nested,
        },
    }
}

/// The record fields for the scalar fields of `fields` from position
/// `from` on.
pub open spec fn scalar_fields(fields: Seq<(Seq<char>, ValueView)>, from: nat) -> Seq<
    RecordFieldView,
>
    decreases fields.len() - from,
{
    if from >= fields.len() {
        Seq::empty()
    } else {
        seq![scalar_field(fields[from as int].0, fields[from as int].1)] + scalar_fields(
            fields,
            from + 1,
        )
    }
}

/// The record fields for those of `children`, from position `from` on,
/// that are entities.
pub open spec fn child_fields(m: ModelView, children: Seq<NodeId>, from: nat) -> Seq<
    RecordFieldView,
>
    decreases children.len() - from,
{
    if from >= children.len() {
        Seq::empty()
    } else if m.is_entity(children[from as int]) {
        seq![child_field(m.entity(children[from as int]))] + child_fields(m, children, from + 1)
    } else {
        child_fields(m, children, from + 1)
    }
}

/// The fields of the record type shaped after `entity`: its scalar
/// fields in the order of its field map, then its child entities in
/// document order.
pub open spec fn record_fields(m: ModelView, entity: EntityView) -> Seq<RecordFieldView> {
    scalar_fields(entity.fields, 0) + child_fields(m, entity.children, 0)
}

/// The fields of the record type shaped after `entity`.
#[verifier::loop_isolation(false)]
pub fn fields_of(model: &ConfigModel, entity: &EntityNode) -> (r: Vec<RecordField>)
    ensures
        field_views(r@) == record_fields(model@, entity@),
{
    let mut out: Vec<RecordField> = Vec::new();
    let count = entity.fields.len();
    let mut i: usize = 0;
    while i < count
        invariant
            i <= count,
            scalar_fields(entity@.fields, 0) == field_views(out@) + scalar_fields(
                entity@.fields,
                i as nat,
            ),
        decreases count - i,
    {
        let name = entity.fields.name_at(i);
        let scalar = ScalarType::of(entity.fields.value_at(i));
        out.push(
            RecordField {
                name: field_name(name.as_str()),
                original_name: name.clone(),
                rust_type: scalar.rust_type().to_owned(),
                kind: FieldKind::Scalar(scalar),
            },
        );
        i += 1;
    }
    let ghost scalars = field_views(out@);
    let mut k: usize = 0;
    while k < entity.children.len()
        invariant
            k <= entity.children.len(),
            scalars + child_fields(model@, entity@.children, 0) == field_views(out@)
                + child_fields(model@, entity@.children, k as nat),
        decreases entity.children.len() - k,
    {
        match model.get_node(entity.children[k]) {
            Some(ConfigNode::Entity(child)) => {
                let field = match &child.plural_name {
                    Some(plural) => RecordField {
                        name: field_name(plural.as_str()),
                        original_name: child.name.clone(),
                        rust_type: struct_name(plural.as_str()),
                        kind: FieldKind::Collection,
                    },
                    None => RecordField {
                        name: field_name(child.name.as_str()),
                        original_name: child.name.clone(),
                        rust_type: struct_name(child.name.as_str()),
                        kind: FieldKind::Nested,
                    },
                };
                out.push(field);
            },
            _ => {},
        }
        k += 1;
    }
    out
}

/// Whether `records` holds a type named `name`.
pub open spec fn has_record(records: Seq<RecordView>, name: Seq<char>) -> bool {
    exists|i: int| 0 <= i < records.len() && (#[trigger] records[i]).name() == name
}

/// Whether `records` holds a type named `name`.
#[verifier::loop_isolation(false)]
pub fn contains_record(records: &Vec<RecordType>, name: &str) -> (r: bool)
    ensures
        r == has_record(record_views(records@), name@),
{
    let mut i: usize = 0;
    while i < records.len()
        invariant
            i <= records.len(),
            forall|k: int| 0 <= k < i ==> (#[trigger] record_views(records@)[k]).name() != name@,
        decreases records.len() - i,
    {
        if same_text(records[i].name().as_str(), name) {
            assert(record_views(records@)[i as int].name() == name@);
            return true;
        }
        i += 1;
    }
    false
}

/// The name of the collection type for an entity: the type name of its
/// plural name, or else the type name of its name with an `s`.
pub open spec fn plural_type_name_of(entity: EntityView) -> Seq<char> {
    match entity.plural_name {
        Some(plural) => type_name_of(plural),
        None => type_name_of(entity.name) + "s"@,
    }
}

/// The name of the collection type for `ent`.
pub fn plural_struct_name(ent: &EntityNode) -> (r: String)
    ensures
        r@ == plural_type_name_of(ent@),
{
    match &ent.plural_name {
        Some(plural) => struct_name(plural.as_str()),
        None => {
            let mut name = struct_name(ent.name.as_str());
            name.append("s");
            name
        },
    }
}

} // verus!
