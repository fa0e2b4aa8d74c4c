//! The source text of the record type of an entity that stands for
//! itself: the declaration, the accessors, and the hydration from a
//! model.
use crate::generator::shapes::{
    field_views, FieldKind, RecordField, RecordFieldView, ScalarType,
};
use crate::text::same_text;
use vstd::prelude::*;
use vstd::string::*;

verus! {

/// The lines that `line` makes of the first `count` of `fields`.
pub open spec fn lines_of(
    fields: Seq<RecordFieldView>,
    count: nat,
    line: spec_fn(RecordFieldView) -> Seq<char>,
) -> Seq<char>
    decreases count,
{
    if count == 0 {
        Seq::<char>::empty()
    } else {
        lines_of(fields, (count - 1) as nat, line) + line(fields[count - 1])
    }
}

/// The declaration of a field in a record.
pub open spec fn declaration_line(f: RecordFieldView) -> Seq<char> {
    match f.kind {
        FieldKind::Nested => "    pub "@ + f.name + ": Option<"@ + f.rust_type + ">,\n"@,
        _ => "    pub "@ + f.name + ": "@ + f.rust_type + ",\n"@,
    }
}

/// The accessor of a field: a nested record is lent where it is
/// present, a scalar is copied, a collection is lent.
pub open spec fn accessor_text(f: RecordFieldView) -> Seq<char> {
    match f.kind {
        FieldKind::Nested => "    pub fn "@ + f.name + "(&self) -> Option<&"@ + f.rust_type
            + "> {\n        self."@ + f.name + ".as_ref()\n    }\n\n"@,
        FieldKind::Scalar(_) => "    pub fn "@ + f.name + "(&self) -> "@ + f.rust_type
            + " {\n        self."@ + f.name + ".clone()\n    }\n\n"@,
        FieldKind::Collection => "    pub fn "@ + f.name + "(&self) -> &"@ + f.rust_type
            + " {\n        &self."@ + f.name + "\n    }\n\n"@,
    }
}

/// How a scalar of type `scalar` is taken out of the value found
/// under a field name, with the value that stands in where the field is
/// absent or of another type.
pub open spec fn scalar_arms(scalar: ScalarType) -> Seq<char> {
    match scalar {
        ScalarType::Integer =>
            "Some(colap::config_model::ConfigValue::Integer(val)) => val, _ => 0 },\n"@,
        ScalarType::Float =>
            "Some(colap::config_model::ConfigValue::Float(val)) => f64::from_bits(val.bits), _ => 0.0 },\n"@,
        ScalarType::Boolean =>
            "Some(colap::config_model::ConfigValue::Boolean(val)) => val, _ => false },\n"@,
        ScalarType::Text =>
            "Some(colap::config_model::ConfigValue::String(val)) => val, _ => String::new() },\n"@,
    }
}

/// The line that hydrates a field: a nested record from the first child
/// entity of the original name, a collection from the children, a
/// scalar from the field map.
pub open spec fn initializer_line(f: RecordFieldView) -> Seq<char> {
    match f.kind {
        FieldKind::Nested => "            "@ + f.name + ": model.find_child_entity_by_name(id, \""@
            + f.original_name + "\").map(|child_id| "@ + f.rust_type
            + "::from_entity(model, child_id)),\n"@,
        FieldKind::Collection => "            "@ + f.name + ": "@ + f.rust_type
            + "::from_children(model, id),\n"@,
        FieldKind::Scalar(scalar) => "            "@ + f.name
            + ": match model.get_field_value(id, \""@ + f.original_name + "\") { "@ + scalar_arms(
            scalar,
        ),
    }
}

/// The name of the record type of the root.
pub open spec fn root_type_name() -> Seq<char> {
    "Root"@
}

/// What the record type of the root has besides: the hydration of the
/// whole model.
pub open spec fn root_entry_text() -> Seq<char> {
    "impl Root {\n    pub fn from_model(model: &colap::config_model::ConfigModel) -> Self {\n        Self::from_entity(model, model.root_id())\n    }\n}\n\n"@
}

/// The source text of the record type `name` with `fields`.
pub open spec fn entity_text(name: Seq<char>, fields: Seq<RecordFieldView>) -> Seq<char> {
    "#[derive(Debug, Clone, Default)]\npub struct "@ + name + " {\n"@ + lines_of(
        fields,
        fields.len(),
        |f: RecordFieldView| declaration_line(f),
    ) + "}\n\nimpl "@ + name + " {\n"@ + lines_of(
        fields,
        fields.len(),
        |f: RecordFieldView| accessor_text(f),
    ) + "}\n\nimpl "@ + name
        + " {\n    pub fn from_entity(model: &colap::config_model::ConfigModel, id: usize) -> Self {\n        Self {\n"@
        + lines_of(fields, fields.len(), |f: RecordFieldView| initializer_line(f))
        + "        }\n    }\n}\n\n"@ + if name == root_type_name() {
        root_entry_text()
    } else {
        Seq::<char>::empty()
    }
}

fn push_declaration_line(out: &mut String, f: &RecordField)
    ensures
        final(out)@ == old(out)@ + declaration_line(f@),
{
    out.append("    pub ");
    out.append(f.name.as_str());
    match f.kind {
        FieldKind::Nested => {
            out.append(": Option<");
            out.append(f.rust_type.as_str());
            out.append(">,\n");
        },
        _ => {
            out.append(": ");
            out.append(f.rust_type.as_str());
            out.append(",\n");
        },
    }
}

fn push_accessor_text(out: &mut String, f: &RecordField)
    ensures
        final(out)@ == old(out)@ + accessor_text(f@),
{
    out.append("    pub fn ");
    out.append(f.name.as_str());
    match f.kind {
        FieldKind::Nested => {
            out.append("(&self) -> Option<&");
            out.append(f.rust_type.as_str());
            out.append("> {\n        self.");
            out.append(f.name.as_str());
            out.append(".as_ref()\n    }\n\n");
        },
        FieldKind::Scalar(_) => {
            out.append("(&self) -> ");
            out.append(f.rust_type.as_str());
            out.append(" {\n        self.");
            out.append(f.name.as_str());
            out.append(".clone()\n    }\n\n");
        },
        FieldKind::Collection => {
            out.append("(&self) -> &");
            out.append(f.rust_type.as_str());
            out.append(" {\n        &self.");
            out.append(f.name.as_str());
            out.append("\n    }\n\n");
        },
    }
}

fn push_initializer_line(out: &mut String, f: &RecordField)
    ensures
        final(out)@ == old(out)@ + initializer_line(f@),
{
    out.append("            ");
    out.append(f.name.as_str());
    match f.kind {
        FieldKind::Nested => {
            out.append(": model.find_child_entity_by_name(id, \"");
            out.append(f.original_name.as_str());
            out.append("\").map(|child_id| ");
            out.append(f.rust_type.as_str());
            out.append("::from_entity(model, child_id)),\n");
        },
        FieldKind::Collection => {
            out.append(": ");
            out.append(f.rust_type.as_str());
            out.append("::from_children(model, id),\n");
        },
        FieldKind::Scalar(scalar) => {
            out.append(": match model.get_field_value(id, \"");
            out.append(f.original_name.as_str());
            out.append("\") { ");
            match scalar {
                ScalarType::Integer => out.append(
                    "Some(colap::config_model::ConfigValue::Integer(val)) => val, _ => 0 },\n",
                ),
                ScalarType::Float => out.append(
                    "Some(colap::config_model::ConfigValue::Float(val)) => f64::from_bits(val.bits), _ => 0.0 },\n",
                ),
                ScalarType::Boolean => out.append(
                    "Some(colap::config_model::ConfigValue::Boolean(val)) => val, _ => false },\n",
                ),
                ScalarType::Text => out.append(
                    "Some(colap::config_model::ConfigValue::String(val)) => val, _ => String::new() },\n",
                ),
            }
        },
    }
}

/// Appends the source text of the record type `name` with `fields` to
/// `out`.
pub fn push_entity_text(out: &mut String, name: &str, fields: &Vec<RecordField>)
    ensures
        final(out)@ == old(out)@ + entity_text(name@, field_views(fields@)),
{
    let ghost views = field_views(fields@);
    let ghost declare = |f: RecordFieldView| declaration_line(f);
    let ghost access = |f: RecordFieldView| accessor_text(f);
    let ghost initialize = |f: RecordFieldView| initializer_line(f);
    let count = fields.len();
    out.append("#[derive(Debug, Clone, Default)]\npub struct ");
    out.append(name);
    out.append(" {\n");
    let ghost head = out@;
    let mut i: usize = 0;
    while i < count
        invariant
            i <= count,
            count == fields.len(),
            views == field_views(fields@),
            declare == (|f: RecordFieldView| declaration_line(f)),
            out@ == head + lines_of(views, i as nat, declare),
        decreases count - i,
    {
        push_declaration_line(out, &fields[i]);
        i += 1;
    }
    out.append("}\n\nimpl ");
    out.append(name);
    out.append(" {\n");
    let ghost declared = out@;
    i = 0;
    while i < count
        invariant
            i <= count,
            count == fields.len(),
            views == field_views(fields@),
            access == (|f: RecordFieldView| accessor_text(f)),
            out@ == declared + lines_of(views, i as nat, access),
        decreases count - i,
    {
        push_accessor_text(out, &fields[i]);
        i += 1;
    }
    out.append("}\n\nimpl ");
    out.append(name);
    out.append(
        " {\n    pub fn from_entity(model: &colap::config_model::ConfigModel, id: usize) -> Self {\n        Self {\n",
    );
    let ghost accessed = out@;
    i = 0;
    while i < count
        invariant
            i <= count,
            count == fields.len(),
            views == field_views(fields@),
            initialize == (|f: RecordFieldView| initializer_line(f)),
            out@ == accessed + lines_of(views, i as nat, initialize),
        decreases count - i,
    {
        push_initializer_line(out, &fields[i]);
        i += 1;
    }
    out.append("        }\n    }\n}\n\n");
    if same_text(name, "Root") {
        out.append(
            "impl Root {\n    pub fn from_model(model: &colap::config_model::ConfigModel) -> Self {\n        Self::from_entity(model, model.root_id())\n    }\n}\n\n",
        );
    }
}

} // verus!
