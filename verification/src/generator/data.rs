//! The data that the templates are rendered with.
use crate::generator::rendering::{
    json_content, json_contents, json_flag, json_list, json_map_insert, json_map_new,
    json_object, json_text, no_entries, object_content, JsonMap, JsonView,
};
use crate::generator::shapes::{
    api_type_name, field_views, record_views, FieldKind, RecordField, RecordFieldView,
    RecordType, RecordView, ScalarType,
};
use crate::text::same_text;
use vstd::prelude::*;
use vstd::string::*;

verus! {

fn put_text(map: &mut JsonMap, key: &str, text: &str)
    ensures
        object_content(*final(map)) == object_content(*old(map)).insert(
            key@,
            JsonView::Text(text@),
        ),
{
    json_map_insert(map, key.to_owned(), json_text(text));
}

fn put_flag(map: &mut JsonMap, key: &str, flag: bool)
    ensures
        object_content(*final(map)) == object_content(*old(map)).insert(
            key@,
            JsonView::Flag(flag),
        ),
{
    json_map_insert(map, key.to_owned(), json_flag(flag));
}

fn put_list(map: &mut JsonMap, key: &str, items: Vec<serde_json::Value>)
    ensures
        object_content(*final(map)) == object_content(*old(map)).insert(
            key@,
            JsonView::List(json_contents(items@)),
        ),
{
    json_map_insert(map, key.to_owned(), json_list(items));
}

/// The data of the head of a source file.
pub open spec fn header_data() -> JsonView {
    JsonView::Record(
        no_entries()
            .insert("include_imports"@, JsonView::Flag(true))
            .insert("uses_hashmap"@, JsonView::Flag(true)),
    )
}

/// The data of the head of a source file.
pub fn make_header_data() -> (r: serde_json::Value)
    ensures
        json_content(r) == header_data(),
{
    let mut map = json_map_new();
    put_flag(&mut map, "include_imports", true);
    put_flag(&mut map, "uses_hashmap", true);
    json_object(map)
}

/// The data of a template that takes none.
pub open spec fn no_data() -> JsonView {
    JsonView::Record(no_entries())
}

/// The data of a template that takes none.
pub fn make_no_data() -> (r: serde_json::Value)
    ensures
        json_content(r) == no_data(),
{
    let map = json_map_new();
    json_object(map)
}

/// The data of a collection type: its name, the name of the type of
/// its elements, and the singular name of the entities that hold them.
pub open spec fn collection_data(
    name: Seq<char>,
    element: Seq<char>,
    singular: Seq<char>,
) -> JsonView {
    JsonView::Record(
        no_entries()
            .insert("struct_name"@, JsonView::Text(name))
            .insert("singular_struct_name"@, JsonView::Text(element))
            .insert("singular_name"@, JsonView::Text(singular)),
    )
}

/// The data of a collection type.
pub fn make_collection_data(name: &str, element: &str, singular: &str) -> (r: serde_json::Value)
    ensures
        json_content(r) == collection_data(name@, element@, singular@),
{
    let mut map = json_map_new();
    put_text(&mut map, "struct_name", name);
    put_text(&mut map, "singular_struct_name", element);
    put_text(&mut map, "singular_name", singular);
    json_object(map)
}

/// The row that declares a field: a nested record is optional.
pub open spec fn field_row(f: RecordFieldView) -> JsonView {
    JsonView::Record(
        no_entries()
            .insert("name"@, JsonView::Text(f.name))
            .insert("type"@, JsonView::Text(f.rust_type))
            .insert("is_optional"@, JsonView::Flag(f.kind is Nested)),
    )
}

/// The row of the accessor of a field: a nested record is lent where
/// it is present, a collection is lent, a scalar is copied.
pub open spec fn getter_row(f: RecordFieldView) -> JsonView {
    JsonView::Record(
        no_entries()
            .insert("name"@, JsonView::Text(f.name))
            .insert("return_type"@, JsonView::Text(f.rust_type))
            .insert("is_reference"@, JsonView::Flag(f.kind is Collection))
            .insert("is_option"@, JsonView::Flag(f.kind is Nested))
            .insert("is_primitive"@, JsonView::Flag(f.kind is Scalar)),
    )
}

/// The row that hydrates a field, with the name under which the model
/// holds what the field is read from.
pub open spec fn initializer_row(f: RecordFieldView) -> JsonView {
    JsonView::Record(
        no_entries()
            .insert("name"@, JsonView::Text(f.name))
            .insert("type"@, JsonView::Text(f.rust_type))
            .insert("original_name"@, JsonView::Text(f.original_name))
            .insert("is_entity"@, JsonView::Flag(!(f.kind is Scalar)))
            .insert("is_collection"@, JsonView::Flag(f.kind is Collection))
            .insert("is_api"@, JsonView::Flag(f.rust_type == api_type_name()))
            .insert("is_integer"@, JsonView::Flag(f.kind == FieldKind::Scalar(ScalarType::Integer)))
            .insert("is_float"@, JsonView::Flag(f.kind == FieldKind::Scalar(ScalarType::Float)))
            .insert("is_boolean"@, JsonView::Flag(f.kind == FieldKind::Scalar(ScalarType::Boolean)))
            .insert("is_text"@, JsonView::Flag(f.kind == FieldKind::Scalar(ScalarType::Text))),
    )
}

fn is_nested(kind: FieldKind) -> (r: bool)
    ensures
        r == (kind is Nested),
{
    match kind {
        FieldKind::Nested => true,
        _ => false,
    }
}

fn is_collection(kind: FieldKind) -> (r: bool)
    ensures
        r == (kind is Collection),
{
    match kind {
        FieldKind::Collection => true,
        _ => false,
    }
}

fn is_scalar(kind: FieldKind) -> (r: bool)
    ensures
        r == (kind is Scalar),
{
    match kind {
        FieldKind::Scalar(_) => true,
        _ => false,
    }
}

/// The row that declares `f`.
fn make_field_row(f: &RecordField) -> (r: serde_json::Value)
    ensures
        json_content(r) == field_row(f@),
{
    let mut map = json_map_new();
    put_text(&mut map, "name", f.name.as_str());
    put_text(&mut map, "type", f.rust_type.as_str());
    put_flag(&mut map, "is_optional", is_nested(f.kind));
    json_object(map)
}

/// The row of the accessor of `f`.
fn make_getter_row(f: &RecordField) -> (r: serde_json::Value)
    ensures
        json_content(r) == getter_row(f@),
{
    let mut map = json_map_new();
    put_text(&mut map, "name", f.name.as_str());
    put_text(&mut map, "return_type", f.rust_type.as_str());
    put_flag(&mut map, "is_reference", is_collection(f.kind));
    put_flag(&mut map, "is_option", is_nested(f.kind));
    put_flag(&mut map, "is_primitive", is_scalar(f.kind));
    json_object(map)
}

/// The row that hydrates `f`.
fn make_initializer_row(f: &RecordField) -> (r: serde_json::Value)
    ensures
        json_content(r) == initializer_row(f@),
{
    let mut map = json_map_new();
    put_text(&mut map, "name", f.name.as_str());
    put_text(&mut map, "type", f.rust_type.as_str());
    put_text(&mut map, "original_name", f.original_name.as_str());
    put_flag(&mut map, "is_entity", !is_scalar(f.kind));
    put_flag(&mut map, "is_collection", is_collection(f.kind));
    put_flag(&mut map, "is_api", same_text(f.rust_type.as_str(), "Api"));
    put_flag(&mut map, "is_integer", f.kind == FieldKind::Scalar(ScalarType::Integer));
    put_flag(&mut map, "is_float", f.kind == FieldKind::Scalar(ScalarType::Float));
    put_flag(&mut map, "is_boolean", f.kind == FieldKind::Scalar(ScalarType::Boolean));
    put_flag(&mut map, "is_text", f.kind == FieldKind::Scalar(ScalarType::Text));
    json_object(map)
}

/// The data of an element type: its name and, for each field in
/// order, the rows of its declaration, its accessor and its hydration.
pub open spec fn element_data(name: Seq<char>, fields: Seq<RecordFieldView>) -> JsonView {
    JsonView::Record(
        no_entries().insert("struct_name"@, JsonView::Text(name)).insert(
            "fields"@,
            JsonView::List(fields.map_values(|f: RecordFieldView| field_row(f))),
        ).insert(
            "getters"@,
            JsonView::List(fields.map_values(|f: RecordFieldView| getter_row(f))),
        ).insert(
            "field_initializers"@,
            JsonView::List(fields.map_values(|f: RecordFieldView| initializer_row(f))),
        ),
    )
}

/// The data of an element type.
pub fn make_element_data(name: &str, fields: &Vec<RecordField>) -> (r: serde_json::Value)
    ensures
        json_content(r) == element_data(name@, field_views(fields@)),
{
    let ghost views = field_views(fields@);
    let mut rows: Vec<serde_json::Value> = Vec::new();
    let mut getters: Vec<serde_json::Value> = Vec::new();
    let mut initializers: Vec<serde_json::Value> = Vec::new();
    let mut i: usize = 0;
    while i < fields.len()
        invariant
            i <= fields.len(),
            views == field_views(fields@),
            rows.len() == i,
            getters.len() == i,
            initializers.len() == i,
            forall|k: int| 0 <= k < i ==> json_content(#[trigger] rows@[k]) == field_row(views[k]),
            forall|k: int|
                0 <= k < i ==> json_content(#[trigger] getters@[k]) == getter_row(views[k]),
            forall|k: int|
                0 <= k < i ==> json_content(#[trigger] initializers@[k]) == initializer_row(
                    views[k],
                ),
        decreases fields.len() - i,
    {
        rows.push(make_field_row(&fields[i]));
        getters.push(make_getter_row(&fields[i]));
        initializers.push(make_initializer_row(&fields[i]));
        i += 1;
    }
    assert(json_contents(rows@) =~= views.map_values(|f: RecordFieldView| field_row(f)));
    assert(json_contents(getters@) =~= views.map_values(|f: RecordFieldView| getter_row(f)));
    assert(json_contents(initializers@) =~= views.map_values(
        |f: RecordFieldView| initializer_row(f),
    ));
    let mut map = json_map_new();
    put_text(&mut map, "struct_name", name);
    put_list(&mut map, "fields", rows);
    put_list(&mut map, "getters", getters);
    put_list(&mut map, "field_initializers", initializers);
    json_object(map)
}

/// The data of the manifest of the package `crate_name`, which finds
/// this library beside the package.
pub open spec fn manifest_data(crate_name: Seq<char>) -> JsonView {
    JsonView::Record(
        no_entries()
            .insert("crate_name"@, JsonView::Text(crate_name))
            .insert("colap_path"@, JsonView::Text("../colap"@)),
    )
}

/// The data of the manifest of a package.
pub fn make_manifest_data(crate_name: &str) -> (r: serde_json::Value)
    ensures
        json_content(r) == manifest_data(crate_name@),
{
    let mut map = json_map_new();
    put_text(&mut map, "crate_name", crate_name);
    put_text(&mut map, "colap_path", "../colap");
    json_object(map)
}

/// The data of the description of a package.
pub open spec fn readme_data(
    crate_name: Seq<char>,
    config_filename: Seq<char>,
    date: Seq<char>,
) -> JsonView {
    JsonView::Record(
        no_entries()
            .insert("crate_name"@, JsonView::Text(crate_name))
            .insert("config_filename"@, JsonView::Text(config_filename))
            .insert("date"@, JsonView::Text(date))
            .insert("example_code"@, JsonView::Text(""@)),
    )
}

/// The data of the description of a package.
pub fn make_readme_data(
    crate_name: &str,
    config_filename: &str,
    date: &str,
) -> (r: serde_json::Value)
    ensures
        json_content(r) == readme_data(crate_name@, config_filename@, date@),
{
    let mut map = json_map_new();
    put_text(&mut map, "crate_name", crate_name);
    put_text(&mut map, "config_filename", config_filename);
    put_text(&mut map, "date", date);
    put_text(&mut map, "example_code", "");
    json_object(map)
}

/// The row of a collection in the smoke test: the names of the
/// collection type and of the type of its elements.
pub open spec fn collection_row(name: Seq<char>, element: Seq<char>) -> JsonView {
    JsonView::Record(
        no_entries()
            .insert("plural"@, JsonView::Text(name))
            .insert("singular"@, JsonView::Text(element)),
    )
}

/// The names of the collection types among `records` from position
/// `from` on, in order.
pub open spec fn collection_types(records: Seq<RecordView>, from: nat) -> Seq<JsonView>
    decreases records.len() - from,
{
    if from >= records.len() {
        Seq::empty()
    } else {
        match records[from as int] {
            RecordView::Collection { name, element, singular } => seq![JsonView::Text(name)]
                + collection_types(records, from + 1),
            _ => collection_types(records, from + 1),
        }
    }
}

/// The rows of the collection types among `records` from position
/// `from` on, in order.
pub open spec fn collection_rows(records: Seq<RecordView>, from: nat) -> Seq<JsonView>
    decreases records.len() - from,
{
    if from >= records.len() {
        Seq::empty()
    } else {
        match records[from as int] {
            RecordView::Collection { name, element, singular } => seq![
                collection_row(name, element),
            ] + collection_rows(records, from + 1),
            _ => collection_rows(records, from + 1),
        }
    }
}

/// The data of the smoke test: the names of the package, whether the
/// test stands in a package of its own, where it finds the document,
/// and the collection types among `records`.
pub open spec fn test_data(
    crate_name: Seq<char>,
    sanitized_crate_name: Seq<char>,
    is_crate: bool,
    test_file_path: Seq<char>,
    records: Seq<RecordView>,
) -> JsonView {
    JsonView::Record(
        no_entries()
            .insert("crate_name"@, JsonView::Text(crate_name))
            .insert("sanitized_crate_name"@, JsonView::Text(sanitized_crate_name))
            .insert("is_crate"@, JsonView::Flag(is_crate))
            .insert("test_file_path"@, JsonView::Text(test_file_path))
            .insert("plural_entity_types"@, JsonView::List(collection_types(records, 0)))
            .insert("plural_entity_assertions"@, JsonView::List(collection_rows(records, 0))),
    )
}

/// The data of the smoke test.
#[verifier::loop_isolation(false)]
pub fn make_test_data(
    crate_name: &str,
    sanitized_crate_name: &str,
    is_crate: bool,
    test_file_path: &str,
    records: &Vec<RecordType>,
) -> (r: serde_json::Value)
    ensures
        json_content(r) == test_data(
            crate_name@,
            sanitized_crate_name@,
            is_crate,
            test_file_path@,
            record_views(records@),
        ),
{
    let ghost views = record_views(records@);
    let mut plural_entity_types: Vec<serde_json::Value> = Vec::new();
    let mut plural_entity_assertions: Vec<serde_json::Value> = Vec::new();
    let mut i: usize = 0;
    assert(json_contents(plural_entity_types@) + collection_types(views, 0) =~= collection_types(
        views,
        0,
    ));
    assert(json_contents(plural_entity_assertions@) + collection_rows(views, 0)
        =~= collection_rows(views, 0));
    while i < records.len()
        invariant
            i <= records.len(),
            collection_types(views, 0) == json_contents(plural_entity_types@) + collection_types(
                views,
                i as nat,
            ),
            collection_rows(views, 0) == json_contents(plural_entity_assertions@)
                + collection_rows(views, i as nat),
        decreases records.len() - i,
    {
        assert(views[i as int] == records@[i as int]@);
        match &records[i] {
            RecordType::Collection { name, element, singular } => {
                let ghost types = json_contents(plural_entity_types@);
                let ghost rows = json_contents(plural_entity_assertions@);
                plural_entity_types.push(json_text(name.as_str()));
                let mut row = json_map_new();
                put_text(&mut row, "plural", name.as_str());
                put_text(&mut row, "singular", element.as_str());
                plural_entity_assertions.push(json_object(row));
                assert(json_contents(plural_entity_types@) =~= types.push(JsonView::Text(name@)));
                assert(json_contents(plural_entity_assertions@) =~= rows.push(
                    collection_row(name@, element@),
                ));
                assert(types + (seq![JsonView::Text(name@)] + collection_types(
                    views,
                    (i + 1) as nat,
                )) =~= types.push(JsonView::Text(name@)) + collection_types(
                    views,
                    (i + 1) as nat,
                ));
                assert(rows + (seq![collection_row(name@, element@)] + collection_rows(
                    views,
                    (i + 1) as nat,
                )) =~= rows.push(collection_row(name@, element@)) + collection_rows(
                    views,
                    (i + 1) as nat,
                ));
            },
            _ => {},
        }
        i += 1;
    }
    assert(json_contents(plural_entity_types@) =~= collection_types(views, 0));
    assert(json_contents(plural_entity_assertions@) =~= collection_rows(views, 0));
    let mut map = json_map_new();
    put_text(&mut map, "crate_name", crate_name);
    put_text(&mut map, "sanitized_crate_name", sanitized_crate_name);
    put_flag(&mut map, "is_crate", is_crate);
    put_text(&mut map, "test_file_path", test_file_path);
    put_list(&mut map, "plural_entity_types", plural_entity_types);
    put_list(&mut map, "plural_entity_assertions", plural_entity_assertions);
    json_object(map)
}

} // verus!
