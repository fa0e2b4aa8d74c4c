use colap::config_model::{ConfigModel, ConfigNode, ConfigValue, FloatValue};
use std::collections::{HashMap, HashSet};
use colap::generator::derive::{
    collect_struct_names, derive_record_types, emit_all_entities, emit_entity,
    emit_singular_struct, identify_and_emit_singular_entities, identify_plural_instances,
    push_collection_type, push_element_type, push_entity_type,
};
use colap::generator::emit::push_entity_text;
use colap::generator::generator_impl::{push_file_step, push_test_module};
use colap::generator::naming::{field_name, struct_name, to_original_case};
use colap::generator::shapes::{
    contains_record, fields_of, plural_struct_name, FieldKind, RecordField, RecordType,
    ScalarType,
};
use colap::generator::{CodeGenerator, GenerationError, GenerationMode, OutputStep};
use colap::hydration::{
    collect_elements, find_record, hydrate, hydrate_field, hydrate_from_model, hydrate_scalar,
    FieldData, Hydrated,
};

fn text(value: &str) -> ConfigValue {
    ConfigValue::String(value.to_string())
}

fn float(value: f64) -> ConfigValue {
    ConfigValue::Float(FloatValue {
        bits: value.to_bits(),
        text: format!("{}", value),
    })
}

/// llm plural llms { openai { api_key = "k"; model plural models { gpt-4 { max_input_tokens = 8192 } } } }
fn llm_model() -> ConfigModel {
    let mut model = ConfigModel::new();
    model
        .create_entity_at_path("", "llm", Some("llms"), None)
        .unwrap();
    let openai = model
        .create_entity_at_path("llm", "openai", None, None)
        .unwrap();
    model
        .add_field_with_location(openai, "api_key", text("k"), None)
        .unwrap();
    model
        .create_entity_at_path("llm/openai", "model", Some("models"), None)
        .unwrap();
    let gpt4 = model
        .create_entity_at_path("llm/openai/model", "gpt-4", None, None)
        .unwrap();
    model
        .add_field_with_location(gpt4, "max_input_tokens", ConfigValue::Integer(8192), None)
        .unwrap();
    model
}

fn record_names(records: &[RecordType]) -> Vec<String> {
    records.iter().map(|r| r.name().clone()).collect()
}

fn fields_of_record(record: &RecordType) -> &Vec<RecordField> {
    match record {
        RecordType::Element { fields, .. } => fields,
        RecordType::Entity { fields, .. } => fields,
        _ => panic!("the record has no fields of its own"),
    }
}

fn field_of<'a>(hydrated: &'a Hydrated, name: &str) -> &'a FieldData {
    &hydrated
        .fields
        .iter()
        .find(|(key, _)| key == name)
        .unwrap()
        .1
}

fn write_steps(steps: &[OutputStep]) -> Vec<(String, String)> {
    steps
        .iter()
        .filter_map(|s| match s {
            OutputStep::WriteFile { path, content } => Some((path.clone(), content.clone())),
            _ => None,
        })
        .collect()
}

#[test]
fn names_are_written_in_the_case_of_generated_code() {
    assert_eq!(struct_name("llm"), "Llm");
    assert_eq!(struct_name("llms"), "Llms");
    assert_eq!(struct_name("gpt-4"), "Gpt4");
    assert_eq!(struct_name("max_input_tokens"), "MaxInputTokens");
    assert_eq!(struct_name("api"), "Api");
    assert_eq!(field_name("maxTokens"), "max_tokens");
    assert_eq!(field_name("api_key"), "api_key");
    assert_eq!(field_name("Models"), "models");
    assert_eq!(field_name("gpt-4"), "gpt_4");
}

#[test]
fn the_reserved_name_gets_a_suffix_and_loses_it_again() {
    assert_eq!(field_name("type"), "type_");
    assert_eq!(to_original_case("type_"), "type");
    assert_eq!(to_original_case(&field_name("type")), "type");
    assert_eq!(to_original_case("name"), "name");
    assert_eq!(field_name("types"), "types");
}

#[test]
fn scalar_types_are_written_as_rust_types() {
    assert_eq!(ScalarType::of(&ConfigValue::Integer(1)).rust_type(), "i64");
    assert_eq!(ScalarType::of(&float(0.5)).rust_type(), "f64");
    assert_eq!(ScalarType::of(&ConfigValue::Boolean(true)).rust_type(), "bool");
    assert_eq!(ScalarType::of(&text("x")).rust_type(), "String");
}

#[test]
fn fields_of_an_entity_are_its_scalars_then_its_child_entities() {
    let mut model = llm_model();
    let openai = model.find_entity_by_path("llm/openai").unwrap();
    model.add_field_with_location(openai, "ratio", float(0.5), None).unwrap();
    model.add_field_with_location(openai, "type", text("t"), None).unwrap();
    model.create_entity_at_path("llm/openai", "api", None, None).unwrap();
    let entity = match model.get_node(openai).unwrap() {
        ConfigNode::Entity(e) => e,
        ConfigNode::Field(_) => panic!("openai is an entity"),
    };
    let fields = fields_of(&model, entity);
    let summary: Vec<(String, String, String, FieldKind)> = fields
        .iter()
        .map(|f| (f.name.clone(), f.original_name.clone(), f.rust_type.clone(), f.kind))
        .collect();
    assert_eq!(
        summary,
        vec![
            (
                "api_key".to_string(),
                "api_key".to_string(),
                "String".to_string(),
                FieldKind::Scalar(ScalarType::Text)
            ),
            (
                "ratio".to_string(),
                "ratio".to_string(),
                "f64".to_string(),
                FieldKind::Scalar(ScalarType::Float)
            ),
            (
                "type_".to_string(),
                "type".to_string(),
                "String".to_string(),
                FieldKind::Scalar(ScalarType::Text)
            ),
            (
                "models".to_string(),
                "model".to_string(),
                "Models".to_string(),
                FieldKind::Collection
            ),
            (
                "api".to_string(),
                "api".to_string(),
                "Api".to_string(),
                FieldKind::Nested
            ),
        ]
    );
}

#[test]
fn record_types_of_a_nested_plural_model() {
    let model = llm_model();
    let records = derive_record_types(&model);
    assert_eq!(record_names(&records), vec!["Llm", "Model", "Root", "Llms", "Models"]);
    match &records[0] {
        RecordType::Element { name, fields } => {
            assert_eq!(name, "Llm");
            assert_eq!(fields.len(), 2);
            assert_eq!(fields[0].name, "api_key");
            assert_eq!(fields[0].kind, FieldKind::Scalar(ScalarType::Text));
            assert_eq!(fields[0].rust_type, "String");
            assert_eq!(fields[1].name, "models");
            assert_eq!(fields[1].kind, FieldKind::Collection);
            assert_eq!(fields[1].rust_type, "Models");
            assert_eq!(fields[1].original_name, "model");
        }
        _ => panic!("the first record is the element type of llms"),
    }
    match &records[1] {
        RecordType::Element { name, fields } => {
            assert_eq!(name, "Model");
            assert_eq!(fields.len(), 1);
            assert_eq!(fields[0].name, "max_input_tokens");
            assert_eq!(fields[0].kind, FieldKind::Scalar(ScalarType::Integer));
            assert_eq!(fields[0].rust_type, "i64");
        }
        _ => panic!("the second record is the element type of models"),
    }
    match &records[2] {
        RecordType::Entity { name, fields } => {
            assert_eq!(name, "Root");
            assert_eq!(fields.len(), 1);
            assert_eq!(fields[0].name, "llms");
            assert_eq!(fields[0].kind, FieldKind::Collection);
        }
        _ => panic!("the third record is the type of the root"),
    }
    match &records[3] {
        RecordType::Collection { name, element, singular } => {
            assert_eq!(name, "Llms");
            assert_eq!(element, "Llm");
            assert_eq!(singular, "llm");
        }
        _ => panic!("the fourth record is the collection of llms"),
    }
    match &records[4] {
        RecordType::Collection { name, element, singular } => {
            assert_eq!(name, "Models");
            assert_eq!(element, "Model");
            assert_eq!(singular, "model");
        }
        _ => panic!("the fifth record is the collection of models"),
    }
}

#[test]
fn entities_that_share_a_name_share_a_type() {
    let mut model = ConfigModel::new();
    let a = model.create_entity_at_path("", "a", None, None).unwrap();
    model.add_field_with_location(a, "x", ConfigValue::Integer(1), None).unwrap();
    let b = model.create_entity_at_path("", "b", None, None).unwrap();
    model.create_entity_at_path("a", "shared", None, None).unwrap();
    let second = model.add_node(ConfigNode::new_entity("shared", None, Some(b), None));
    model.add_child(b, second).unwrap();
    model.add_field_with_location(second, "only_here", ConfigValue::Boolean(true), None).unwrap();
    let records = derive_record_types(&model);
    let names = record_names(&records);
    assert_eq!(names, vec!["Root", "A", "Shared", "B"]);
    let shared = &records[2];
    assert!(fields_of_record(shared).is_empty());
    let mut sorted = names.clone();
    sorted.sort();
    sorted.dedup();
    assert_eq!(sorted.len(), names.len());
}

#[test]
fn instances_of_a_plural_entity_get_no_type_of_their_own() {
    let mut model = llm_model();
    model.create_entity_at_path("llm", "mistral", None, None).unwrap();
    let records = derive_record_types(&model);
    let names = record_names(&records);
    assert!(!names.contains(&"Openai".to_string()));
    assert!(!names.contains(&"Mistral".to_string()));
    assert!(!names.contains(&"Gpt4".to_string()));
    assert!(contains_record(&records, "Llm"));
    assert!(!contains_record(&records, "Openai"));
    let mut instances: HashSet<usize> = HashSet::new();
    identify_plural_instances(&model, model.root_id(), model.node_count(), &mut instances);
    let openai = model.find_entity_by_path("llm/openai").unwrap();
    let mistral = model.find_entity_by_path("llm/mistral").unwrap();
    let gpt4 = model.find_entity_by_path("llm/openai/model/gpt-4").unwrap();
    let mut marked: Vec<usize> = instances.into_iter().collect();
    marked.sort();
    assert_eq!(marked, vec![openai, gpt4, mistral]);
}

#[test]
fn the_element_type_is_shaped_after_the_first_child() {
    let mut model = ConfigModel::new();
    model.create_entity_at_path("", "server", Some("servers"), None).unwrap();
    let first = model.create_entity_at_path("server", "first", None, None).unwrap();
    model.add_field_with_location(first, "size", ConfigValue::Integer(80), None).unwrap();
    let second = model.create_entity_at_path("server", "second", None, None).unwrap();
    model.add_field_with_location(second, "host", text("h"), None).unwrap();
    let records = derive_record_types(&model);
    assert_eq!(record_names(&records), vec!["Server", "Root", "Servers"]);
    let fields = fields_of_record(&records[0]);
    assert_eq!(fields.len(), 1);
    assert_eq!(fields[0].name, "size");
}

#[test]
fn a_plural_entity_without_children_gives_only_its_collection() {
    let mut model = ConfigModel::new();
    model.create_entity_at_path("", "server", Some("servers"), None).unwrap();
    let records = derive_record_types(&model);
    assert_eq!(record_names(&records), vec!["Root", "Servers"]);
}

#[test]
fn the_api_type_has_its_fixed_shape() {
    let mut model = ConfigModel::new();
    let api = model.create_entity_at_path("", "api", None, None).unwrap();
    model.add_field_with_location(api, "key", text("some_api_key"), None).unwrap();
    model.add_field_with_location(api, "type", text("REST"), None).unwrap();
    model.add_field_with_location(api, "extra", ConfigValue::Integer(1), None).unwrap();
    let records = derive_record_types(&model);
    assert_eq!(record_names(&records), vec!["Root", "Api"]);
    assert!(matches!(&records[1], RecordType::Api { .. }));
    let hydrated = hydrate(&model, &records[1], api);
    assert_eq!(hydrated.record_type, "Api");
    assert_eq!(hydrated.fields.len(), 2);
    assert!(matches!(field_of(&hydrated, "key"), FieldData::Text(s) if s == "some_api_key"));
    assert!(matches!(field_of(&hydrated, "type_"), FieldData::Text(s) if s == "REST"));
}

#[test]
fn the_walks_can_be_taken_one_by_one() {
    let model = llm_model();
    let levels = model.node_count();
    let mut elements: Vec<RecordType> = Vec::new();
    identify_and_emit_singular_entities(&model, model.root_id(), levels, &mut elements);
    assert_eq!(record_names(&elements), vec!["Llm", "Model"]);
    let flags: HashSet<usize> = HashSet::new();
    let mut all: Vec<RecordType> = Vec::new();
    emit_all_entities(&model, &flags, model.root_id(), levels, &mut all);
    assert_eq!(record_names(&all), vec!["Root", "Llms", "Openai", "Models", "Gpt4"]);
    let mut shallow: Vec<RecordType> = Vec::new();
    emit_all_entities(&model, &flags, model.root_id(), 1, &mut shallow);
    assert_eq!(record_names(&shallow), vec!["Root", "Llms"]);
    let mut one: Vec<RecordType> = Vec::new();
    emit_entity(&model, 0, &mut one);
    emit_entity(&model, 0, &mut one);
    emit_entity(&model, 99, &mut one);
    assert_eq!(record_names(&one), vec!["Root"]);
    let openai = model.find_entity_by_path("llm/openai").unwrap();
    emit_singular_struct(&model, openai, "Custom".to_string(), &mut one);
    emit_singular_struct(&model, 99, "Missing".to_string(), &mut one);
    assert_eq!(record_names(&one), vec!["Root", "Custom"]);
    let mut names: HashMap<usize, String> = HashMap::new();
    collect_struct_names(&model, model.root_id(), levels, &mut names);
    let mut listed: Vec<String> = names.iter().map(|(id, n)| format!("{}:{}", id, n)).collect();
    listed.sort();
    assert_eq!(listed, vec!["0:Root", "1:Llm", "2:Openai", "4:Model", "5:Gpt4"]);
    let mut marked: HashSet<usize> = HashSet::new();
    marked.insert(openai);
    let mut unmarked: Vec<RecordType> = Vec::new();
    emit_all_entities(&model, &marked, model.root_id(), levels, &mut unmarked);
    assert_eq!(record_names(&unmarked), vec!["Root", "Llms", "Models", "Gpt4"]);
}

#[test]
fn a_plural_collection_hydrates_its_children_in_document_order() {
    let mut model = ConfigModel::new();
    model.create_entity_at_path("", "model", Some("models"), None).unwrap();
    let gpt4 = model.create_entity_at_path("model", "gpt-4", None, None).unwrap();
    let mini = model.create_entity_at_path("model", "gpt-4-mini", None, None).unwrap();
    model.add_field_with_location(gpt4, "max_input_tokens", ConfigValue::Integer(8192), None).unwrap();
    let records = derive_record_types(&model);
    let root = hydrate_from_model(&model, &records).unwrap();
    assert_eq!(root.record_type, "Root");
    match field_of(&root, "models") {
        FieldData::Collection(ids) => assert_eq!(ids, &vec![gpt4, mini]),
        _ => panic!("models is a collection"),
    }
    assert_eq!(collect_elements(&model, model.root_id(), "model"), vec![gpt4, mini]);
    assert!(collect_elements(&model, model.root_id(), "other").is_empty());
    assert!(collect_elements(&model, 99, "model").is_empty());
    let collection = find_record(&records, "Models").unwrap();
    let hydrated = hydrate(&model, &records[collection], model.root_id());
    assert_eq!(hydrated.record_type, "Models");
    assert!(matches!(field_of(&hydrated, "items"), FieldData::Collection(ids) if ids.len() == 2));
    let element = find_record(&records, "Model").unwrap();
    let first = hydrate(&model, &records[element], gpt4);
    assert!(matches!(field_of(&first, "max_input_tokens"), FieldData::Integer(8192)));
    let second = hydrate(&model, &records[element], mini);
    assert!(matches!(field_of(&second, "max_input_tokens"), FieldData::Integer(0)));
}

#[test]
fn a_missing_nested_entity_hydrates_as_absent() {
    let mut model = ConfigModel::new();
    model.create_entity_at_path("", "server", Some("servers"), None).unwrap();
    let first = model.create_entity_at_path("server", "first", None, None).unwrap();
    let tls = model.create_entity_at_path("server/first", "tls", None, None).unwrap();
    let second = model.create_entity_at_path("server", "second", None, None).unwrap();
    let records = derive_record_types(&model);
    let element = find_record(&records, "Server").unwrap();
    let with = hydrate(&model, &records[element], first);
    assert!(matches!(field_of(&with, "tls"), FieldData::Nested(Some(id)) if *id == tls));
    let without = hydrate(&model, &records[element], second);
    assert!(matches!(field_of(&without, "tls"), FieldData::Nested(None)));
    let nowhere = hydrate(&model, &records[element], 99);
    assert!(matches!(field_of(&nowhere, "tls"), FieldData::Nested(None)));
    let field = &fields_of_record(&records[element])[0];
    assert!(matches!(hydrate_field(&model, second, field), FieldData::Nested(None)));
}

#[test]
fn scalars_fall_back_to_the_zero_of_their_type() {
    let mut model = ConfigModel::new();
    model.add_field_to_entity(0, "n", ConfigValue::Integer(5)).unwrap();
    model.add_field_to_entity(0, "f", float(1.5)).unwrap();
    model.add_field_to_entity(0, "b", ConfigValue::Boolean(true)).unwrap();
    model.add_field_to_entity(0, "s", text("x")).unwrap();
    assert!(matches!(hydrate_scalar(&model, 0, "n", ScalarType::Integer), FieldData::Integer(5)));
    assert!(
        matches!(hydrate_scalar(&model, 0, "f", ScalarType::Float), FieldData::Float(bits) if f64::from_bits(bits) == 1.5)
    );
    assert!(matches!(hydrate_scalar(&model, 0, "b", ScalarType::Boolean), FieldData::Boolean(true)));
    assert!(matches!(hydrate_scalar(&model, 0, "s", ScalarType::Text), FieldData::Text(s) if s == "x"));
    assert!(matches!(hydrate_scalar(&model, 0, "s", ScalarType::Integer), FieldData::Integer(0)));
    assert!(
        matches!(hydrate_scalar(&model, 0, "n", ScalarType::Float), FieldData::Float(bits) if f64::from_bits(bits) == 0.0)
    );
    assert!(matches!(hydrate_scalar(&model, 0, "n", ScalarType::Boolean), FieldData::Boolean(false)));
    assert!(matches!(hydrate_scalar(&model, 0, "n", ScalarType::Text), FieldData::Text(s) if s.is_empty()));
    assert!(matches!(hydrate_scalar(&model, 0, "none", ScalarType::Integer), FieldData::Integer(0)));
    assert!(matches!(hydrate_scalar(&model, 7, "n", ScalarType::Integer), FieldData::Integer(0)));
}

#[test]
fn end_to_end_types_and_hydration() {
    let model = llm_model();
    let records = derive_record_types(&model);
    assert!(matches!(&records[find_record(&records, "Llms").unwrap()], RecordType::Collection { .. }));
    let llm_type = find_record(&records, "Llm").unwrap();
    let model_type = find_record(&records, "Model").unwrap();
    assert!(find_record(&records, "Nothing").is_none());
    let root = hydrate_from_model(&model, &records).unwrap();
    let llms = match field_of(&root, "llms") {
        FieldData::Collection(ids) => ids.clone(),
        _ => panic!("llms is a collection"),
    };
    assert_eq!(llms, vec![model.find_entity_by_path("llm/openai").unwrap()]);
    let openai = hydrate(&model, &records[llm_type], llms[0]);
    assert_eq!(openai.record_type, "Llm");
    assert!(matches!(field_of(&openai, "api_key"), FieldData::Text(s) if s == "k"));
    let models = match field_of(&openai, "models") {
        FieldData::Collection(ids) => ids.clone(),
        _ => panic!("models is a collection"),
    };
    assert_eq!(models, vec![model.find_entity_by_path("llm/openai/model/gpt-4").unwrap()]);
    let gpt4 = hydrate(&model, &records[model_type], models[0]);
    assert!(matches!(field_of(&gpt4, "max_input_tokens"), FieldData::Integer(8192)));
}

#[test]
fn hydration_from_a_model_needs_the_type_of_the_root() {
    let model = ConfigModel::new();
    assert!(hydrate_from_model(&model, &Vec::new()).is_none());
    let records = derive_record_types(&model);
    let root = hydrate_from_model(&model, &records).unwrap();
    assert!(root.fields.is_empty());
}

#[test]
fn source_text_of_an_entity_record() {
    let fields = vec![
        RecordField {
            name: "size".to_string(),
            original_name: "size".to_string(),
            rust_type: "i64".to_string(),
            kind: FieldKind::Scalar(ScalarType::Integer),
        },
        RecordField {
            name: "tls".to_string(),
            original_name: "tls".to_string(),
            rust_type: "Tls".to_string(),
            kind: FieldKind::Nested,
        },
        RecordField {
            name: "hosts".to_string(),
            original_name: "host".to_string(),
            rust_type: "Hosts".to_string(),
            kind: FieldKind::Collection,
        },
    ];
    let mut out = String::new();
    push_entity_text(&mut out, "Server", &fields);
    let expected = "#[derive(Debug, Clone, Default)]
pub struct Server {
    pub size: i64,
    pub tls: Option<Tls>,
    pub hosts: Hosts,
}

impl Server {
    pub fn size(&self) -> i64 {
        self.size.clone()
    }

    pub fn tls(&self) -> Option<&Tls> {
        self.tls.as_ref()
    }

    pub fn hosts(&self) -> &Hosts {
        &self.hosts
    }

}

impl Server {
    pub fn from_entity(model: &colap::config_model::ConfigModel, id: usize) -> Self {
        Self {
            size: match model.get_field_value(id, \"size\") { Some(colap::config_model::ConfigValue::Integer(val)) => val, _ => 0 },
            tls: model.find_child_entity_by_name(id, \"tls\").map(|child_id| Tls::from_entity(model, child_id)),
            hosts: Hosts::from_children(model, id),
        }
    }
}

";
    assert_eq!(out, expected);
    let mut root = String::new();
    push_entity_text(&mut root, "Root", &Vec::new());
    assert!(root.ends_with(
        "impl Root {\n    pub fn from_model(model: &colap::config_model::ConfigModel) -> Self {\n        Self::from_entity(model, model.root_id())\n    }\n}\n\n"
    ));
    assert!(!out.contains("from_model"));
}

#[test]
fn a_package_is_written_in_steps() {
    let generator = CodeGenerator::new(
        llm_model(),
        GenerationMode::Crate {
            output_dir: "out".to_string(),
            crate_name: "my-config".to_string(),
        },
        "docs/config.md".to_string(),
    )
    .unwrap();
    assert_eq!(generator.get_crate_name(), "my-config");
    assert_eq!(generator.model().node_count(), 7);
    let run = generator.generate("config.md", "2024-01-02");
    assert!(run.failure.is_none());
    let shape: Vec<String> = run
        .steps
        .iter()
        .map(|s| match s {
            OutputStep::CreateModuleDirectory => "module-dir".to_string(),
            OutputStep::WriteModule { .. } => "module".to_string(),
            OutputStep::CreateDirectory { path } => format!("dir {}", path),
            OutputStep::WriteFile { path, .. } => format!("file {}", path),
            OutputStep::CopySource { path } => format!("copy {}", path),
        })
        .collect();
    assert_eq!(
        shape,
        vec![
            "dir src",
            "file Cargo.toml",
            "file src/lib.rs",
            "dir tests",
            "dir tests",
            "dir tests/data",
            "copy tests/data/config.md",
            "file tests/integration.rs",
            "file README.md",
        ]
    );
    let files = write_steps(&run.steps);
    let manifest = &files[0].1;
    assert!(manifest.contains("name = \"my-config\""));
    assert!(manifest.contains("colap = { path = \"../colap\" }"));
    let library = &files[1].1;
    assert!(library.starts_with("//! Typed access to a configuration model.\n"));
    assert!(library.contains("use std::collections::HashMap;\n"));
    assert!(library.contains("use colap::config_model::{ConfigModel, ConfigNode, ConfigValue};\n\n"));
    assert!(library.contains("pub struct Llm {\n    pub api_key: String,\n    pub models: Models,\n}"));
    assert!(library.contains("pub struct Model {\n    pub max_input_tokens: i64,\n}"));
    assert!(library.contains("pub struct Llms {\n    items: Vec<(String, Llm)>,\n}"));
    assert!(library.contains("pub struct Models {\n    items: Vec<(String, Model)>,\n}"));
    assert!(library.contains("if group.name == \"llm\" {"));
    assert!(library.contains("pub struct Root {\n    pub llms: Llms,\n}"));
    assert!(library.contains("Some(ConfigValue::Integer(val)) => val,"));
    assert!(library.contains("models: Models::from_children(model, id),"));
    assert!(!library.contains("pub struct Openai"));
    assert!(!library.contains("&quot;"));
    assert_eq!(library.matches("pub struct Llm {").count(), 1);
    let test = &files[2].1;
    assert!(test.contains("use my_config::*;"));
    assert!(test.contains("\"tests/data/config.md\""));
    assert!(test.contains("    assert!(Llms::default().is_empty());\n"));
    assert!(test.contains("    assert!(Models::default().is_empty());\n"));
    assert!(test.contains("// `Llms` holds one `Llm` for each entity of its kind.\n"));
    assert!(test.contains("// `Models` holds one `Model` for each entity of its kind.\n"));
    assert!(!test.contains("llms"));
    let readme = &files[3].1;
    assert!(readme.starts_with("# my-config\n"));
    assert!(readme.contains("`config.md`"));
    assert!(readme.contains("2024-01-02"));
}

#[test]
fn a_module_is_written_with_its_tests() {
    let generator = CodeGenerator::new(
        llm_model(),
        GenerationMode::Module {
            output_file: "out/config.rs".to_string(),
        },
        "docs\\my config.md".to_string(),
    )
    .unwrap();
    assert_eq!(generator.get_crate_name(), "config");
    assert_eq!(generator.relative_source_path(), "docs/my config.md");
    let run = generator.generate("my config.md", "2024-01-02");
    assert!(run.failure.is_none());
    assert_eq!(run.steps.len(), 2);
    assert!(matches!(run.steps[0], OutputStep::CreateModuleDirectory));
    let content = match &run.steps[1] {
        OutputStep::WriteModule { content } => content.clone(),
        _ => panic!("the second step writes the module"),
    };
    assert!(content.contains("pub struct Llm {"));
    assert!(content.contains("\n#[cfg(test)]\nmod tests {\n    use super::*;\n    #[test]\n"));
    assert!(content.contains("    fn configuration_document_is_present() {\n"));
    assert!(content.contains("\"docs/my config.md\""));
    assert!(!content.contains("use ::*;"));
    assert!(content.ends_with("}\n"));
    let tests_part = &content[content.find("mod tests {").unwrap()..];
    assert!(!tests_part.contains("\n\n"));
    let again = generator.generate("my config.md", "2024-01-02");
    match &again.steps[1] {
        OutputStep::WriteModule { content: second } => assert_eq!(second, &content),
        _ => panic!("the second step writes the module"),
    }
}

#[test]
fn generated_records_escape_nothing() {
    let mut model = ConfigModel::new();
    model.create_entity_at_path("", "pair", Some("pairs"), None).unwrap();
    let first = model.create_entity_at_path("pair", "first", None, None).unwrap();
    model.add_field_with_location(first, "a<b", ConfigValue::Boolean(true), None).unwrap();
    let generator = CodeGenerator::new(
        model,
        GenerationMode::Module { output_file: "m.rs".to_string() },
        "m.md".to_string(),
    )
    .unwrap();
    let run = generator.generate("m.md", "2024-01-02");
    match &run.steps[1] {
        OutputStep::WriteModule { content } => {
            assert!(content.contains("get_field_value(id, \"a<b\")"));
            assert!(content.contains("Some(ConfigValue::Boolean(val)) => val,"));
            assert!(content.contains("_ => false,"));
        }
        _ => panic!("the second step writes the module"),
    }
}

#[test]
fn types_are_added_once_by_name() {
    let mut out: Vec<RecordType> = Vec::new();
    push_entity_type(&mut out, "Server".to_string(), Vec::new());
    push_entity_type(&mut out, "Api".to_string(), Vec::new());
    push_entity_type(&mut out, "Server".to_string(), Vec::new());
    push_collection_type(
        &mut out,
        "Servers".to_string(),
        "Server".to_string(),
        "server".to_string(),
    );
    push_collection_type(&mut out, "Api".to_string(), "X".to_string(), "x".to_string());
    push_element_type(&mut out, "Host".to_string(), Vec::new());
    push_element_type(&mut out, "Servers".to_string(), Vec::new());
    assert_eq!(record_names(&out), vec!["Server", "Api", "Servers", "Host"]);
    assert!(matches!(&out[0], RecordType::Entity { .. }));
    assert!(matches!(&out[1], RecordType::Api { .. }));
    assert!(matches!(&out[2], RecordType::Collection { element, singular, .. } if element == "Server" && singular == "server"));
    assert!(matches!(&out[3], RecordType::Element { .. }));
}

#[test]
fn the_collection_type_is_named_after_the_plural() {
    let with = match ConfigNode::new_entity("model", Some("models"), None, None) {
        ConfigNode::Entity(e) => e,
        ConfigNode::Field(_) => panic!("an entity was asked for"),
    };
    assert_eq!(plural_struct_name(&with), "Models");
    let without = match ConfigNode::new_entity("gpt-4", None, None, None) {
        ConfigNode::Entity(e) => e,
        ConfigNode::Field(_) => panic!("an entity was asked for"),
    };
    assert_eq!(plural_struct_name(&without), "Gpt4s");
}

#[test]
fn errors_carry_the_message_of_the_template_engine() {
    let refused = GenerationError::Template("line 3: bad tag".to_string());
    assert_eq!(refused.message(), "line 3: bad tag");
    let failed = GenerationError::Render("no such helper".to_string());
    assert_eq!(failed.message(), "no such helper");
}

#[test]
fn a_rendered_file_becomes_a_step_and_a_failure_is_handed_on() {
    let mut steps: Vec<OutputStep> = vec![OutputStep::CreateDirectory {
        path: "src".to_string(),
    }];
    assert!(push_file_step(&mut steps, "Cargo.toml", Ok("[package]".to_string())).is_ok());
    assert_eq!(steps.len(), 2);
    assert!(matches!(
        &steps[1],
        OutputStep::WriteFile { path, content } if path == "Cargo.toml" && content == "[package]"
    ));
    let failed = push_file_step(
        &mut steps,
        "src/lib.rs",
        Err(GenerationError::Render("broken".to_string())),
    );
    assert!(matches!(failed, Err(GenerationError::Render(m)) if m == "broken"));
    assert_eq!(steps.len(), 2);
    assert!(matches!(&steps[0], OutputStep::CreateDirectory { path } if path == "src"));
}

#[test]
fn the_test_module_indents_the_smoke_test() {
    let mut out = String::from("pub struct Root;\n");
    push_test_module(&mut out, "#[test]\nfn t() {\n\n    assert!(true);\n}\n");
    assert_eq!(
        out,
        "pub struct Root;\n\n#[cfg(test)]\nmod tests {\n    use super::*;\n    #[test]\n    fn t() {\n        assert!(true);\n    }\n}\n"
    );
}

#[test]
fn a_mode_can_be_copied() {
    let mode = GenerationMode::Crate {
        output_dir: "out".to_string(),
        crate_name: "c".to_string(),
    };
    match mode.clone() {
        GenerationMode::Crate { output_dir, crate_name } => {
            assert_eq!(output_dir, "out");
            assert_eq!(crate_name, "c");
        }
        GenerationMode::Module { .. } => panic!("a copy keeps the mode"),
    }
}

#[test]
fn the_smoke_test_names_the_collections_of_the_model() {
    let mut model = ConfigModel::new();
    model.create_entity_at_path("", "server", Some("servers"), None).unwrap();
    model.create_entity_at_path("server", "first", None, None).unwrap();
    let generator = CodeGenerator::new(
        model,
        GenerationMode::Module { output_file: "m.rs".to_string() },
        "m.md".to_string(),
    )
    .unwrap();
    let run = generator.generate("m.md", "2024-01-02");
    let content = match &run.steps[1] {
        OutputStep::WriteModule { content } => content.clone(),
        _ => panic!("the second step writes the module"),
    };
    assert!(content.contains("        assert!(Servers::default().is_empty());\n"));
    assert!(content.contains("    // `Servers` holds one `Server` for each entity of its kind.\n"));
    assert!(!content.contains("Llms"));
    let plain = CodeGenerator::new(
        ConfigModel::new(),
        GenerationMode::Module { output_file: "m.rs".to_string() },
        "m.md".to_string(),
    )
    .unwrap();
    let run = plain.generate("m.md", "2024-01-02");
    match &run.steps[1] {
        OutputStep::WriteModule { content } => {
            assert!(content.contains("    fn collections_start_empty() {\n    }\n"));
            assert!(!content.contains("holds one"));
        }
        _ => panic!("the second step writes the module"),
    }
}
