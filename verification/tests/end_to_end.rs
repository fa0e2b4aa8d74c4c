use colap::cola_actions::{
    CodeBlock, Cola, ColaCodeBlockBase, Entity, Field, FieldBase, FieldList, FieldValue, Located,
    MarkdownItem, NestedBlock, NumberBase, PluralEntityBase, SingularEntityBase,
};
use colap::generator::derive::derive_record_types;
use colap::generator::shapes::{FieldKind, RecordType, ScalarType};
use colap::generator::{CodeGenerator, GenerationMode, OutputStep};
use colap::hydration::{find_record, hydrate, hydrate_from_model, FieldData, Hydrated};
use colap::model_builder::ModelBuilder;

fn word(text: &str) -> Located<String> {
    Located::new(text.to_string(), None)
}

fn assignment(key: &str, value: FieldValue) -> NestedBlock {
    let field: Field = Located::new(
        FieldBase {
            identifier: word(key),
            field_value: value,
        },
        None,
    );
    NestedBlock::FieldList(FieldList::Field(field))
}

fn one(key: &str, blocks: Vec<NestedBlock>) -> NestedBlock {
    NestedBlock::Entity(Box::new(Entity::SingularEntity(Located::new(
        SingularEntityBase {
            identifier: word(key),
            entity_definition: Some(blocks),
        },
        None,
    ))))
}

fn many(key: &str, plural: &str, blocks: Vec<NestedBlock>) -> Entity {
    Entity::PluralEntity(Located::new(
        PluralEntityBase {
            identifier_1: word(key),
            identifier_3: word(plural),
            entity_definition: Some(blocks),
        },
        None,
    ))
}

fn llm_document() -> Cola {
    let models = many(
        "model",
        "models",
        vec![one(
            "gpt-4",
            vec![assignment(
                "max_input_tokens",
                FieldValue::Number(Located::new(
                    NumberBase {
                        text: "8192".to_string(),
                        float: None,
                    },
                    None,
                )),
            )],
        )],
    );
    let llms = many(
        "llm",
        "llms",
        vec![one(
            "openai",
            vec![
                assignment(
                    "api_key",
                    FieldValue::QuotedStringDouble(word("\"k\"")),
                ),
                NestedBlock::Entity(Box::new(models)),
            ],
        )],
    );
    Some(vec![MarkdownItem::CodeBlock(CodeBlock::ColaCodeBlock(
        Located::new(
            ColaCodeBlockBase {
                cola_code_start: word("```cola"),
                cola_syntax: Some(vec![llms]),
                cola_code_end: word("```"),
            },
            None,
        ),
    ))])
}

fn value_of<'a>(record: &'a Hydrated, name: &str) -> &'a FieldData {
    &record.fields.iter().find(|(key, _)| key == name).unwrap().1
}

#[test]
fn a_document_gives_its_types_and_its_values() {
    let model = ModelBuilder::build_config_model(&llm_document()).unwrap();
    let openai = model.find_entity_by_path("llm/openai").unwrap();
    let gpt4 = model.find_entity_by_path("llm/openai/model/gpt-4").unwrap();

    let records = derive_record_types(&model);
    let llms = &records[find_record(&records, "Llms").unwrap()];
    assert!(matches!(llms, RecordType::Collection { element, .. } if element == "Llm"));
    let llm = &records[find_record(&records, "Llm").unwrap()];
    match llm {
        RecordType::Element { fields, .. } => {
            let api_key = fields.iter().find(|f| f.name == "api_key").unwrap();
            assert_eq!(api_key.kind, FieldKind::Scalar(ScalarType::Text));
            assert_eq!(api_key.rust_type, "String");
            let models = fields.iter().find(|f| f.name == "models").unwrap();
            assert_eq!(models.kind, FieldKind::Collection);
            assert_eq!(models.rust_type, "Models");
        }
        _ => panic!("Llm is the type of the elements of Llms"),
    }
    let model_type = &records[find_record(&records, "Model").unwrap()];
    match model_type {
        RecordType::Element { fields, .. } => {
            assert_eq!(fields.len(), 1);
            assert_eq!(fields[0].name, "max_input_tokens");
            assert_eq!(fields[0].kind, FieldKind::Scalar(ScalarType::Integer));
            assert_eq!(fields[0].rust_type, "i64");
        }
        _ => panic!("Model is the type of the elements of Models"),
    }

    let hydrated_llm = hydrate(&model, llm, openai);
    assert!(matches!(value_of(&hydrated_llm, "api_key"), FieldData::Text(s) if s == "k"));
    assert!(matches!(value_of(&hydrated_llm, "models"), FieldData::Collection(ids) if ids == &vec![gpt4]));
    let hydrated_model = hydrate(&model, model_type, gpt4);
    assert!(matches!(
        value_of(&hydrated_model, "max_input_tokens"),
        FieldData::Integer(8192)
    ));
    let root = hydrate_from_model(&model, &records).unwrap();
    assert!(matches!(value_of(&root, "llms"), FieldData::Collection(ids) if ids == &vec![openai]));
}

#[test]
fn a_document_gives_its_source_text() {
    let model = ModelBuilder::build_config_model(&llm_document()).unwrap();
    let generator = CodeGenerator::new(
        model,
        GenerationMode::Module {
            output_file: "generated/llm.rs".to_string(),
        },
        "llm.md".to_string(),
    )
    .unwrap();
    let run = generator.generate("llm.md", "2024-05-06");
    assert!(run.failure.is_none());
    let content = match &run.steps[1] {
        OutputStep::WriteModule { content } => content,
        _ => panic!("the second step writes the module"),
    };
    for expected in [
        "pub struct Llms {",
        "pub struct Llm {\n    pub api_key: String,\n    pub models: Models,\n}",
        "pub struct Models {",
        "pub struct Model {\n    pub max_input_tokens: i64,\n}",
        "pub struct Root {\n    pub llms: Llms,\n}",
        "pub fn from_model(model: &colap::config_model::ConfigModel) -> Self {",
    ] {
        assert!(content.contains(expected), "missing: {}", expected);
    }
}
