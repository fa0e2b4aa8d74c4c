use colap::cola_actions::{
    cola_code_block_c1, cola_code_start, cola_code_end, field_c1, field_list_c2, field_list_field,
    identifier, number, plural_entity_c1, quoted_string_double, CodeBlock, Cola, ColaCodeBlockBase,
    Entity, Field, FieldBase, FieldList, FieldListC2Base, FieldValue, LineColumn, Located,
    MarkdownItem, NestedBlock, NumberBase, PluralEntityBase, Position, RegularCodeBlockBase,
    RegularCodeStart, SingularEntityBase, SourceSpan,
};
use colap::config_model::{ConfigNode, ConfigValue, FloatValue};
use colap::model_builder::{convert_location, strip_quotes, ModelBuilder};

fn name(text: &str) -> Located<String> {
    Located::new(text.to_string(), None)
}

fn double(text: &str) -> FieldValue {
    FieldValue::QuotedStringDouble(Located::new(text.to_string(), None))
}

fn single(text: &str) -> FieldValue {
    FieldValue::QuotedStringSingle(Located::new(text.to_string(), None))
}

fn num(text: &str) -> FieldValue {
    let float = text.trim().parse::<f64>().ok().map(|f| FloatValue {
        bits: f.to_bits(),
        text: format!("{}", f),
    });
    FieldValue::Number(Located::new(
        NumberBase {
            text: text.to_string(),
            float,
        },
        None,
    ))
}

fn field(key: &str, value: FieldValue) -> Field {
    Located::new(
        FieldBase {
            identifier: name(key),
            field_value: value,
        },
        None,
    )
}

fn fields(mut list: Vec<Field>) -> NestedBlock {
    let mut built = FieldList::Field(list.remove(0));
    for f in list {
        built = FieldList::C2(Located::new(
            FieldListC2Base {
                field_list: Box::new(built),
                field: f,
            },
            None,
        ));
    }
    NestedBlock::FieldList(built)
}

fn singular(key: &str, blocks: Vec<NestedBlock>) -> Entity {
    Entity::SingularEntity(Located::new(
        SingularEntityBase {
            identifier: name(key),
            entity_definition: if blocks.is_empty() { None } else { Some(blocks) },
        },
        None,
    ))
}

fn plural(key: &str, many: &str, blocks: Vec<NestedBlock>) -> Entity {
    Entity::PluralEntity(Located::new(
        PluralEntityBase {
            identifier_1: name(key),
            identifier_3: name(many),
            entity_definition: Some(blocks),
        },
        None,
    ))
}

fn nested(entity: Entity) -> NestedBlock {
    NestedBlock::Entity(Box::new(entity))
}

fn cola_block(entities: Vec<Entity>) -> MarkdownItem {
    MarkdownItem::CodeBlock(CodeBlock::ColaCodeBlock(Located::new(
        ColaCodeBlockBase {
            cola_code_start: name("```cola"),
            cola_syntax: Some(entities),
            cola_code_end: name("```"),
        },
        None,
    )))
}

fn document(entities: Vec<Entity>) -> Cola {
    Some(vec![
        MarkdownItem::HeadingLine(name("# Title")),
        MarkdownItem::ParagraphLine(name("Some prose.")),
        cola_block(entities),
    ])
}

fn span(start: Position, end: Option<Position>) -> Option<SourceSpan> {
    Some(SourceSpan { start, end })
}

fn at(line: usize, column: usize) -> Position {
    Position::LineBased(LineColumn { line, column })
}

#[test]
fn empty_documents_give_the_root_alone() {
    let none: Cola = None;
    let model = ModelBuilder::build_config_model(&none).unwrap();
    assert_eq!(model.node_count(), 1);
    let empty: Cola = Some(vec![]);
    let model = ModelBuilder::build_config_model(&empty).unwrap();
    assert_eq!(model.node_count(), 1);
    assert_eq!(model.to_text(), "root:\n.\n");
}

#[test]
fn only_cola_blocks_contribute() {
    let regular = MarkdownItem::CodeBlock(CodeBlock::RegularCodeBlock(Located::new(
        RegularCodeBlockBase {
            regular_code_start: RegularCodeStart::RegularCodeStartNamed(name("```rust")),
            regular_code_line0: Some(vec![name("llm:")]),
            regular_code_end: name("```"),
        },
        None,
    )));
    let doc: Cola = Some(vec![
        MarkdownItem::HeadingLine(name("# A")),
        regular,
        cola_block(vec![singular("a", vec![])]),
        MarkdownItem::ParagraphLine(name("text")),
        cola_block(vec![singular("b", vec![])]),
        MarkdownItem::CodeBlock(CodeBlock::ColaCodeBlock(Located::new(
            ColaCodeBlockBase {
                cola_code_start: name("```cola"),
                cola_syntax: None,
                cola_code_end: name("```"),
            },
            None,
        ))),
    ]);
    let model = ModelBuilder::build_config_model(&doc).unwrap();
    assert_eq!(model.node_count(), 3);
    assert_eq!(model.find_entity_by_path("a"), Some(1));
    assert_eq!(model.find_entity_by_path("b"), Some(2));
    assert_eq!(model.find_entity_by_path("llm"), None);
}

#[test]
fn scalar_values_are_mapped() {
    let doc = document(vec![singular(
        "openai",
        vec![fields(vec![
            field("max_tokens", num("1000")),
            field("ratio", num("0.5")),
            field("enabled", FieldValue::BooleanTrue),
            field("disabled", FieldValue::BooleanFalse),
            field("name", double("\"gpt-4\"")),
            field("other", single("'it'")),
        ])],
    )]);
    let model = ModelBuilder::build_config_model(&doc).unwrap();
    let id = model.find_entity_by_path("openai").unwrap();
    assert!(matches!(
        model.get_field_value(id, "max_tokens"),
        Some(ConfigValue::Integer(1000))
    ));
    match model.get_field_value(id, "ratio") {
        Some(ConfigValue::Float(f)) => {
            assert_eq!(f64::from_bits(f.bits), 0.5);
            assert_eq!(f.text, "0.5");
        }
        _ => panic!("ratio is a float"),
    }
    assert!(matches!(
        model.get_field_value(id, "enabled"),
        Some(ConfigValue::Boolean(true))
    ));
    assert!(matches!(
        model.get_field_value(id, "disabled"),
        Some(ConfigValue::Boolean(false))
    ));
    match model.get_field_value(id, "name") {
        Some(ConfigValue::String(s)) => assert_eq!(s, "gpt-4"),
        _ => panic!("name is a string"),
    }
    match model.get_field_value(id, "other") {
        Some(ConfigValue::String(s)) => assert_eq!(s, "it"),
        _ => panic!("other is a string"),
    }
}

#[test]
fn field_values_are_converted_one_by_one() {
    assert!(matches!(
        ModelBuilder::convert_field_value(&num(" 42 ")),
        Ok(ConfigValue::Integer(42))
    ));
    assert!(matches!(
        ModelBuilder::convert_field_value(&num("-7")),
        Ok(ConfigValue::Integer(-7))
    ));
    assert_eq!(
        ModelBuilder::convert_field_value(&num("12x")).unwrap_err(),
        "Failed to parse integer: 12x"
    );
    assert_eq!(
        ModelBuilder::convert_field_value(&num("99999999999999999999")).unwrap_err(),
        "Failed to parse integer: 99999999999999999999"
    );
    assert_eq!(
        ModelBuilder::convert_field_value(&num(" 1.2.3 ")).unwrap_err(),
        "Failed to parse float: 1.2.3"
    );
    match ModelBuilder::convert_field_value(&num("2.50")) {
        Ok(ConfigValue::Float(f)) => {
            assert_eq!(f64::from_bits(f.bits), 2.5);
            assert_eq!(f.text, "2.5");
        }
        _ => panic!("2.50 is a float"),
    }
    match ModelBuilder::convert_field_value(&double(" \"a \"b\" c\" ")) {
        Ok(ConfigValue::String(s)) => assert_eq!(s, "a \"b\" c"),
        _ => panic!("a string was written"),
    }
    match ModelBuilder::convert_field_value(&double("\"\"")) {
        Ok(ConfigValue::String(s)) => assert_eq!(s, ""),
        _ => panic!("a string was written"),
    }
}

#[test]
fn quotes_are_stripped_once_and_by_kind() {
    assert_eq!(strip_quotes("\"gpt-4\"", '"'), "gpt-4");
    assert_eq!(strip_quotes("'gpt-4'", '\''), "gpt-4");
    assert_eq!(strip_quotes("\"\"x\"\"", '"'), "\"x\"");
    assert_eq!(strip_quotes("'x\"", '"'), "'x");
    assert_eq!(strip_quotes("\"", '"'), "");
    assert_eq!(strip_quotes("", '"'), "");
    assert_eq!(strip_quotes("  \"é\"  ", '"'), "é");
}

#[test]
fn names_are_trimmed_and_nesting_follows_paths() {
    let doc = document(vec![plural(
        " llm ",
        " llms ",
        vec![nested(singular(
            "openai\n",
            vec![
                fields(vec![field(" api_key ", double("\"k\""))]),
                nested(plural(
                    "model",
                    "models",
                    vec![nested(singular(
                        "gpt-4",
                        vec![fields(vec![field("max_input_tokens", num("8192"))])],
                    ))],
                )),
            ],
        ))],
    )]);
    let model = ModelBuilder::build_config_model(&doc).unwrap();
    let llm = model.find_entity_by_path("llm").unwrap();
    match model.get_node(llm).unwrap() {
        ConfigNode::Entity(e) => {
            assert_eq!(e.name, "llm");
            assert_eq!(e.plural_name.as_deref(), Some("llms"));
            assert_eq!(e.parent, Some(0));
        }
        ConfigNode::Field(_) => panic!("llm is an entity"),
    }
    let openai = model.find_entity_by_path("llm/openai").unwrap();
    match model.get_field_value(openai, "api_key") {
        Some(ConfigValue::String(s)) => assert_eq!(s, "k"),
        _ => panic!("api_key is a string"),
    }
    let gpt4 = model.find_entity_by_path("llm/openai/model/gpt-4").unwrap();
    assert!(matches!(
        model.get_field_value(gpt4, "max_input_tokens"),
        Some(ConfigValue::Integer(8192))
    ));
    assert_eq!(
        model.to_text(),
        "root:\n  llm plural llms:\n    openai:\n      api_key: \"k\",\n      api_key: \"k\",\n      model plural models:\n        gpt-4:\n          max_input_tokens: 8192,\n          max_input_tokens: 8192,\n        ;\n      ;\n    ;\n  ;\n.\n"
    );
}

#[test]
fn field_lists_are_flattened_to_declaration_order() {
    let doc = document(vec![singular(
        "e",
        vec![
            fields(vec![
                field("a", num("1")),
                field("b", num("2")),
                field("c", num("3")),
            ]),
            nested(singular("inner", vec![])),
            fields(vec![field("d", num("4"))]),
        ],
    )]);
    let model = ModelBuilder::build_config_model(&doc).unwrap();
    let e = model.find_entity_by_path("e").unwrap();
    let children = match model.get_node(e).unwrap() {
        ConfigNode::Entity(entity) => entity.children.clone(),
        ConfigNode::Field(_) => panic!("e is an entity"),
    };
    let names: Vec<String> = children
        .iter()
        .map(|&c| model.get_node(c).unwrap().name().to_string())
        .collect();
    assert_eq!(names, vec!["a", "b", "c", "inner", "d"]);
}

#[test]
fn duplicate_fields_keep_both_writes() {
    let doc = document(vec![singular(
        "e",
        vec![fields(vec![field("x", num("1")), field("x", num("2"))])],
    )]);
    let model = ModelBuilder::build_config_model(&doc).unwrap();
    let e = model.find_entity_by_path("e").unwrap();
    assert!(matches!(
        model.get_field_value(e, "x"),
        Some(ConfigValue::Integer(2))
    ));
    match model.get_node(e).unwrap() {
        ConfigNode::Entity(entity) => {
            assert_eq!(entity.children.len(), 2);
            let values: Vec<String> = entity
                .children
                .iter()
                .map(|&c| match model.get_node(c).unwrap() {
                    ConfigNode::Field(f) => f.value.to_text(),
                    ConfigNode::Entity(_) => panic!("a field node was written"),
                })
                .collect();
            assert_eq!(values, vec!["1", "2"]);
        }
        ConfigNode::Field(_) => panic!("e is an entity"),
    }
}

#[test]
fn a_malformed_number_ends_the_build() {
    let doc = document(vec![
        singular("good", vec![]),
        singular("bad", vec![fields(vec![field("n", num("1x"))])]),
    ]);
    let err = ModelBuilder::build_config_model(&doc).unwrap_err();
    assert_eq!(err, "Failed to parse integer: 1x");
}

#[test]
fn equally_named_entities_share_the_first_as_parent() {
    let doc = document(vec![
        singular("a", vec![nested(singular("x", vec![]))]),
        singular("a", vec![nested(singular("y", vec![]))]),
    ]);
    let model = ModelBuilder::build_config_model(&doc).unwrap();
    let first = model.find_entity_by_path("a").unwrap();
    match model.get_node(first).unwrap() {
        ConfigNode::Entity(e) => assert_eq!(e.children.len(), 2),
        ConfigNode::Field(_) => panic!("a is an entity"),
    }
    assert!(model.find_entity_by_path("a/x").is_some());
    assert!(model.find_entity_by_path("a/y").is_some());
}

#[test]
fn spans_become_locations() {
    let full = convert_location(&span(at(3, 4), Some(at(5, 6)))).unwrap();
    assert_eq!(full.file_path, "");
    assert_eq!(
        (full.start_line, full.start_column, full.end_line, full.end_column),
        (3, 4, 5, 6)
    );
    let open = convert_location(&span(at(3, 4), None)).unwrap();
    assert_eq!(
        (open.start_line, open.start_column, open.end_line, open.end_column),
        (3, 4, 3, 4)
    );
    let offset = convert_location(&span(Position::Position(17), Some(Position::Position(30)))).unwrap();
    assert_eq!(
        (offset.start_line, offset.start_column, offset.end_line, offset.end_column),
        (1, 0, 1, 0)
    );
    let mixed = convert_location(&span(Position::Position(17), Some(at(9, 2)))).unwrap();
    assert_eq!(
        (mixed.start_line, mixed.start_column, mixed.end_line, mixed.end_column),
        (1, 0, 9, 2)
    );
    let wide = convert_location(&span(at(4294967296 + 7, 1), None)).unwrap();
    assert_eq!(wide.start_line, 7);
    assert!(convert_location(&None).is_none());
}

#[test]
fn nodes_carry_the_locations_of_their_spans() {
    let here = SourceSpan {
        start: at(2, 1),
        end: Some(at(2, 9)),
    };
    let there = SourceSpan {
        start: at(3, 3),
        end: Some(at(3, 12)),
    };
    let f = field_c1(
        identifier("x".to_string(), there),
        FieldValue::Number(number("5".to_string(), None, there)),
        there,
    );
    let g = field_c1(
        identifier("s".to_string(), there),
        FieldValue::QuotedStringDouble(quoted_string_double("\"v\"".to_string(), there)),
        there,
    );
    let list = field_list_c2(field_list_field(f), g, there);
    let entity = Entity::PluralEntity(plural_entity_c1(
        identifier("llm".to_string(), here),
        identifier("llms".to_string(), here),
        Some(vec![NestedBlock::FieldList(list)]),
        here,
    ));
    let block = cola_code_block_c1(
        cola_code_start("```cola".to_string(), here),
        Some(vec![entity]),
        cola_code_end("```".to_string(), here),
        here,
    );
    let doc: Cola = Some(vec![MarkdownItem::CodeBlock(CodeBlock::ColaCodeBlock(block))]);
    let model = ModelBuilder::build_config_model(&doc).unwrap();
    let llm = model.find_entity_by_path("llm").unwrap();
    match model.get_node(llm).unwrap() {
        ConfigNode::Entity(e) => {
            let location = e.location.as_ref().unwrap();
            assert_eq!(location.to_text(), ": [(2,1)-(2,9)]");
            match model.get_node(e.children[0]).unwrap() {
                ConfigNode::Field(field) => {
                    assert_eq!(field.name, "x");
                    assert_eq!(field.location.as_ref().unwrap().to_text(), ": [(3,3)-(3,12)]");
                }
                ConfigNode::Entity(_) => panic!("the first child is a field node"),
            }
        }
        ConfigNode::Field(_) => panic!("llm is an entity"),
    }
    assert!(matches!(
        model.get_field_value(llm, "x"),
        Some(ConfigValue::Integer(5))
    ));
}

#[test]
fn test_model_builder_with_test_genite() {
    // The syntax tree of a document that declares an LLM provider with
    // its API and one of its models.
    let ast = document(vec![plural(
        "llm",
        "llms",
        vec![nested(singular(
            "openai",
            vec![
                nested(singular(
                    "api",
                    vec![fields(vec![
                        field("key", double("\"some_api_key\"")),
                        field("type", double("\"REST\"")),
                    ])],
                )),
                nested(plural(
                    "model",
                    "models",
                    vec![nested(singular(
                        "gpt-4.1",
                        vec![fields(vec![
                            field("name", double("\"gpt-4.1\"")),
                            field("max_input_tokens", num("1047576")),
                        ])],
                    ))],
                )),
            ],
        ))],
    )]);

    // Use ModelBuilder to convert AST to ConfigModel
    let model_result = ModelBuilder::build_config_model(&ast);
    assert!(model_result.is_ok(), "Failed to build model from AST");

    let model = model_result.unwrap();

    // Verify the model structure by checking key entities and fields
    // First verify the model contains the llm entity
    let llm_path = "llm";
    let llm_entity = model.find_entity_by_path(llm_path);
    assert!(llm_entity.is_some(), "Failed to find llm entity");

    // Check the openai entity under llm
    let openai_path = "llm/openai";
    let openai_entity = model.find_entity_by_path(openai_path);
    assert!(
        openai_entity.is_some(),
        "Failed to find openai entity under llm"
    );

    if let Some(_openai_id) = openai_entity {
        // Check that api entity exists under openai
        let api_path = "llm/openai/api";
        let api_entity = model.find_entity_by_path(api_path);
        assert!(
            api_entity.is_some(),
            "Failed to find api entity under openai"
        );

        if let Some(api_id) = api_entity {
            // Check that key field exists and has the correct value
            let key = model.get_field_value(api_id, "key");
            assert!(key.is_some(), "Failed to find key field in api entity");

            if let Some(ConfigValue::String(value)) = key {
                assert_eq!(value, "some_api_key", "key field has incorrect value");
            } else {
                panic!("key field is not a String or has incorrect value");
            }

            // Check that type field exists and has the correct value
            let type_field = model.get_field_value(api_id, "type");
            assert!(
                type_field.is_some(),
                "Failed to find type field in api entity"
            );

            if let Some(ConfigValue::String(value)) = type_field {
                assert_eq!(value, "REST", "type field has incorrect value");
            } else {
                panic!("type field is not a String or has incorrect value");
            }
        }
    }

    // Check for nested models and plural entities
    let models_path = "llm/openai/model";
    let models_entity = model.find_entity_by_path(models_path);
    assert!(
        models_entity.is_some(),
        "Failed to find models (plural) entity"
    );

    if let Some(_models_id) = models_entity {
        // Check for one of the specific models
        let gpt4_path = "llm/openai/model/gpt-4.1";
        let gpt4_entity = model.find_entity_by_path(gpt4_path);
        assert!(gpt4_entity.is_some(), "Failed to find gpt-4.1 model entity");

        if let Some(gpt4_id) = gpt4_entity {
            // Check that name field exists and has the correct value
            let name = model.get_field_value(gpt4_id, "name");
            assert!(
                name.is_some(),
                "Failed to find name field in gpt-4.1 model entity"
            );

            if let Some(ConfigValue::String(value)) = name {
                assert_eq!(value, "gpt-4.1", "name field has incorrect value");
            } else {
                panic!("name field is not a String or has incorrect value");
            }

            // Check that max_input_tokens field exists and has the correct value
            let tokens = model.get_field_value(gpt4_id, "max_input_tokens");
            assert!(
                tokens.is_some(),
                "Failed to find max_input_tokens field in gpt-4.1 model entity"
            );

            if let Some(ConfigValue::Integer(value)) = tokens {
                assert_eq!(value, 1047576, "max_input_tokens field has incorrect value");
            } else {
                panic!("max_input_tokens field is not an Integer or has incorrect value");
            }
        }
    }

    // Print the model structure for debugging
    println!("ConfigModel structure:\n{}", model.to_text());
}

#[test]
fn a_cloned_syntax_tree_gives_the_same_model() {
    let doc = document(vec![plural(
        "llm",
        "llms",
        vec![nested(singular(
            "openai",
            vec![
                fields(vec![
                    field("api_key", double("\"k\"")),
                    field("ratio", num("0.5")),
                    field("on", FieldValue::BooleanTrue),
                ]),
                nested(singular("api", vec![fields(vec![field("key", single("'x'"))])])),
            ],
        ))],
    )]);
    let copy = doc.clone();
    let first = ModelBuilder::build_config_model(&doc).unwrap();
    let second = ModelBuilder::build_config_model(&copy).unwrap();
    assert_eq!(first.to_text(), second.to_text());
    assert_eq!(second.node_count(), 8);
    let value = FloatValue {
        bits: 0.5f64.to_bits(),
        text: "0.5".to_string(),
    };
    assert_eq!(value.clone(), value);
}
