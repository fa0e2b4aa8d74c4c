use colap::config_model::{ConfigModel, ConfigNode, ConfigValue, FloatValue};
use colap::source_location::SourceLocation;

#[test]
fn test_basic_config_model() {
    let mut model = ConfigModel::new();

    // Create 'llm plural llms' at root
    let _llm_id = model
        .create_entity_at_path("", "llm", Some("llms"), None)
        .unwrap();

    // Create 'openai' under 'llm'
    let openai_id = model
        .create_entity_at_path("llm", "openai", None, None)
        .unwrap();

    // Add fields to openai
    model
        .add_field_to_entity(
            openai_id,
            "api_key",
            ConfigValue::String("test_key".to_string()),
        )
        .unwrap();
    model
        .add_field_to_entity(openai_id, "max_tokens", ConfigValue::Integer(1000))
        .unwrap();

    // Create 'model plural models' under 'openai'
    let _models_id = model
        .create_entity_at_path("llm/openai", "model", Some("models"), None)
        .unwrap();

    // Create 'gpt-4' under 'models'
    let gpt4_id = model
        .create_entity_at_path("llm/openai/model", "gpt-4", None, None)
        .unwrap();

    // Add fields to gpt-4
    model
        .add_field_to_entity(gpt4_id, "max_input_tokens", ConfigValue::Integer(8192))
        .unwrap();
    model
        .add_field_to_entity(gpt4_id, "supports_vision", ConfigValue::Boolean(true))
        .unwrap();

    // Display the model
    println!("{}", model.to_text());

    // Test retrieving values
    let max_tokens = model.get_field_value(openai_id, "max_tokens").unwrap();
    if let ConfigValue::Integer(val) = max_tokens {
        assert_eq!(val, 1000);
    } else {
        panic!("Expected Integer value for max_tokens");
    }

    // Test finding entity by path
    let found_gpt4_id = model.find_entity_by_path("llm/openai/model/gpt-4").unwrap();
    assert_eq!(found_gpt4_id, gpt4_id);
}

fn sample_model() -> (ConfigModel, usize, usize) {
    let mut model = ConfigModel::new();
    let llm = model
        .create_entity_at_path("", "llm", Some("llms"), None)
        .unwrap();
    let openai = model
        .create_entity_at_path("llm", "openai", None, None)
        .unwrap();
    model
        .add_field_with_location(openai, "api_key", ConfigValue::String("k".to_string()), None)
        .unwrap();
    (model, llm, openai)
}

#[test]
fn new_model_holds_only_the_root() {
    let model = ConfigModel::new();
    assert_eq!(model.node_count(), 1);
    assert_eq!(model.root_id(), 0);
    let root = model.get_node(0).unwrap();
    assert!(root.is_entity());
    assert!(!root.is_field());
    assert_eq!(root.name(), "root");
    assert!(model.get_node(1).is_none());
    assert_eq!(model.find_entity_by_path(""), Some(0));
}

#[test]
fn ids_are_given_in_order() {
    let mut model = ConfigModel::new();
    let a = model.add_node(ConfigNode::new_entity("a", None, None, None));
    let b = model.add_node(ConfigNode::new_field("b", ConfigValue::Boolean(true), None));
    assert_eq!(a, 1);
    assert_eq!(b, 2);
    assert_eq!(model.get_node(b).unwrap().name(), "b");
    assert!(model.get_node(b).unwrap().is_field());
}

#[test]
fn created_entity_is_found_at_its_path() {
    let mut model = ConfigModel::new();
    let a = model.create_entity_at_path("", "a", None, None).unwrap();
    assert_eq!(model.find_entity_by_path("a"), Some(a));
    let b = model.create_entity_at_path("a", "b", None, None).unwrap();
    assert_eq!(model.find_entity_by_path("a/b"), Some(b));
    let c = model.create_entity_at_path("a/b", "c", Some("cs"), None).unwrap();
    assert_eq!(model.find_entity_by_path("a/b/c"), Some(c));
    assert_eq!(model.node_count(), 4);
}

#[test]
fn a_path_leads_to_the_first_of_equally_named_siblings() {
    let mut model = ConfigModel::new();
    let first = model.create_entity_at_path("", "a", None, None).unwrap();
    let second = model.create_entity_at_path("", "a", None, None).unwrap();
    assert_ne!(first, second);
    assert_eq!(model.find_entity_by_path("a"), Some(first));
    assert_eq!(model.find_child_entity_by_name(0, "a"), Some(first));
}

#[test]
fn unmatched_paths_lead_nowhere() {
    let (model, _, _) = sample_model();
    assert_eq!(model.find_entity_by_path("nothing"), None);
    assert_eq!(model.find_entity_by_path("llm/nothing"), None);
    assert_eq!(model.find_entity_by_path("llm//openai"), None);
    assert_eq!(model.find_entity_by_path("llm/"), None);
    assert_eq!(model.find_entity_by_path("/llm"), None);
    assert_eq!(model.find_entity_by_path("llm/openai/api_key"), None);
    assert_eq!(model.find_child_entity_by_name(99, "llm"), None);
}

#[test]
fn create_fails_where_the_parent_path_is_missing() {
    let mut model = ConfigModel::new();
    let err = model
        .create_entity_at_path("missing/parent", "x", None, None)
        .unwrap_err();
    assert_eq!(err, "Parent path 'missing/parent' not found");
    assert_eq!(model.node_count(), 1);
}

#[test]
fn add_child_names_what_is_wrong() {
    let mut model = ConfigModel::new();
    let field = model.add_node(ConfigNode::new_field("f", ConfigValue::Integer(1), None));
    assert_eq!(
        model.add_child(7, 0).unwrap_err(),
        "Parent node with ID 7 not found"
    );
    assert_eq!(
        model.add_child(0, 12).unwrap_err(),
        "Child node with ID 12 not found"
    );
    assert_eq!(
        model.add_child(field, 0).unwrap_err(),
        "Parent node with ID 1 is not an entity"
    );
    assert!(model.add_child(0, field).is_ok());
    match model.get_node(0).unwrap() {
        ConfigNode::Entity(root) => assert_eq!(root.children, vec![field]),
        ConfigNode::Field(_) => panic!("the root is an entity"),
    }
}

#[test]
fn add_child_sets_the_parent_of_an_entity() {
    let mut model = ConfigModel::new();
    let a = model.add_node(ConfigNode::new_entity("a", None, None, None));
    model.add_child(0, a).unwrap();
    match model.get_node(a).unwrap() {
        ConfigNode::Entity(e) => assert_eq!(e.parent, Some(0)),
        ConfigNode::Field(_) => panic!("an entity was added"),
    }
}

#[test]
fn a_child_linked_twice_stands_in_both_lists() {
    let mut model = ConfigModel::new();
    let a = model.create_entity_at_path("", "a", None, None).unwrap();
    let b = model.create_entity_at_path("", "b", None, None).unwrap();
    let c = model.create_entity_at_path("a", "c", None, None).unwrap();
    model.add_child(b, c).unwrap();
    match (model.get_node(a).unwrap(), model.get_node(b).unwrap(), model.get_node(c).unwrap()) {
        (ConfigNode::Entity(ea), ConfigNode::Entity(eb), ConfigNode::Entity(ec)) => {
            assert_eq!(ea.children, vec![c]);
            assert_eq!(eb.children, vec![c]);
            assert_eq!(ec.parent, Some(b));
        }
        _ => panic!("three entities were created"),
    }
}

#[test]
fn add_field_names_what_is_wrong() {
    let mut model = ConfigModel::new();
    let field = model.add_node(ConfigNode::new_field("f", ConfigValue::Integer(1), None));
    assert_eq!(
        model
            .add_field_to_entity(5, "x", ConfigValue::Integer(1))
            .unwrap_err(),
        "Entity node with ID 5 not found"
    );
    assert_eq!(
        model
            .add_field_to_entity(field, "x", ConfigValue::Integer(1))
            .unwrap_err(),
        "Node with ID 1 is not an entity"
    );
    assert_eq!(
        model
            .add_field_with_location(field, "x", ConfigValue::Integer(1), None)
            .unwrap_err(),
        "Node with ID 1 is not an entity"
    );
    assert_eq!(model.node_count(), 2);
}

#[test]
fn add_field_to_entity_writes_the_map_only() {
    let mut model = ConfigModel::new();
    model
        .add_field_to_entity(0, "x", ConfigValue::Integer(1))
        .unwrap();
    assert_eq!(model.node_count(), 1);
    assert!(matches!(
        model.get_field_value(0, "x"),
        Some(ConfigValue::Integer(1))
    ));
    assert!(model.get_field_value(0, "y").is_none());
    assert!(model.get_field_value(3, "x").is_none());
}

#[test]
fn duplicate_field_keeps_last_value_and_both_nodes() {
    let mut model = ConfigModel::new();
    let e = model.create_entity_at_path("", "e", None, None).unwrap();
    model
        .add_field_with_location(e, "x", ConfigValue::Integer(1), None)
        .unwrap();
    model
        .add_field_with_location(e, "x", ConfigValue::Integer(2), None)
        .unwrap();
    assert!(matches!(
        model.get_field_value(e, "x"),
        Some(ConfigValue::Integer(2))
    ));
    let children = match model.get_node(e).unwrap() {
        ConfigNode::Entity(entity) => {
            assert_eq!(entity.fields.len(), 1);
            entity.children.clone()
        }
        ConfigNode::Field(_) => panic!("an entity was created"),
    };
    assert_eq!(children.len(), 2);
    match (model.get_node(children[0]).unwrap(), model.get_node(children[1]).unwrap()) {
        (ConfigNode::Field(first), ConfigNode::Field(second)) => {
            assert_eq!(first.name, "x");
            assert_eq!(second.name, "x");
            assert!(matches!(first.value, ConfigValue::Integer(1)));
            assert!(matches!(second.value, ConfigValue::Integer(2)));
        }
        _ => panic!("both children are field nodes"),
    }
}

#[test]
fn fields_keep_the_order_of_their_first_writing() {
    let mut model = ConfigModel::new();
    model.add_field_to_entity(0, "b", ConfigValue::Integer(1)).unwrap();
    model.add_field_to_entity(0, "a", ConfigValue::Integer(2)).unwrap();
    model.add_field_to_entity(0, "b", ConfigValue::Integer(3)).unwrap();
    match model.get_node(0).unwrap() {
        ConfigNode::Entity(root) => {
            assert_eq!(root.fields.len(), 2);
            assert_eq!(root.fields.name_at(0), "b");
            assert!(matches!(root.fields.value_at(0), ConfigValue::Integer(3)));
            assert_eq!(root.fields.name_at(1), "a");
            assert!(matches!(root.fields.get("a"), Some(ConfigValue::Integer(2))));
            assert!(root.fields.get("c").is_none());
        }
        ConfigNode::Field(_) => panic!("the root is an entity"),
    }
}

#[test]
fn original_names_are_recovered_for_display() {
    let mut model = ConfigModel::new();
    model
        .create_entity_at_path("", "gpt_4_1", None, None)
        .unwrap();
    assert_eq!(model.get_original_entity_name("gpt_4_1"), "gpt_4_1");
    model.set_original_entity_names(vec![
        ("gpt_4_1".to_string(), "earlier".to_string()),
        ("other_name".to_string(), "other name".to_string()),
        ("gpt_4_1".to_string(), "gpt-4.1".to_string()),
    ]);
    assert_eq!(model.get_original_entity_name("gpt_4_1"), "gpt-4.1");
    assert_eq!(model.get_original_entity_name("other_name"), "other name");
    assert_eq!(model.get_original_entity_name("other"), "other");
    assert_eq!(model.find_entity_by_path("gpt_4_1"), Some(1));
    assert_eq!(model.find_entity_by_path("gpt-4.1"), None);
    assert_eq!(model.to_text(), "root:\n  gpt-4.1:\n  ;\n.\n");
}

#[test]
fn values_are_written_as_in_a_printed_model() {
    assert_eq!(ConfigValue::Integer(-42).to_text(), "-42");
    assert_eq!(ConfigValue::Integer(0).to_text(), "0");
    assert_eq!(
        ConfigValue::Integer(i64::MIN).to_text(),
        "-9223372036854775808"
    );
    assert_eq!(
        ConfigValue::Integer(i64::MAX).to_text(),
        "9223372036854775807"
    );
    assert_eq!(ConfigValue::Boolean(true).to_text(), "true");
    assert_eq!(ConfigValue::Boolean(false).to_text(), "false");
    assert_eq!(ConfigValue::String("a b".to_string()).to_text(), "\"a b\"");
    let half = FloatValue {
        bits: 0.5f64.to_bits(),
        text: "0.5".to_string(),
    };
    assert_eq!(ConfigValue::Float(half).to_text(), "0.5");
}

#[test]
fn cloned_value_equals_its_source() {
    let v = ConfigValue::String("text".to_string());
    match v.clone() {
        ConfigValue::String(s) => assert_eq!(s, "text"),
        _ => panic!("a clone keeps the variant"),
    }
}

#[test]
fn nested_form_of_a_model() {
    let (model, _, _) = sample_model();
    assert_eq!(
        model.to_text(),
        "root:\n  llm plural llms:\n    openai:\n      api_key: \"k\",\n      api_key: \"k\",\n    ;\n  ;\n.\n"
    );
}

#[test]
fn tree_form_of_a_model() {
    let (model, _, _) = sample_model();
    assert_eq!(
        model.pretty_display(),
        "├── root\n│   └── llm plural llms\n│       └── openai\n│           ├── api_key: \"k\"\n│           └── api_key: \"k\"\n"
    );
}

#[test]
fn tree_form_closes_a_level_with_its_last_field() {
    let mut model = ConfigModel::new();
    model.add_field_to_entity(0, "a", ConfigValue::Integer(1)).unwrap();
    model.add_field_to_entity(0, "b", ConfigValue::Boolean(false)).unwrap();
    assert_eq!(model.pretty_display(), "├── root\n│   ├── a: 1\n│   └── b: false\n");
    assert_eq!(model.to_text(), "root:\n  a: 1,\n  b: false,\n.\n");
}

#[test]
fn a_child_without_a_node_is_reported_in_both_forms() {
    let mut model = ConfigModel::new();
    let mut entity = match ConfigNode::new_entity("e", None, Some(0), None) {
        ConfigNode::Entity(e) => e,
        ConfigNode::Field(_) => panic!("an entity was asked for"),
    };
    entity.children.push(9);
    let e = model.add_node(ConfigNode::Entity(entity));
    model.add_child(0, e).unwrap();
    assert_eq!(
        model.to_text(),
        "root:\n  e:\n    Node ID 9 not found\n  ;\n.\n"
    );
    assert_eq!(
        model.pretty_display(),
        "├── root\n│   └── e\n│       Node ID 9 not found\n"
    );
}

#[test]
fn printing_a_cycle_ends() {
    let mut model = ConfigModel::new();
    let a = model.create_entity_at_path("", "a", None, None).unwrap();
    model.add_child(a, 0).unwrap();
    assert!(model.to_text().ends_with(".\n"));
    assert!(model.pretty_display().starts_with("├── root\n"));
}

#[test]
fn location_is_written_for_diagnostics() {
    let location = SourceLocation::new("doc.md".to_string(), (3, 1), (4, 20));
    assert_eq!(location.file_path, "doc.md");
    assert_eq!(location.start_line, 3);
    assert_eq!(location.start_column, 1);
    assert_eq!(location.end_line, 4);
    assert_eq!(location.end_column, 20);
    assert_eq!(location.to_text(), "doc.md: [(3,1)-(4,20)]");
    assert_eq!(location.clone(), location);
}
