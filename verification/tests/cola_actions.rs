use colap::cola_actions::{
    code_block_cola_code_block, code_block_regular_code_block, cola_code_block_c1,
    cola_code_end, cola_code_start, cola_markdown_item0, cola_syntax_entity0, entity0_empty,
    entity0_entity1, entity1_c1, entity1_entity, entity_definition_nested_block0,
    entity_plural_entity, entity_singular_entity, field_c1, field_list_c2, field_list_field,
    field_value_boolean_false, field_value_boolean_true, field_value_number,
    field_value_quoted_string_double, field_value_quoted_string_single, heading_line, identifier,
    markdown_item0_empty, markdown_item0_markdown_item1, markdown_item1_c1,
    markdown_item1_markdown_item, markdown_item_code_block, markdown_item_heading_line,
    markdown_item_paragraph_line, nested_block0_empty, nested_block0_nested_block1,
    nested_block1_c1, nested_block1_nested_block, nested_block_entity, nested_block_field_list,
    number, paragraph_line, plural_entity_c1, quoted_string_double, quoted_string_single,
    regular_code_block_c1, regular_code_end, regular_code_line, regular_code_line0_empty,
    regular_code_line0_regular_code_line1, regular_code_line1_c1,
    regular_code_line1_regular_code_line, regular_code_start_named,
    regular_code_start_regular_code_start_named, regular_code_start_regular_code_start_unnamed,
    regular_code_start_unnamed, singular_entity_c1, CodeBlock, Cola, Entity, FieldList,
    FieldValue, LineColumn, Located, MarkdownItem, NestedBlock, Position, RegularCodeStart,
    SourceSpan,
};
use colap::config_model::{ConfigValue, FloatValue};
use colap::model_builder::ModelBuilder;

fn at(line: usize) -> SourceSpan {
    SourceSpan {
        start: Position::LineBased(LineColumn { line, column: 1 }),
        end: Some(Position::LineBased(LineColumn { line, column: 9 })),
    }
}

fn float(value: f64) -> Option<FloatValue> {
    Some(FloatValue {
        bits: value.to_bits(),
        text: format!("{}", value),
    })
}

#[test]
fn tokens_keep_their_text_and_span() {
    let span = at(4);
    for token in [
        cola_code_start("```cola".to_string(), span),
        cola_code_end("```".to_string(), span),
        heading_line("# h".to_string(), span),
        identifier("llm".to_string(), span),
        paragraph_line("p".to_string(), span),
        quoted_string_double("\"d\"".to_string(), span),
        quoted_string_single("'s'".to_string(), span),
        regular_code_line("x".to_string(), span),
        regular_code_start_named("```rust".to_string(), span),
        regular_code_start_unnamed("```".to_string(), span),
        regular_code_end("```".to_string(), span),
    ] {
        assert!(!token.value.is_empty());
        assert_eq!(token.location, Some(span));
    }
    assert_eq!(identifier("llm".to_string(), span).value, "llm");
    let n = number("0.5".to_string(), float(0.5), span);
    assert_eq!(n.value.text, "0.5");
    assert_eq!(n.value.float, float(0.5));
    assert_eq!(n.location, Some(span));
    let plain = Located::new(7u8, None);
    assert_eq!(plain.value, 7);
    assert!(plain.location.is_none());
}

#[test]
fn lists_grow_at_the_end() {
    let none: Cola = cola_markdown_item0(markdown_item0_empty());
    assert!(none.is_none());
    let one = markdown_item1_markdown_item(markdown_item_heading_line(heading_line(
        "# a".to_string(),
        at(1),
    )));
    let two = markdown_item1_c1(
        one,
        markdown_item_paragraph_line(paragraph_line("b".to_string(), at(2))),
    );
    let doc = cola_markdown_item0(markdown_item0_markdown_item1(two));
    let items = doc.unwrap();
    assert_eq!(items.len(), 2);
    assert!(matches!(&items[0], MarkdownItem::HeadingLine(h) if h.value == "# a"));
    assert!(matches!(&items[1], MarkdownItem::ParagraphLine(p) if p.value == "b"));
    assert!(entity0_empty().is_none());
    assert!(nested_block0_empty().is_none());
    assert!(regular_code_line0_empty().is_none());
    let lines = regular_code_line1_c1(
        regular_code_line1_regular_code_line(regular_code_line("1".to_string(), at(1))),
        regular_code_line("2".to_string(), at(2)),
    );
    let texts: Vec<String> = lines.iter().map(|l| l.value.clone()).collect();
    assert_eq!(texts, vec!["1", "2"]);
    let some = regular_code_line0_regular_code_line1(lines);
    assert_eq!(some.unwrap().len(), 2);
}

#[test]
fn values_and_starts_take_their_variants() {
    assert!(matches!(field_value_boolean_true(), FieldValue::BooleanTrue));
    assert!(matches!(field_value_boolean_false(), FieldValue::BooleanFalse));
    assert!(matches!(
        field_value_quoted_string_double(quoted_string_double("\"d\"".to_string(), at(1))),
        FieldValue::QuotedStringDouble(s) if s.value == "\"d\""
    ));
    assert!(matches!(
        field_value_quoted_string_single(quoted_string_single("'s'".to_string(), at(1))),
        FieldValue::QuotedStringSingle(s) if s.value == "'s'"
    ));
    assert!(matches!(
        field_value_number(number("1".to_string(), None, at(1))),
        FieldValue::Number(n) if n.value.text == "1" && n.value.float.is_none()
    ));
    assert!(matches!(
        regular_code_start_regular_code_start_named(regular_code_start_named(
            "```rust".to_string(),
            at(1)
        )),
        RegularCodeStart::RegularCodeStartNamed(s) if s.value == "```rust"
    ));
    assert!(matches!(
        regular_code_start_regular_code_start_unnamed(regular_code_start_unnamed(
            "```".to_string(),
            at(1)
        )),
        RegularCodeStart::RegularCodeStartUnnamed(s) if s.value == "```"
    ));
}

#[test]
fn a_document_built_by_the_actions_gives_its_model() {
    let api_key = field_c1(
        identifier("api_key".to_string(), at(4)),
        field_value_quoted_string_double(quoted_string_double("\"k\"".to_string(), at(4))),
        at(4),
    );
    let ratio = field_c1(
        identifier("ratio".to_string(), at(5)),
        field_value_number(number("0.5".to_string(), float(0.5), at(5))),
        at(5),
    );
    let on = field_c1(
        identifier("on".to_string(), at(6)),
        field_value_boolean_true(),
        at(6),
    );
    let list = field_list_c2(field_list_c2(field_list_field(api_key), ratio, at(5)), on, at(6));
    assert!(matches!(&list, FieldList::C2(c) if c.location == Some(at(6)) && c.value.field.value.identifier.value == "on"));
    let gpt4 = entity_singular_entity(singular_entity_c1(
        identifier("gpt-4".to_string(), at(8)),
        entity_definition_nested_block0(nested_block0_empty()),
        at(8),
    ));
    let models = entity_plural_entity(plural_entity_c1(
        identifier("model".to_string(), at(7)),
        identifier("models".to_string(), at(7)),
        entity_definition_nested_block0(nested_block0_nested_block1(
            nested_block1_nested_block(nested_block_entity(gpt4)),
        )),
        at(7),
    ));
    let body = nested_block1_c1(
        nested_block1_nested_block(nested_block_field_list(list)),
        nested_block_entity(models),
    );
    assert!(matches!(&body[0], NestedBlock::FieldList(_)));
    assert!(matches!(&body[1], NestedBlock::Entity(e) if matches!(**e, Entity::PluralEntity(_))));
    let openai = entity_singular_entity(singular_entity_c1(
        identifier("openai".to_string(), at(3)),
        entity_definition_nested_block0(nested_block0_nested_block1(body)),
        at(3),
    ));
    let other = entity_singular_entity(singular_entity_c1(
        identifier("other".to_string(), at(9)),
        entity_definition_nested_block0(nested_block0_empty()),
        at(9),
    ));
    let entities = entity1_c1(entity1_entity(openai), other);
    let cola_block = code_block_cola_code_block(cola_code_block_c1(
        cola_code_start("```cola".to_string(), at(2)),
        cola_syntax_entity0(entity0_entity1(entities)),
        cola_code_end("```".to_string(), at(10)),
        at(2),
    ));
    assert!(matches!(&cola_block, CodeBlock::ColaCodeBlock(b) if b.location == Some(at(2))));
    let regular = code_block_regular_code_block(regular_code_block_c1(
        regular_code_start_regular_code_start_unnamed(regular_code_start_unnamed(
            "```".to_string(),
            at(11),
        )),
        regular_code_line0_regular_code_line1(regular_code_line1_regular_code_line(
            regular_code_line("ignored:".to_string(), at(12)),
        )),
        regular_code_end("```".to_string(), at(13)),
        at(11),
    ));
    assert!(matches!(&regular, CodeBlock::RegularCodeBlock(b) if b.value.regular_code_line0.as_ref().unwrap().len() == 1));
    let items = markdown_item1_c1(
        markdown_item1_c1(
            markdown_item1_markdown_item(markdown_item_heading_line(heading_line(
                "# Config".to_string(),
                at(1),
            ))),
            markdown_item_code_block(cola_block),
        ),
        markdown_item_code_block(regular),
    );
    let doc = cola_markdown_item0(markdown_item0_markdown_item1(items));
    let model = ModelBuilder::build_config_model(&doc).unwrap();
    assert_eq!(
        model.to_text(),
        "root:\n  openai:\n    api_key: \"k\",\n    ratio: 0.5,\n    on: true,\n    api_key: \"k\",\n    ratio: 0.5,\n    on: true,\n    model plural models:\n      gpt-4:\n      ;\n    ;\n  ;\n  other:\n  ;\n.\n"
    );
    let openai = model.find_entity_by_path("openai").unwrap();
    assert!(matches!(model.get_field_value(openai, "on"), Some(ConfigValue::Boolean(true))));
    assert!(model.find_entity_by_path("openai/model/gpt-4").is_some());
    assert!(model.find_entity_by_path("ignored").is_none());
}
