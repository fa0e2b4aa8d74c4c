//! The syntax tree of a Cola document, and the actions that build it
//! during a parse.
//!
//! A document is a Markdown text: headings, paragraphs and fenced code
//! blocks. The blocks tagged as Cola hold entities; an entity holds
//! fields and nested entities. Each node may carry the span of source
//! text from which it was read.
use crate::config_model::FloatValue;
use vstd::prelude::*;

verus! {

/// A line and a column in a text.
#[derive(Debug, Clone, Copy, PartialEq, Eq)]
pub struct LineColumn {
    pub line: usize,
    pub column: usize,
}

/// A position in the parsed input: an offset in bytes, or a line and a
/// column.
#[derive(Debug, Clone, Copy, PartialEq, Eq)]
pub enum Position {
    Position(usize),
    LineBased(LineColumn),
}

/// The span of source text that a node was read from.
#[derive(Debug, Clone, Copy, PartialEq, Eq)]
pub struct SourceSpan {
    pub start: Position,
    pub end: Option<Position>,
}

/// A value together with the span it was read from.
#[derive(Debug, Clone)]
pub struct Located<T> {
    pub value: T,
    pub location: Option<SourceSpan>,
}

impl<T> Located<T> {
    /// `value`, read from `location`.
    pub fn new(value: T, location: Option<SourceSpan>) -> (r: Self)
        ensures
            r.value == value,
            r.location == location,
    {
        Located { value, location }
    }
}

pub type ColaCodeStart = Located<String>;

pub type ColaCodeEnd = Located<String>;

pub type HeadingLine = Located<String>;

pub type Identifier = Located<String>;

pub type ParagraphLine = Located<String>;

pub type QuotedStringDouble = Located<String>;

pub type QuotedStringSingle = Located<String>;

pub type RegularCodeLine = Located<String>;

pub type RegularCodeStartNamed = Located<String>;

pub type RegularCodeStartUnnamed = Located<String>;

pub type RegularCodeEnd = Located<String>;

/// A numeric literal: its text and, where the text without surrounding
/// white space denotes a 64-bit floating-point number, that number.
#[derive(Debug, Clone)]
pub struct NumberBase {
    pub text: String,
    pub float: Option<FloatValue>,
}

pub type Number = Located<NumberBase>;

pub type Cola = MarkdownItem0;

pub type MarkdownItem1 = Vec<MarkdownItem>;

pub type MarkdownItem0 = Option<MarkdownItem1>;

#[derive(Debug, Clone)]
pub enum MarkdownItem {
    HeadingLine(HeadingLine),
    CodeBlock(CodeBlock),
    ParagraphLine(ParagraphLine),
}

#[derive(Debug, Clone)]
pub enum CodeBlock {
    ColaCodeBlock(ColaCodeBlock),
    RegularCodeBlock(RegularCodeBlock),
}

#[derive(Debug, Clone)]
pub struct ColaCodeBlockBase {
    pub cola_code_start: ColaCodeStart,
    pub cola_syntax: ColaSyntax,
    pub cola_code_end: ColaCodeEnd,
}

pub type ColaCodeBlock = Located<ColaCodeBlockBase>;

pub type ColaSyntax = Entity0;

pub type Entity1 = Vec<Entity>;

pub type Entity0 = Option<Entity1>;

#[derive(Debug)]
pub enum Entity {
    PluralEntity(PluralEntity),
    SingularEntity(SingularEntity),
}

/// An entity declared with a singular name, `identifier_1`, and a
/// plural name, `identifier_3`.
#[derive(Debug)]
pub struct PluralEntityBase {
    pub identifier_1: Identifier,
    pub identifier_3: Identifier,
    pub entity_definition: EntityDefinition,
}

pub type PluralEntity = Located<PluralEntityBase>;

#[derive(Debug)]
pub struct SingularEntityBase {
    pub identifier: Identifier,
    pub entity_definition: EntityDefinition,
}

pub type SingularEntity = Located<SingularEntityBase>;

pub type EntityDefinition = NestedBlock0;

pub type NestedBlock1 = Vec<NestedBlock>;

pub type NestedBlock0 = Option<NestedBlock1>;

#[derive(Debug)]
pub enum NestedBlock {
    FieldList(FieldList),
    Entity(Box<Entity>),
}

/// A field list that continues an earlier one: the fields of
/// `field_list` come first, `field` last.
#[derive(Debug)]
pub struct FieldListC2Base {
    pub field_list: Box<FieldList>,
    pub field: Field,
}

pub type FieldListC2 = Located<FieldListC2Base>;

#[derive(Debug)]
pub enum FieldList {
    Field(Field),
    C2(FieldListC2),
}

#[derive(Debug, Clone)]
pub struct FieldBase {
    pub identifier: Identifier,
    pub field_value: FieldValue,
}

pub type Field = Located<FieldBase>;

#[derive(Debug, Clone)]
pub enum FieldValue {
    QuotedStringDouble(QuotedStringDouble),
    QuotedStringSingle(QuotedStringSingle),
    Number(Number),
    BooleanTrue,
    BooleanFalse,
}

#[derive(Debug, Clone)]
pub struct RegularCodeBlockBase {
    pub regular_code_start: RegularCodeStart,
    pub regular_code_line0: RegularCodeLine0,
    pub regular_code_end: RegularCodeEnd,
}

pub type RegularCodeBlock = Located<RegularCodeBlockBase>;

pub type RegularCodeLine1 = Vec<RegularCodeLine>;

pub type RegularCodeLine0 = Option<RegularCodeLine1>;

#[derive(Debug, Clone)]
pub enum RegularCodeStart {
    RegularCodeStartNamed(RegularCodeStartNamed),
    RegularCodeStartUnnamed(RegularCodeStartUnnamed),
}

/// Whether two bodies hold the same blocks: the same field lists and,
/// in nested entities, the same names, spans and bodies.
pub open spec fn same_definition(a: EntityDefinition, b: EntityDefinition) -> bool
    decreases a,
{
    match (a, b) {
        (Some(x), Some(y)) => x.len() == y.len() && forall|i: int|
            0 <= i < x.len() ==> same_block(#[trigger] x[i], y[i]),
        (None, None) => true,
        _ => false,
    }
}

/// Whether two blocks are the same field list, or nested entities that
/// are the same.
pub open spec fn same_block(a: NestedBlock, b: NestedBlock) -> bool
    decreases a,
{
    match (a, b) {
        (NestedBlock::FieldList(x), NestedBlock::FieldList(y)) => x == y,
        (NestedBlock::Entity(x), NestedBlock::Entity(y)) => same_entity(*x, *y),
        _ => false,
    }
}

/// Whether two entities have the same names and span and the same
/// bodies.
pub open spec fn same_entity(a: Entity, b: Entity) -> bool
    decreases a,
{
    match (a, b) {
        (Entity::SingularEntity(x), Entity::SingularEntity(y)) => x.location == y.location
            && x.value.identifier == y.value.identifier && same_definition(
            x.value.entity_definition,
            y.value.entity_definition,
        ),
        (Entity::PluralEntity(x), Entity::PluralEntity(y)) => x.location == y.location
            && x.value.identifier_1 == y.value.identifier_1 && x.value.identifier_3
            == y.value.identifier_3 && same_definition(
            x.value.entity_definition,
            y.value.entity_definition,
        ),
        _ => false,
    }
}

fn clone_text(text: &Located<String>) -> (r: Located<String>)
    ensures
        r == *text,
{
    Located { value: text.value.clone(), location: text.location }
}

fn clone_field_value(value: &FieldValue) -> (r: FieldValue)
    ensures
        r == *value,
{
    match value {
        FieldValue::QuotedStringDouble(s) => FieldValue::QuotedStringDouble(clone_text(s)),
        FieldValue::QuotedStringSingle(s) => FieldValue::QuotedStringSingle(clone_text(s)),
        FieldValue::Number(n) => {
            let float = match &n.value.float {
                Some(f) => Some(f.clone()),
                None => None,
            };
            FieldValue::Number(
                Located {
                    value: NumberBase { text: n.value.text.clone(), float },
                    location: n.location,
                },
            )
        },
        FieldValue::BooleanTrue => FieldValue::BooleanTrue,
        FieldValue::BooleanFalse => FieldValue::BooleanFalse,
    }
}

fn clone_field(field: &Field) -> (r: Field)
    ensures
        r == *field,
{
    Located {
        value: FieldBase {
            identifier: clone_text(&field.value.identifier),
            field_value: clone_field_value(&field.value.field_value),
        },
        location: field.location,
    }
}

fn clone_field_list(list: &FieldList) -> (r: FieldList)
    ensures
        r == *list,
    decreases list,
{
    match list {
        FieldList::Field(f) => FieldList::Field(clone_field(f)),
        FieldList::C2(c) => FieldList::C2(
            Located {
                value: FieldListC2Base {
                    field_list: Box::new(clone_field_list(&c.value.field_list)),
                    field: clone_field(&c.value.field),
                },
                location: c.location,
            },
        ),
    }
}

fn clone_blocks(blocks: &Vec<NestedBlock>) -> (r: Vec<NestedBlock>)
    ensures
        r.len() == blocks.len(),
        forall|k: int| 0 <= k < blocks.len() ==> same_block(#[trigger] blocks[k], r[k]),
    decreases blocks,
{
    let mut out: Vec<NestedBlock> = Vec::new();
    let mut i: usize = 0;
    while i < blocks.len()
        invariant
            i <= blocks.len(),
            out.len() == i,
            forall|k: int| 0 <= k < i ==> same_block(#[trigger] blocks[k], out[k]),
        decreases blocks.len() - i,
    {
        out.push(clone_block(&blocks[i]));
        i += 1;
    }
    out
}

fn clone_definition(definition: &EntityDefinition) -> (r: EntityDefinition)
    ensures
        same_definition(*definition, r),
    decreases definition,
{
    match definition {
        None => None,
        Some(blocks) => Some(clone_blocks(blocks)),
    }
}

fn clone_block(block: &NestedBlock) -> (r: NestedBlock)
    ensures
        same_block(*block, r),
    decreases block,
{
    match block {
        NestedBlock::FieldList(list) => NestedBlock::FieldList(clone_field_list(list)),
        NestedBlock::Entity(entity) => NestedBlock::Entity(Box::new(clone_entity(entity))),
    }
}

fn clone_entity(entity: &Entity) -> (r: Entity)
    ensures
        same_entity(*entity, r),
    decreases entity,
{
    match entity {
        Entity::SingularEntity(s) => Entity::SingularEntity(
            Located {
                value: SingularEntityBase {
                    identifier: clone_text(&s.value.identifier),
                    entity_definition: clone_definition(&s.value.entity_definition),
                },
                location: s.location,
            },
        ),
        Entity::PluralEntity(p) => Entity::PluralEntity(
            Located {
                value: PluralEntityBase {
                    identifier_1: clone_text(&p.value.identifier_1),
                    identifier_3: clone_text(&p.value.identifier_3),
                    entity_definition: clone_definition(&p.value.entity_definition),
                },
                location: p.location,
            },
        ),
    }
}

impl Clone for FieldList {
    fn clone(&self) -> (r: Self)
        ensures
            r == *self,
    {
        clone_field_list(self)
    }
}

impl Clone for FieldListC2Base {
    fn clone(&self) -> (r: Self)
        ensures
            r == *self,
    {
        FieldListC2Base {
            field_list: Box::new(clone_field_list(&self.field_list)),
            field: clone_field(&self.field),
        }
    }
}

impl Clone for Entity {
    fn clone(&self) -> (r: Self)
        ensures
            same_entity(*self, r),
    {
        clone_entity(self)
    }
}

impl Clone for NestedBlock {
    fn clone(&self) -> (r: Self)
        ensures
            same_block(*self, r),
    {
        clone_block(self)
    }
}

impl Clone for SingularEntityBase {
    fn clone(&self) -> (r: Self)
        ensures
            r.identifier == self.identifier,
            same_definition(self.entity_definition, r.entity_definition),
    {
        SingularEntityBase {
            identifier: clone_text(&self.identifier),
            entity_definition: clone_definition(&self.entity_definition),
        }
    }
}

impl Clone for PluralEntityBase {
    fn clone(&self) -> (r: Self)
        ensures
            r.identifier_1 == self.identifier_1,
            r.identifier_3 == self.identifier_3,
            same_definition(self.entity_definition, r.entity_definition),
    {
        PluralEntityBase {
            identifier_1: clone_text(&self.identifier_1),
            identifier_3: clone_text(&self.identifier_3),
            entity_definition: clone_definition(&self.entity_definition),
        }
    }
}

/// The fence that opens a Cola code block.
pub fn cola_code_start(value: String, location: SourceSpan) -> (r: ColaCodeStart)
    ensures
        r.value == value,
        r.location == Some(location),
{
    ColaCodeStart::new(value, Some(location))
}

/// The fence that closes a Cola code block.
pub fn cola_code_end(value: String, location: SourceSpan) -> (r: ColaCodeEnd)
    ensures
        r.value == value,
        r.location == Some(location),
{
    ColaCodeEnd::new(value, Some(location))
}

/// A heading of the document.
pub fn heading_line(value: String, location: SourceSpan) -> (r: HeadingLine)
    ensures
        r.value == value,
        r.location == Some(location),
{
    HeadingLine::new(value, Some(location))
}

/// A name, as it was written.
pub fn identifier(value: String, location: SourceSpan) -> (r: Identifier)
    ensures
        r.value == value,
        r.location == Some(location),
{
    Identifier::new(value, Some(location))
}

/// A numeric literal, as it was written, with the floating-point
/// number that its text denotes, if it denotes one.
pub fn number(value: String, float: Option<FloatValue>, location: SourceSpan) -> (r: Number)
    ensures
        r.value.text == value,
        r.value.float == float,
        r.location == Some(location),
{
    Number::new(NumberBase { text: value, float }, Some(location))
}

/// A line of prose.
pub fn paragraph_line(value: String, location: SourceSpan) -> (r: ParagraphLine)
    ensures
        r.value == value,
        r.location == Some(location),
{
    ParagraphLine::new(value, Some(location))
}

/// A string between double quotes, with its quotes.
pub fn quoted_string_double(value: String, location: SourceSpan) -> (r: QuotedStringDouble)
    ensures
        r.value == value,
        r.location == Some(location),
{
    QuotedStringDouble::new(value, Some(location))
}

/// A string between single quotes, with its quotes.
pub fn quoted_string_single(value: String, location: SourceSpan) -> (r: QuotedStringSingle)
    ensures
        r.value == value,
        r.location == Some(location),
{
    QuotedStringSingle::new(value, Some(location))
}

/// A line of a code block that is not Cola.
pub fn regular_code_line(value: String, location: SourceSpan) -> (r: RegularCodeLine)
    ensures
        r.value == value,
        r.location == Some(location),
{
    RegularCodeLine::new(value, Some(location))
}

/// The fence that opens a code block tagged with another language.
pub fn regular_code_start_named(value: String, location: SourceSpan) -> (r: RegularCodeStartNamed)
    ensures
        r.value == value,
        r.location == Some(location),
{
    RegularCodeStartNamed::new(value, Some(location))
}

/// The fence that opens a code block without a tag.
pub fn regular_code_start_unnamed(
    value: String,
    location: SourceSpan,
) -> (r: RegularCodeStartUnnamed)
    ensures
        r.value == value,
        r.location == Some(location),
{
    RegularCodeStartUnnamed::new(value, Some(location))
}

/// The fence that closes a code block that is not Cola.
pub fn regular_code_end(value: String, location: SourceSpan) -> (r: RegularCodeEnd)
    ensures
        r.value == value,
        r.location == Some(location),
{
    RegularCodeEnd::new(value, Some(location))
}

/// A document: its items.
pub fn cola_markdown_item0(markdown_item0: MarkdownItem0) -> (r: Cola)
    ensures
        r == markdown_item0,
{
    markdown_item0
}

/// The items of a document with one more item at the end.
pub fn markdown_item1_c1(
    markdown_item1: MarkdownItem1,
    markdown_item: MarkdownItem,
) -> (r: MarkdownItem1)
    ensures
        r@ == markdown_item1@.push(markdown_item),
{
    let mut markdown_item1 = markdown_item1;
    markdown_item1.push(markdown_item);
    markdown_item1
}

/// The items of a document that has one item.
pub fn markdown_item1_markdown_item(markdown_item: MarkdownItem) -> (r: MarkdownItem1)
    ensures
        r@ == seq![markdown_item],
{
    let mut list: MarkdownItem1 = Vec::new();
    list.push(markdown_item);
    list
}

/// The items of a document that has some.
pub fn markdown_item0_markdown_item1(markdown_item1: MarkdownItem1) -> (r: MarkdownItem0)
    ensures
        r == Some(markdown_item1),
{
    Some(markdown_item1)
}

/// The items of an empty document.
pub fn markdown_item0_empty() -> (r: MarkdownItem0)
    ensures
        r is None,
{
    None
}

/// A heading as an item of the document.
pub fn markdown_item_heading_line(heading_line: HeadingLine) -> (r: MarkdownItem)
    ensures
        r == MarkdownItem::HeadingLine(heading_line),
{
    MarkdownItem::HeadingLine(heading_line)
}

/// A code block as an item of the document.
pub fn markdown_item_code_block(code_block: CodeBlock) -> (r: MarkdownItem)
    ensures
        r == MarkdownItem::CodeBlock(code_block),
{
    MarkdownItem::CodeBlock(code_block)
}

/// A line of prose as an item of the document.
pub fn markdown_item_paragraph_line(paragraph_line: ParagraphLine) -> (r: MarkdownItem)
    ensures
        r == MarkdownItem::ParagraphLine(paragraph_line),
{
    MarkdownItem::ParagraphLine(paragraph_line)
}

/// A Cola code block as a code block.
pub fn code_block_cola_code_block(cola_code_block: ColaCodeBlock) -> (r: CodeBlock)
    ensures
        r == CodeBlock::ColaCodeBlock(cola_code_block),
{
    CodeBlock::ColaCodeBlock(cola_code_block)
}

/// Another code block as a code block.
pub fn code_block_regular_code_block(regular_code_block: RegularCodeBlock) -> (r: CodeBlock)
    ensures
        r == CodeBlock::RegularCodeBlock(regular_code_block),
{
    CodeBlock::RegularCodeBlock(regular_code_block)
}

/// A Cola code block: its fences and the entities between them.
pub fn cola_code_block_c1(
    cola_code_start: ColaCodeStart,
    cola_syntax: ColaSyntax,
    cola_code_end: ColaCodeEnd,
    location: SourceSpan,
) -> (r: ColaCodeBlock)
    ensures
        r.value == (ColaCodeBlockBase { cola_code_start, cola_syntax, cola_code_end }),
        r.location == Some(location),
{
    ColaCodeBlock::new(
        ColaCodeBlockBase { cola_code_start, cola_syntax, cola_code_end },
        Some(location),
    )
}

/// The content of a Cola code block: its entities.
pub fn cola_syntax_entity0(entity0: Entity0) -> (r: ColaSyntax)
    ensures
        r == entity0,
{
    entity0
}

/// A list of entities with one more entity at the end.
pub fn entity1_c1(entity1: Entity1, entity: Entity) -> (r: Entity1)
    ensures
        r@ == entity1@.push(entity),
{
    let mut entity1 = entity1;
    entity1.push(entity);
    entity1
}

/// The list of one entity.
pub fn entity1_entity(entity: Entity) -> (r: Entity1)
    ensures
        r@ == seq![entity],
{
    let mut list: Entity1 = Vec::new();
    list.push(entity);
    list
}

/// The entities of a block that has some.
pub fn entity0_entity1(entity1: Entity1) -> (r: Entity0)
    ensures
        r == Some(entity1),
{
    Some(entity1)
}

/// The entities of a block that has none.
pub fn entity0_empty() -> (r: Entity0)
    ensures
        r is None,
{
    None
}

/// A plural entity as an entity.
pub fn entity_plural_entity(plural_entity: PluralEntity) -> (r: Entity)
    ensures
        r == Entity::PluralEntity(plural_entity),
{
    Entity::PluralEntity(plural_entity)
}

/// A singular entity as an entity.
pub fn entity_singular_entity(singular_entity: SingularEntity) -> (r: Entity)
    ensures
        r == Entity::SingularEntity(singular_entity),
{
    Entity::SingularEntity(singular_entity)
}

/// An entity declared with a singular and a plural name.
pub fn plural_entity_c1(
    identifier_1: Identifier,
    identifier_3: Identifier,
    entity_definition: EntityDefinition,
    location: SourceSpan,
) -> (r: PluralEntity)
    ensures
        r.value == (PluralEntityBase { identifier_1, identifier_3, entity_definition }),
        r.location == Some(location),
{
    PluralEntity::new(
        PluralEntityBase { identifier_1, identifier_3, entity_definition },
        Some(location),
    )
}

/// An entity declared with one name.
pub fn singular_entity_c1(
    identifier: Identifier,
    entity_definition: EntityDefinition,
    location: SourceSpan,
) -> (r: SingularEntity)
    ensures
        r.value == (SingularEntityBase { identifier, entity_definition }),
        r.location == Some(location),
{
    SingularEntity::new(SingularEntityBase { identifier, entity_definition }, Some(location))
}

/// The body of an entity: its blocks.
pub fn entity_definition_nested_block0(nested_block0: NestedBlock0) -> (r: EntityDefinition)
    ensures
        r == nested_block0,
{
    nested_block0
}

/// A list of blocks with one more block at the end.
pub fn nested_block1_c1(nested_block1: NestedBlock1, nested_block: NestedBlock) -> (r: NestedBlock1)
    ensures
        r@ == nested_block1@.push(nested_block),
{
    let mut nested_block1 = nested_block1;
    nested_block1.push(nested_block);
    nested_block1
}

/// The list of one block.
pub fn nested_block1_nested_block(nested_block: NestedBlock) -> (r: NestedBlock1)
    ensures
        r@ == seq![nested_block],
{
    let mut list: NestedBlock1 = Vec::new();
    list.push(nested_block);
    list
}

/// The blocks of a body that has some.
pub fn nested_block0_nested_block1(nested_block1: NestedBlock1) -> (r: NestedBlock0)
    ensures
        r == Some(nested_block1),
{
    Some(nested_block1)
}

/// The blocks of an empty body.
pub fn nested_block0_empty() -> (r: NestedBlock0)
    ensures
        r is None,
{
    None
}

/// A field list as a block of a body.
pub fn nested_block_field_list(field_list: FieldList) -> (r: NestedBlock)
    ensures
        r == NestedBlock::FieldList(field_list),
{
    NestedBlock::FieldList(field_list)
}

/// A nested entity as a block of a body.
pub fn nested_block_entity(entity: Entity) -> (r: NestedBlock)
    ensures
        r == NestedBlock::Entity(Box::new(entity)),
{
    NestedBlock::Entity(Box::new(entity))
}

/// The field list of one field.
pub fn field_list_field(field: Field) -> (r: FieldList)
    ensures
        r == FieldList::Field(field),
{
    FieldList::Field(field)
}

/// A field list with one more field at the end.
pub fn field_list_c2(field_list: FieldList, field: Field, location: SourceSpan) -> (r: FieldList)
    ensures
        r matches FieldList::C2(c) && c.value == (FieldListC2Base {
            field_list: Box::new(field_list),
            field,
        }) && c.location == Some(location),
{
    FieldList::C2(
        FieldListC2::new(
            FieldListC2Base { field_list: Box::new(field_list), field },
            Some(location),
        ),
    )
}

/// A field: a name and the value written for it.
pub fn field_c1(identifier: Identifier, field_value: FieldValue, location: SourceSpan) -> (r: Field)
    ensures
        r.value == (FieldBase { identifier, field_value }),
        r.location == Some(location),
{
    Field::new(FieldBase { identifier, field_value }, Some(location))
}

/// A string between double quotes as a field value.
pub fn field_value_quoted_string_double(quoted_string_double: QuotedStringDouble) -> (r: FieldValue)
    ensures
        r == FieldValue::QuotedStringDouble(quoted_string_double),
{
    FieldValue::QuotedStringDouble(quoted_string_double)
}

/// A string between single quotes as a field value.
pub fn field_value_quoted_string_single(quoted_string_single: QuotedStringSingle) -> (r: FieldValue)
    ensures
        r == FieldValue::QuotedStringSingle(quoted_string_single),
{
    FieldValue::QuotedStringSingle(quoted_string_single)
}

/// A numeric literal as a field value.
pub fn field_value_number(number: Number) -> (r: FieldValue)
    ensures
        r == FieldValue::Number(number),
{
    FieldValue::Number(number)
}

/// The field value of the keyword for true.
pub fn field_value_boolean_true() -> (r: FieldValue)
    ensures
        r is BooleanTrue,
{
    FieldValue::BooleanTrue
}

/// The field value of the keyword for false.
pub fn field_value_boolean_false() -> (r: FieldValue)
    ensures
        r is BooleanFalse,
{
    FieldValue::BooleanFalse
}

/// A code block that is not Cola: its fences and the lines between
/// them.
pub fn regular_code_block_c1(
    regular_code_start: RegularCodeStart,
    regular_code_line0: RegularCodeLine0,
    regular_code_end: RegularCodeEnd,
    location: SourceSpan,
) -> (r: RegularCodeBlock)
    ensures
        r.value == (RegularCodeBlockBase {
            regular_code_start,
            regular_code_line0,
            regular_code_end,
        }),
        r.location == Some(location),
{
    RegularCodeBlock::new(
        RegularCodeBlockBase { regular_code_start, regular_code_line0, regular_code_end },
        Some(location),
    )
}

/// A list of code lines with one more line at the end.
pub fn regular_code_line1_c1(
    regular_code_line1: RegularCodeLine1,
    regular_code_line: RegularCodeLine,
) -> (r: RegularCodeLine1)
    ensures
        r@ == regular_code_line1@.push(regular_code_line),
{
    let mut regular_code_line1 = regular_code_line1;
    regular_code_line1.push(regular_code_line);
    regular_code_line1
}

/// The list of one code line.
pub fn regular_code_line1_regular_code_line(
    regular_code_line: RegularCodeLine,
) -> (r: RegularCodeLine1)
    ensures
        r@ == seq![regular_code_line],
{
    let mut list: RegularCodeLine1 = Vec::new();
    list.push(regular_code_line);
    list
}

/// The lines of a code block that has some.
pub fn regular_code_line0_regular_code_line1(
    regular_code_line1: RegularCodeLine1,
) -> (r: RegularCodeLine0)
    ensures
        r == Some(regular_code_line1),
{
    Some(regular_code_line1)
}

/// The lines of an empty code block.
pub fn regular_code_line0_empty() -> (r: RegularCodeLine0)
    ensures
        r is None,
{
    None
}

/// A fence with a tag as the start of a code block.
pub fn regular_code_start_regular_code_start_named(
    regular_code_start_named: RegularCodeStartNamed,
) -> (r: RegularCodeStart)
    ensures
        r == RegularCodeStart::RegularCodeStartNamed(regular_code_start_named),
{
    RegularCodeStart::RegularCodeStartNamed(regular_code_start_named)
}

/// A fence without a tag as the start of a code block.
pub fn regular_code_start_regular_code_start_unnamed(
    regular_code_start_unnamed: RegularCodeStartUnnamed,
) -> (r: RegularCodeStart)
    ensures
        r == RegularCodeStart::RegularCodeStartUnnamed(regular_code_start_unnamed),
{
    RegularCodeStart::RegularCodeStartUnnamed(regular_code_start_unnamed)
}

} // verus!
