//! Builds a configuration model from the syntax tree of a document.
use crate::cola_actions::{
    CodeBlock, Cola, Entity, Field, FieldList, FieldValue, MarkdownItem, NestedBlock, Position,
    SourceSpan,
};
use crate::config_model::{ConfigModel, ConfigValue, FloatValue, ModelView, NodeId, ValueView};
use crate::model_laws::joined_path;
use crate::source_location::{location_view, LocationView, SourceLocation};
use crate::text::{
    chars_of, contains_char, integer_of, parse_integer, prefixed_message, trim, trimmed,
};
use vstd::prelude::*;
use vstd::string::*;

verus! {

/// The line and column that stand for a position: its own, or line 1,
/// column 0 for a position that is only an offset.
pub open spec fn start_of(position: Position) -> (usize, usize) {
    match position {
        Position::LineBased(lc) => (lc.line, lc.column),
        Position::Position(_) => (1, 0),
    }
}

/// The location of a node read from `span`. It names no file. Where the
/// span has no end, or an end that is only an offset, the location ends
/// where it starts. Lines and columns are cut to 32 bits.
pub open spec fn span_location(span: SourceSpan) -> LocationView {
    let start = start_of(span.start);
    let end = match span.end {
        Some(Position::LineBased(lc)) => (lc.line, lc.column),
        _ => start,
    };
    LocationView {
        file_path: Seq::<char>::empty(),
        start_line: start.0 as u32,
        start_column: start.1 as u32,
        end_line: end.0 as u32,
        end_column: end.1 as u32,
    }
}

/// The location of a node that may carry a span.
pub open spec fn node_location(span: Option<SourceSpan>) -> Option<LocationView> {
    match span {
        Some(s) => Some(span_location(s)),
        None => None,
    }
}

/// The content of a quoted string: the text without surrounding white
/// space, without one `quote` at its start and without one at its end.
pub open spec fn unquoted(text: Seq<char>, quote: char) -> Seq<char> {
    let t = trimmed(text);
    let rest = if t.len() > 0 && t[0] == quote {
        t.drop_first()
    } else {
        t
    };
    if rest.len() > 0 && rest.last() == quote {
        rest.drop_last()
    } else {
        rest
    }
}

/// The value that a written field value stands for, or why it stands
/// for none. A numeric literal with a `.` is a float, any other an
/// integer.
pub open spec fn converted(value: FieldValue) -> Result<ValueView, Seq<char>> {
    match value {
        FieldValue::QuotedStringDouble(s) => Ok(ValueView::Text(unquoted(s.value@, '"'))),
        FieldValue::QuotedStringSingle(s) => Ok(ValueView::Text(unquoted(s.value@, '\''))),
        FieldValue::Number(n) => {
            let t = trimmed(n.value.text@);
            if t.contains('.') {
                match n.value.float {
                    Some(f) => Ok(ValueView::Float { bits: f.bits, text: f.text@ }),
                    None => Err("Failed to parse float: "@ + t),
                }
            } else {
                match integer_of(t) {
                    Some(i) => Ok(ValueView::Integer(i)),
                    None => Err("Failed to parse integer: "@ + t),
                }
            }
        },
        FieldValue::BooleanTrue => Ok(ValueView::Boolean(true)),
        FieldValue::BooleanFalse => Ok(ValueView::Boolean(false)),
    }
}

/// The fields of a field list in the order in which they were written.
pub open spec fn flattened(list: FieldList) -> Seq<Field>
    decreases list,
{
    match list {
        FieldList::Field(f) => seq![f],
        FieldList::C2(c) => flattened(*c.value.field_list).push(c.value.field),
    }
}

/// The model after `field` has been written on the entity `id`.
pub open spec fn field_written(m: ModelView, id: NodeId, field: Field) -> Result<
    ModelView,
    Seq<char>,
> {
    match converted(field.value.field_value) {
        Err(e) => Err(e),
        Ok(v) => match m.field_error(id) {
            Some(e) => Err(e),
            None => Ok(
                m.with_located_field(
                    id,
                    trimmed(field.value.identifier.value@),
                    v,
                    node_location(field.location),
                ),
            ),
        },
    }
}

/// The model after the fields of `fields` from position `from` on have
/// been written, in order, on the entity `id`. The first field that
/// cannot be written ends the work.
pub open spec fn fields_written(m: ModelView, id: NodeId, fields: Seq<Field>, from: nat) -> Result<
    ModelView,
    Seq<char>,
>
    decreases fields.len() - from,
{
    if from >= fields.len() {
        Ok(m)
    } else {
        match field_written(m, id, fields[from as int]) {
            Ok(after) => fields_written(after, id, fields, from + 1),
            Err(e) => Err(e),
        }
    }
}

/// The singular name of an entity.
pub open spec fn entity_name(entity: Entity) -> Seq<char> {
    match entity {
        Entity::SingularEntity(s) => trimmed(s.value.identifier.value@),
        Entity::PluralEntity(p) => trimmed(p.value.identifier_1.value@),
    }
}

/// The plural name of an entity, if it was declared with one.
pub open spec fn entity_plural_name(entity: Entity) -> Option<Seq<char>> {
    match entity {
        Entity::SingularEntity(_) => None,
        Entity::PluralEntity(p) => Some(trimmed(p.value.identifier_3.value@)),
    }
}

/// The span of an entity.
pub open spec fn entity_span(entity: Entity) -> Option<SourceSpan> {
    match entity {
        Entity::SingularEntity(s) => s.location,
        Entity::PluralEntity(p) => p.location,
    }
}

/// The blocks in the body of an entity.
pub open spec fn entity_blocks(entity: Entity) -> Seq<NestedBlock> {
    match entity {
        Entity::SingularEntity(s) => definition_blocks(s.value.entity_definition),
        Entity::PluralEntity(p) => definition_blocks(p.value.entity_definition),
    }
}

/// The model after `entity` has been built under the entity at
/// `parent_path`: the entity is created as the last child of what the
/// path leads to, then the blocks of its body are built in order.
pub open spec fn entity_built(m: ModelView, parent_path: Seq<char>, entity: Entity) -> Result<
    ModelView,
    Seq<char>,
>
    decreases entity, entity_blocks(entity).len() + 1,
{
    match m.find(parent_path) {
        None => Err("Parent path \'"@ + parent_path + "\' not found"@),
        Some(parent) => {
            let name = entity_name(entity);
            let created = m.created(
                parent,
                name,
                entity_plural_name(entity),
                node_location(entity_span(entity)),
            );
            blocks_built(
                created,
                m.nodes.len() as NodeId,
                joined_path(parent_path, name),
                entity,
                0,
            )
        },
    }
}

/// The model after the blocks in the body of `entity` from position
/// `from` on have been built, in order: a field list writes its fields
/// on the entity `id`, a nested entity is built under `path`. The first
/// block that fails ends the work.
pub open spec fn blocks_built(
    m: ModelView,
    id: NodeId,
    path: Seq<char>,
    entity: Entity,
    from: nat,
) -> Result<ModelView, Seq<char>>
    decreases entity, entity_blocks(entity).len() - from,
{
    let blocks = entity_blocks(entity);
    if from >= blocks.len() {
        Ok(m)
    } else {
        let step = match blocks[from as int] {
            NestedBlock::FieldList(list) => fields_written(m, id, flattened(list), 0),
            NestedBlock::Entity(nested) => entity_built(m, path, *nested),
        };
        match step {
            Ok(after) => blocks_built(after, id, path, entity, from + 1),
            Err(e) => Err(e),
        }
    }
}

/// The entities that a document item holds: those of a Cola code
/// block; a heading, a paragraph or another code block holds none.
pub open spec fn item_entities(item: MarkdownItem) -> Seq<Entity> {
    match item {
        MarkdownItem::CodeBlock(CodeBlock::ColaCodeBlock(block)) => match block.value.cola_syntax {
            Some(entities) => entities@,
            None => Seq::empty(),
        },
        _ => Seq::empty(),
    }
}

/// The model after the entities of `entities` from position `from` on
/// have been built, in order, under the root.
pub open spec fn entities_built(m: ModelView, entities: Seq<Entity>, from: nat) -> Result<
    ModelView,
    Seq<char>,
>
    decreases entities.len() - from,
{
    if from >= entities.len() {
        Ok(m)
    } else {
        match entity_built(m, Seq::<char>::empty(), entities[from as int]) {
            Ok(after) => entities_built(after, entities, from + 1),
            Err(e) => Err(e),
        }
    }
}

/// The model after the items of `items` from position `from` on have
/// been built, in order.
pub open spec fn items_built(m: ModelView, items: Seq<MarkdownItem>, from: nat) -> Result<
    ModelView,
    Seq<char>,
>
    decreases items.len() - from,
{
    if from >= items.len() {
        Ok(m)
    } else {
        match entities_built(m, item_entities(items[from as int]), 0) {
            Ok(after) => items_built(after, items, from + 1),
            Err(e) => Err(e),
        }
    }
}

/// The model that holds only the root.
pub open spec fn empty_model() -> ModelView {
    ModelView {
        nodes: seq![crate::config_model::fresh_entity("root"@, None, None, None)],
        names: Map::empty(),
    }
}

/// The model of a document, or the first error met while building it.
pub open spec fn document_built(cola: Cola) -> Result<ModelView, Seq<char>> {
    match cola {
        Some(items) => items_built(empty_model(), items@, 0),
        None => Ok(empty_model()),
    }
}

/// The location of a node read from `span`.
pub fn convert_location(span: &Option<SourceSpan>) -> (r: Option<SourceLocation>)
    ensures
        location_view(r) == node_location(*span),
{
    match span {
        None => None,
        Some(s) => {
            let (start_line, start_column) = match s.start {
                Position::LineBased(lc) => (lc.line, lc.column),
                Position::Position(_) => (1, 0),
            };
            let (end_line, end_column) = match s.end {
                Some(Position::LineBased(lc)) => (lc.line, lc.column),
                _ => (start_line, start_column),
            };
            Some(
                SourceLocation {
                    file_path: String::new(),
                    start_line: #[verifier::truncate]
                    (start_line as u32),
                    start_column: #[verifier::truncate]
                    (start_column as u32),
                    end_line: #[verifier::truncate]
                    (end_line as u32),
                    end_column: #[verifier::truncate]
                    (end_column as u32),
                },
            )
        },
    }
}

/// The content of a quoted string that was written with `quote`.
pub fn strip_quotes(text: &str, quote: char) -> (r: String)
    ensures
        r@ == unquoted(text@, quote),
{
    let t = trim(text);
    let v = chars_of(t);
    let n = v.len();
    let a: usize = if n > 0 && v[0] == quote {
        1
    } else {
        0
    };
    let b: usize = if n > a && v[n - 1] == quote {
        n - 1
    } else {
        n
    };
    t.substring_char(a, b).to_owned()
}

/// Builds a [`ConfigModel`] from a parsed document.
pub struct ModelBuilder;

impl ModelBuilder {
    /// The model of the document `cola`: the root, and under it what
    /// the Cola code blocks of the document declare, in order. Other
    /// items of the document are passed over. The first error ends the
    /// work, and then no model is returned.
    pub fn build_config_model(cola: &Cola) -> (r: Result<ConfigModel, String>)
        ensures
            match r {
                Ok(model) => document_built(*cola) == Ok::<ModelView, Seq<char>>(model@)
                    && model@.wf() && model@.ordered(),
                Err(e) => document_built(*cola) == Err::<ModelView, Seq<char>>(e@),
            },
    {
        let mut model = ConfigModel::new();
        match cola {
            None => {},
            Some(items) => {
                let mut i: usize = 0;
                while i < items.len()
                    invariant
                        i <= items.len(),
                        model@.wf(),
                        model@.ordered(),
                        document_built(*cola) == items_built(model@, items@, i as nat),
                    decreases items.len() - i,
                {
                    match &items[i] {
                        MarkdownItem::CodeBlock(CodeBlock::ColaCodeBlock(block)) => {
                            match &block.value.cola_syntax {
                                Some(entities) => {
                                    Self::process_entities(&mut model, entities)?;
                                },
                                None => {},
                            }
                        },
                        _ => {},
                    }
                    i += 1;
                }
            },
        }
        Ok(model)
    }

    /// Builds the entities of a Cola code block under the root, in
    /// order.
    fn process_entities(model: &mut ConfigModel, entities: &Vec<Entity>) -> (r: Result<(), String>)
        requires
            old(model)@.wf(),
        ensures
            final(model)@.wf(),
            old(model)@.ordered() ==> final(model)@.ordered(),
            match r {
                Ok(()) => entities_built(old(model)@, entities@, 0) == Ok::<ModelView, Seq<char>>(
                    final(model)@,
                ),
                Err(e) => entities_built(old(model)@, entities@, 0) == Err::<
                    ModelView,
                    Seq<char>,
                >(e@),
            },
    {
        proof {
            reveal_strlit("");
        }
        let mut k: usize = 0;
        while k < entities.len()
            invariant
                k <= entities.len(),
                model@.wf(),
                old(model)@.ordered() ==> model@.ordered(),
                ""@ == Seq::<char>::empty(),
                entities_built(old(model)@, entities@, 0) == entities_built(
                    model@,
                    entities@,
                    k as nat,
                ),
            decreases entities.len() - k,
        {
            Self::process_entity(model, "", &entities[k])?;
            k += 1;
        }
        Ok(())
    }

    /// Creates `entity` under the entity at `parent_path` and builds
    /// its body.
    fn process_entity(model: &mut ConfigModel, parent_path: &str, entity: &Entity) -> (r: Result<
        (),
        String,
    >)
        requires
            old(model)@.wf(),
        ensures
            final(model)@.wf(),
            old(model)@.closed() ==> final(model)@.closed(),
            old(model)@.ordered() ==> final(model)@.ordered(),
            match r {
                Ok(()) => entity_built(old(model)@, parent_path@, *entity) == Ok::<
                    ModelView,
                    Seq<char>,
                >(final(model)@),
                Err(e) => entity_built(old(model)@, parent_path@, *entity) == Err::<
                    ModelView,
                    Seq<char>,
                >(e@),
            },
        decreases entity, entity_blocks(*entity).len() + 1,
    {
        let (identifier, plural, span) = match entity {
            Entity::SingularEntity(s) => (&s.value.identifier, None, &s.location),
            Entity::PluralEntity(p) => (
                &p.value.identifier_1,
                Some(trim(p.value.identifier_3.value.as_str())),
                &p.location,
            ),
        };
        let entity_name = trim(identifier.value.as_str());
        let mut path = String::new();
        if !parent_path.is_empty() {
            proof {
                reveal_strlit("/");
            }
            path.append(parent_path);
            path.append("/");
        }
        path.append(entity_name);
        assert(path@ =~= joined_path(parent_path@, entity_name@));
        let location = convert_location(span);
        let entity_id = model.create_entity_at_path(
            parent_path,
            entity_name,
            plural,
            location,
        )?;
        Self::process_entity_definition(model, entity_id, path.as_str(), entity)
    }

    /// Builds the blocks in the body of `entity`, in order.
    fn process_entity_definition(
        model: &mut ConfigModel,
        entity_id: NodeId,
        entity_path: &str,
        entity: &Entity,
    ) -> (r: Result<(), String>)
        requires
            old(model)@.wf(),
        ensures
            final(model)@.wf(),
            old(model)@.closed() ==> final(model)@.closed(),
            old(model)@.ordered() ==> final(model)@.ordered(),
            match r {
                Ok(()) => blocks_built(old(model)@, entity_id, entity_path@, *entity, 0) == Ok::<
                    ModelView,
                    Seq<char>,
                >(final(model)@),
                Err(e) => blocks_built(old(model)@, entity_id, entity_path@, *entity, 0) == Err::<
                    ModelView,
                    Seq<char>,
                >(e@),
            },
        decreases entity, entity_blocks(*entity).len(),
    {
        let definition = match entity {
            Entity::SingularEntity(s) => &s.value.entity_definition,
            Entity::PluralEntity(p) => &p.value.entity_definition,
        };
        match definition {
            None => Ok(()),
            Some(blocks) => {
                let mut i: usize = 0;
                while i < blocks.len()
                    invariant
                        i <= blocks.len(),
                        model@.wf(),
                        old(model)@.closed() ==> model@.closed(),
                        old(model)@.ordered() ==> model@.ordered(),
                        entity_blocks(*entity) == blocks@,
                        blocks_built(old(model)@, entity_id, entity_path@, *entity, 0)
                            == blocks_built(model@, entity_id, entity_path@, *entity, i as nat),
                    decreases blocks.len() - i,
                {
                    let step = match &blocks[i] {
                        NestedBlock::FieldList(list) => Self::process_field_list(
                            model,
                            entity_id,
                            list,
                        ),
                        NestedBlock::Entity(nested) => Self::process_entity(
                            model,
                            entity_path,
                            nested,
                        ),
                    };
                    step?;
                    i += 1;
                }
                Ok(())
            },
        }
    }

    /// Writes the fields of a field list on an entity, in the order in
    /// which they were written.
    fn process_field_list(model: &mut ConfigModel, entity_id: NodeId, field_list: &FieldList) -> (r:
        Result<(), String>)
        requires
            old(model)@.wf(),
        ensures
            final(model)@.wf(),
            old(model)@.closed() ==> final(model)@.closed(),
            old(model)@.ordered() ==> final(model)@.ordered(),
            match r {
                Ok(()) => fields_written(old(model)@, entity_id, flattened(*field_list), 0) == Ok::<
                    ModelView,
                    Seq<char>,
                >(final(model)@),
                Err(e) => fields_written(old(model)@, entity_id, flattened(*field_list), 0)
                    == Err::<ModelView, Seq<char>>(e@),
            },
    {
        let mut fields: Vec<&Field> = Vec::new();
        flatten_into(field_list, &mut fields);
        let ghost all = flattened(*field_list);
        let mut i: usize = 0;
        while i < fields.len()
            invariant
                i <= fields.len(),
                model@.wf(),
                old(model)@.closed() ==> model@.closed(),
                old(model)@.ordered() ==> model@.ordered(),
                all == flattened(*field_list),
                all == fields@.map_values(|f: &Field| *f),
                fields_written(old(model)@, entity_id, all, 0) == fields_written(
                    model@,
                    entity_id,
                    all,
                    i as nat,
                ),
            decreases fields.len() - i,
        {
            Self::add_field_to_entity(model, entity_id, fields[i])?;
            i += 1;
        }
        Ok(())
    }

    /// Writes one field on an entity.
    fn add_field_to_entity(model: &mut ConfigModel, entity_id: NodeId, field: &Field) -> (r: Result<
        (),
        String,
    >)
        requires
            old(model)@.wf(),
        ensures
            final(model)@.wf(),
            old(model)@.closed() ==> final(model)@.closed(),
            old(model)@.ordered() ==> final(model)@.ordered(),
            match r {
                Ok(()) => field_written(old(model)@, entity_id, *field) == Ok::<
                    ModelView,
                    Seq<char>,
                >(final(model)@),
                Err(e) => field_written(old(model)@, entity_id, *field) == Err::<
                    ModelView,
                    Seq<char>,
                >(e@),
            },
    {
        let field_name = trim(field.value.identifier.value.as_str());
        let location = convert_location(&field.location);
        let field_value = Self::convert_field_value(&field.value.field_value)?;
        model.add_field_with_location(entity_id, field_name, field_value, location)
    }

    /// The value that a written field value stands for.
    pub fn convert_field_value(field_value: &FieldValue) -> (r: Result<ConfigValue, String>)
        ensures
            match r {
                Ok(v) => converted(*field_value) == Ok::<ValueView, Seq<char>>(v@),
                Err(e) => converted(*field_value) == Err::<ValueView, Seq<char>>(e@),
            },
    {
        match field_value {
            FieldValue::QuotedStringDouble(s) => Ok(
                ConfigValue::String(strip_quotes(s.value.as_str(), '"')),
            ),
            FieldValue::QuotedStringSingle(s) => Ok(
                ConfigValue::String(strip_quotes(s.value.as_str(), '\'')),
            ),
            FieldValue::Number(n) => {
                let text = trim(n.value.text.as_str());
                if contains_char(text, '.') {
                    match &n.value.float {
                        Some(f) => Ok(
                            ConfigValue::Float(FloatValue { bits: f.bits, text: f.text.clone() }),
                        ),
                        None => Err(prefixed_message("Failed to parse float: ", text)),
                    }
                } else {
                    match parse_integer(text) {
                        Some(i) => Ok(ConfigValue::Integer(i)),
                        None => Err(prefixed_message("Failed to parse integer: ", text)),
                    }
                }
            },
            FieldValue::BooleanTrue => Ok(ConfigValue::Boolean(true)),
            FieldValue::BooleanFalse => Ok(ConfigValue::Boolean(false)),
        }
    }
}

/// The blocks of a body that may be absent.
pub open spec fn definition_blocks(definition: Option<Vec<NestedBlock>>) -> Seq<NestedBlock> {
    match definition {
        Some(blocks) => blocks@,
        None => Seq::empty(),
    }
}

/// Appends the fields of `list` to `out`, in the order in which they
/// were written.
fn flatten_into<'a>(list: &'a FieldList, out: &mut Vec<&'a Field>)
    ensures
        final(out)@.map_values(|f: &Field| *f) == old(out)@.map_values(|f: &Field| *f) + flattened(
            *list,
        ),
    decreases list,
{
    match list {
        FieldList::Field(f) => {
            out.push(f);
        },
        FieldList::C2(c) => {
            flatten_into(&c.value.field_list, out);
            let ghost inner = out@.map_values(|f: &Field| *f);
            out.push(&c.value.field);
            assert(out@.map_values(|f: &Field| *f) =~= inner.push(c.value.field));
        },
    }
}

} // verus!
