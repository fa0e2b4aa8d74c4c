//! The configuration tree: entities that hold fields and nested
//! entities, kept in an arena and related by node ids.
use crate::source_location::{location_view, LocationView, SourceLocation};
use crate::text::{
    decimal, numbered_message, push_signed_decimal, quoted_message, same_text, signed_decimal,
    split_on, split_text,
};
use vstd::prelude::*;
use vstd::string::*;

verus! {

/// The id of a node: its index in the arena.
pub type NodeId = usize;

/// A 64-bit floating-point number, carried as its IEEE 754 bit pattern
/// together with the text that prints it.
#[derive(Debug, PartialEq, Eq)]
pub struct FloatValue {
    pub bits: u64,
    pub text: String,
}

impl Clone for FloatValue {
    fn clone(&self) -> (r: Self)
        ensures
            r == *self,
    {
        FloatValue { bits: self.bits, text: self.text.clone() }
    }
}

/// The value of a field.
#[derive(Debug)]
pub enum ConfigValue {
    Integer(i64),
    Float(FloatValue),
    Boolean(bool),
    String(String),
}

/// What a [`ConfigValue`] holds, with text as sequences of characters.
pub enum ValueView {
    Integer(i64),
    Float { bits: u64, text: Seq<char> },
    Boolean(bool),
    Text(Seq<char>),
}

impl View for ConfigValue {
    type V = ValueView;

    open spec fn view(&self) -> ValueView {
        match *self {
            ConfigValue::Integer(i) => ValueView::Integer(i),
            ConfigValue::Float(f) => ValueView::Float { bits: f.bits, text: f.text@ },
            ConfigValue::Boolean(b) => ValueView::Boolean(b),
            ConfigValue::String(s) => ValueView::Text(s@),
        }
    }
}

impl ValueView {
    /// How the value is written when a model is printed: numbers and
    /// booleans plainly, text between double quotes.
    pub open spec fn text(self) -> Seq<char> {
        match self {
            ValueView::Integer(i) => signed_decimal(i as int),
            ValueView::Float { bits, text } => text,
            ValueView::Boolean(b) => if b {
                "true"@
            } else {
                "false"@
            },
            ValueView::Text(s) => "\""@ + s + "\""@,
        }
    }
}

impl Clone for ConfigValue {
    fn clone(&self) -> (r: Self)
        ensures
            r@ == self@,
    {
        match self {
            ConfigValue::Integer(i) => ConfigValue::Integer(*i),
            ConfigValue::Float(f) => ConfigValue::Float(f.clone()),
            ConfigValue::Boolean(b) => ConfigValue::Boolean(*b),
            ConfigValue::String(s) => ConfigValue::String(s.clone()),
        }
    }
}

impl ConfigValue {
    /// The value as it is written when a model is printed.
    pub fn to_text(&self) -> (r: String)
        ensures
            r@ == self@.text(),
    {
        let mut out = String::new();
        self.push_text(&mut out);
        out
    }

    /// Appends the value, as it is written when a model is printed, to
    /// `out`.
    pub fn push_text(&self, out: &mut String)
        ensures
            final(out)@ == old(out)@ + self@.text(),
    {
        match self {
            ConfigValue::Integer(i) => push_signed_decimal(out, *i),
            ConfigValue::Float(f) => out.append(f.text.as_str()),
            ConfigValue::Boolean(b) => {
                if *b {
                    out.append("true");
                } else {
                    out.append("false");
                }
            },
            ConfigValue::String(s) => {
                out.append("\"");
                out.append(s.as_str());
                out.append("\"");
            },
        }
    }
}

/// The fields of an entity: each name with its value, in the order in
/// which the names were first written, so that what is printed and
/// generated from a model does not depend on hashing. No name occurs
/// twice.
#[derive(Debug)]
pub struct FieldMap {
    entries: Vec<(String, ConfigValue)>,
}

/// The first value that `entries` holds under `name`.
pub open spec fn field_lookup(entries: Seq<(Seq<char>, ValueView)>, name: Seq<char>) -> Option<
    ValueView,
>
    decreases entries.len(),
{
    if entries.len() == 0 {
        None
    } else if entries[0].0 == name {
        Some(entries[0].1)
    } else {
        field_lookup(entries.drop_first(), name)
    }
}

/// The index of the first entry of `entries` under `name`, or the
/// length of `entries` if there is none.
pub open spec fn field_position(entries: Seq<(Seq<char>, ValueView)>, name: Seq<char>) -> int
    decreases entries.len(),
{
    if entries.len() == 0 {
        0
    } else if entries[0].0 == name {
        0
    } else {
        1 + field_position(entries.drop_first(), name)
    }
}

/// `entries` with `value` under `name`: in the place of the value that
/// was there, or else at the end.
pub open spec fn field_upsert(
    entries: Seq<(Seq<char>, ValueView)>,
    name: Seq<char>,
    value: ValueView,
) -> Seq<(Seq<char>, ValueView)> {
    let i = field_position(entries, name);
    if i < entries.len() {
        entries.update(i, (name, value))
    } else {
        entries.push((name, value))
    }
}

/// Whether no name occurs twice in `entries`.
pub open spec fn distinct_names(entries: Seq<(Seq<char>, ValueView)>) -> bool {
    forall|i: int, j: int|
        0 <= i < j < entries.len() ==> (#[trigger] entries[i]).0 != (#[trigger] entries[j]).0
}

/// The position of a name is within bounds, holds that name where it is
/// inside, and no earlier entry holds the name.
pub proof fn lemma_field_position(entries: Seq<(Seq<char>, ValueView)>, name: Seq<char>)
    ensures
        0 <= field_position(entries, name) <= entries.len(),
        field_position(entries, name) < entries.len() ==> entries[field_position(
            entries,
            name,
        )].0 == name,
        forall|k: int| 0 <= k < field_position(entries, name) ==> (#[trigger] entries[k]).0 != name,
        field_lookup(entries, name) == if field_position(entries, name) < entries.len() {
            Some(entries[field_position(entries, name)].1)
        } else {
            None
        },
    decreases entries.len(),
{
    if entries.len() > 0 && entries[0].0 != name {
        let rest = entries.drop_first();
        lemma_field_position(rest, name);
        assert forall|k: int| 0 <= k < field_position(entries, name) implies (
        #[trigger] entries[k]).0 != name by {
            if k > 0 {
                assert(entries[k] == rest[k - 1]);
            }
        }
    }
}

/// A position that holds `name`, with no earlier entry under `name`, is
/// the position of `name`.
pub proof fn lemma_field_position_is(
    entries: Seq<(Seq<char>, ValueView)>,
    name: Seq<char>,
    i: int,
)
    requires
        0 <= i <= entries.len(),
        i < entries.len() ==> entries[i].0 == name,
        forall|k: int| 0 <= k < i ==> (#[trigger] entries[k]).0 != name,
    ensures
        field_position(entries, name) == i,
    decreases entries.len(),
{
    if entries.len() > 0 && entries[0].0 != name {
        let rest = entries.drop_first();
        assert forall|k: int| 0 <= k < i - 1 implies (#[trigger] rest[k]).0 != name by {}
        lemma_field_position_is(rest, name, i - 1);
    }
}

/// Writing a value under a name makes it the value found under that
/// name, leaves what is found under every other name, and keeps the
/// names distinct.
pub proof fn lemma_field_upsert(
    entries: Seq<(Seq<char>, ValueView)>,
    name: Seq<char>,
    value: ValueView,
    other: Seq<char>,
)
    ensures
        field_lookup(field_upsert(entries, name, value), name) == Some(value),
        other != name ==> field_lookup(field_upsert(entries, name, value), other) == field_lookup(
            entries,
            other,
        ),
        distinct_names(entries) ==> distinct_names(field_upsert(entries, name, value)),
{
    let after = field_upsert(entries, name, value);
    let i = field_position(entries, name);
    lemma_field_position(entries, name);
    lemma_field_position_is(after, name, i);
    lemma_field_position(after, name);
    if other != name {
        let j = field_position(entries, other);
        lemma_field_position(entries, other);
        lemma_field_position_is(after, other, if j < entries.len() {
            j
        } else {
            after.len() as int
        });
        lemma_field_position(after, other);
    }
}

impl View for FieldMap {
    type V = Seq<(Seq<char>, ValueView)>;

    closed spec fn view(&self) -> Seq<(Seq<char>, ValueView)> {
        self.entries@.map_values(|e: (String, ConfigValue)| (e.0@, e.1@))
    }
}

impl FieldMap {
    #[verifier::type_invariant]
    closed spec fn names_are_distinct(&self) -> bool {
        distinct_names(self@)
    }

    /// A map without fields.
    pub fn new() -> (r: Self)
        ensures
            r@ == Seq::<(Seq<char>, ValueView)>::empty(),
            distinct_names(r@),
    {
        FieldMap { entries: Vec::new() }
    }

    /// The number of fields. No name occurs twice among them.
    pub fn len(&self) -> (r: usize)
        ensures
            r == self@.len(),
            distinct_names(self@),
    {
        proof {
            use_type_invariant(self);
        }
        self.entries.len()
    }

    /// The name of the field at position `i`.
    pub fn name_at(&self, i: usize) -> (r: &String)
        requires
            i < self@.len(),
        ensures
            r@ == self@[i as int].0,
    {
        &self.entries[i].0
    }

    /// The value of the field at position `i`.
    pub fn value_at(&self, i: usize) -> (r: &ConfigValue)
        requires
            i < self@.len(),
        ensures
            r@ == self@[i as int].1,
    {
        &self.entries[i].1
    }

    fn position(&self, name: &str) -> (i: usize)
        ensures
            i == field_position(self@, name@),
    {
        let mut i: usize = 0;
        while i < self.entries.len()
            invariant
                i <= self.entries.len(),
                forall|k: int| 0 <= k < i ==> (#[trigger] self@[k]).0 != name@,
            decreases self.entries.len() - i,
        {
            if same_text(self.entries[i].0.as_str(), name) {
                proof {
                    lemma_field_position_is(self@, name@, i as int);
                }
                return i;
            }
            i += 1;
        }
        proof {
            lemma_field_position_is(self@, name@, i as int);
        }
        i
    }

    /// The value under `name`, if there is one.
    pub fn get(&self, name: &str) -> (r: Option<&ConfigValue>)
        ensures
            match r {
                Some(v) => field_lookup(self@, name@) == Some(v@),
                None => field_lookup(self@, name@) is None,
            },
    {
        let i = self.position(name);
        proof {
            lemma_field_position(self@, name@);
        }
        if i < self.entries.len() {
            Some(&self.entries[i].1)
        } else {
            None
        }
    }

    /// Writes `value` under `name`: over the value that was there, or
    /// else as a new last field.
    pub fn insert(&mut self, name: String, value: ConfigValue)
        ensures
            final(self)@ == field_upsert(old(self)@, name@, value@),
            distinct_names(final(self)@),
    {
        proof {
            use_type_invariant(&*self);
            lemma_field_upsert(self@, name@, value@, name@);
        }
        let ghost written = field_upsert(self@, name@, value@);
        let i = self.position(name.as_str());
        let mut entries: Vec<(String, ConfigValue)> = Vec::new();
        core::mem::swap(&mut self.entries, &mut entries);
        if i < entries.len() {
            entries[i] = (name, value);
        } else {
            entries.push((name, value));
        }
        assert(entries@.map_values(|e: (String, ConfigValue)| (e.0@, e.1@)) =~= written);
        self.entries = entries;
    }
}

/// The view of a text that may be absent.
pub open spec fn option_text(text: Option<String>) -> Option<Seq<char>> {
    match text {
        Some(t) => Some(t@),
        None => None,
    }
}

/// A field as a node of the tree: a leaf that records one written
/// `name = value`.
#[derive(Debug)]
pub struct ConfigField {
    pub name: String,
    pub value: ConfigValue,
    pub location: Option<SourceLocation>,
}

/// What a [`ConfigField`] holds.
pub struct FieldView {
    pub name: Seq<char>,
    pub value: ValueView,
    pub location: Option<LocationView>,
}

impl View for ConfigField {
    type V = FieldView;

    open spec fn view(&self) -> FieldView {
        FieldView {
            name: self.name@,
            value: self.value@,
            location: location_view(self.location),
        }
    }
}

/// An entity: a named node that holds fields and the ids of its
/// children.
#[derive(Debug)]
pub struct EntityNode {
    /// The name, in its singular form.
    pub name: String,
    /// The plural form, where the entity was declared with one.
    pub plural_name: Option<String>,
    /// The entity under which this one was linked last.
    pub parent: Option<NodeId>,
    /// The children, in document order.
    pub children: Vec<NodeId>,
    /// The fields, by name.
    pub fields: FieldMap,
    pub location: Option<SourceLocation>,
}

/// What an [`EntityNode`] holds.
pub struct EntityView {
    pub name: Seq<char>,
    pub plural_name: Option<Seq<char>>,
    pub parent: Option<NodeId>,
    pub children: Seq<NodeId>,
    pub fields: Seq<(Seq<char>, ValueView)>,
    pub location: Option<LocationView>,
}

impl View for EntityNode {
    type V = EntityView;

    open spec fn view(&self) -> EntityView {
        EntityView {
            name: self.name@,
            plural_name: option_text(self.plural_name),
            parent: self.parent,
            children: self.children@,
            fields: self.fields@,
            location: location_view(self.location),
        }
    }
}

/// A node of the tree.
#[derive(Debug)]
pub enum ConfigNode {
    Entity(EntityNode),
    Field(ConfigField),
}

/// What a [`ConfigNode`] holds.
pub enum NodeView {
    Entity(EntityView),
    Field(FieldView),
}

impl View for ConfigNode {
    type V = NodeView;

    open spec fn view(&self) -> NodeView {
        match *self {
            ConfigNode::Entity(e) => NodeView::Entity(e@),
            ConfigNode::Field(f) => NodeView::Field(f@),
        }
    }
}

impl NodeView {
    /// The name of the node.
    pub open spec fn name(self) -> Seq<char> {
        match self {
            NodeView::Entity(e) => e.name,
            NodeView::Field(f) => f.name,
        }
    }
}

/// An entity named `name`, with `plural_name` and `location`, that says
/// `parent` of its parent and has neither children nor fields.
pub open spec fn fresh_entity(
    name: Seq<char>,
    plural_name: Option<Seq<char>>,
    parent: Option<NodeId>,
    location: Option<LocationView>,
) -> NodeView {
    NodeView::Entity(
        EntityView {
            name,
            plural_name,
            parent,
            children: Seq::empty(),
            fields: Seq::empty(),
            location,
        },
    )
}

impl ConfigNode {
    /// An entity without children and fields.
    pub fn new_entity(
        name: &str,
        plural_name: Option<&str>,
        parent: Option<NodeId>,
        location: Option<SourceLocation>,
    ) -> (r: Self)
        ensures
            r@ == fresh_entity(
                name@,
                match plural_name {
                    Some(p) => Some(p@),
                    None => None,
                },
                parent,
                location_view(location),
            ),
    {
        let plural = match plural_name {
            Some(p) => Some(p.to_owned()),
            None => None,
        };
        ConfigNode::Entity(
            EntityNode {
                name: name.to_owned(),
                plural_name: plural,
                parent,
                children: Vec::new(),
                fields: FieldMap::new(),
                location,
            },
        )
    }

    /// A field node.
    pub fn new_field(name: &str, value: ConfigValue, location: Option<SourceLocation>) -> (r: Self)
        ensures
            r@ == NodeView::Field(
                FieldView { name: name@, value: value@, location: location_view(location) },
            ),
    {
        ConfigNode::Field(ConfigField { name: name.to_owned(), value, location })
    }

    /// The name of the node.
    pub fn name(&self) -> (r: &str)
        ensures
            r@ == self@.name(),
    {
        match self {
            ConfigNode::Entity(entity) => entity.name.as_str(),
            ConfigNode::Field(field) => field.name.as_str(),
        }
    }

    /// Whether the node is an entity.
    pub fn is_entity(&self) -> (r: bool)
        ensures
            r == (self@ is Entity),
    {
        match self {
            ConfigNode::Entity(_) => true,
            ConfigNode::Field(_) => false,
        }
    }

    /// Whether the node is a field.
    pub fn is_field(&self) -> (r: bool)
        ensures
            r == (self@ is Field),
    {
        match self {
            ConfigNode::Entity(_) => false,
            ConfigNode::Field(_) => true,
        }
    }
}

/// The model that holds a whole configuration: the arena of its nodes,
/// of which the first is the root entity, and the table that gives a
/// sanitized entity name its original written form.
#[derive(Debug)]
pub struct ConfigModel {
    nodes: Vec<ConfigNode>,
    original_entity_names: Vec<(String, String)>,
}

/// What a [`ConfigModel`] holds: the nodes by id, and the original
/// form of each sanitized name that has one.
pub struct ModelView {
    pub nodes: Seq<NodeView>,
    pub names: Map<Seq<char>, Seq<char>>,
}

/// The map that holds, for each name of `pairs`, the original form
/// that the last pair under the name gives: what the pairs come to when
/// they are written into a map one after another.
pub open spec fn name_map(pairs: Seq<(Seq<char>, Seq<char>)>) -> Map<Seq<char>, Seq<char>>
    decreases pairs.len(),
{
    if pairs.len() == 0 {
        Map::empty()
    } else {
        name_map(pairs.drop_last()).insert(pairs.last().0, pairs.last().1)
    }
}

/// The original form that `names` gives for `name`, or `name` itself
/// where it gives none.
pub open spec fn original_name(names: Map<Seq<char>, Seq<char>>, name: Seq<char>) -> Seq<char> {
    if names.dom().contains(name) {
        names[name]
    } else {
        name
    }
}

impl ModelView {
    /// The id of the root.
    pub open spec fn root(self) -> NodeId {
        0
    }

    /// Whether the model has its root entity.
    pub open spec fn wf(self) -> bool {
        self.nodes.len() > 0 && self.nodes[0] is Entity
    }

    /// Whether every child id in the model is the id of a node.
    pub open spec fn closed(self) -> bool {
        forall|id: NodeId, k: int|
            self.is_entity(id) && 0 <= k < self.entity(id).children.len() ==> (
            #[trigger] self.entity(id).children[k]) < self.nodes.len()
    }

    /// Whether every child id is the id of a node and greater than the
    /// id of the entity that holds it. Such a model has no cycle: its
    /// entities form trees, a parent before its children.
    pub open spec fn ordered(self) -> bool {
        forall|id: NodeId, k: int|
            self.is_entity(id) && 0 <= k < self.entity(id).children.len() ==> id < (
            #[trigger] self.entity(id).children[k]) < self.nodes.len()
    }

    /// Whether `id` is the id of an entity.
    pub open spec fn is_entity(self, id: NodeId) -> bool {
        id < self.nodes.len() && self.nodes[id as int] is Entity
    }

    /// The entity with id `id`.
    pub open spec fn entity(self, id: NodeId) -> EntityView
        recommends
            self.is_entity(id),
    {
        self.nodes[id as int]->Entity_0
    }

    /// Whether `id` is the id of an entity named `name`.
    pub open spec fn is_entity_named(self, id: NodeId, name: Seq<char>) -> bool {
        self.is_entity(id) && self.entity(id).name == name
    }

    /// The model with `node` as a new last node.
    pub open spec fn with_node(self, node: NodeView) -> ModelView {
        ModelView { nodes: self.nodes.push(node), ..self }
    }

    /// Why `child` cannot be linked under `parent`, if it cannot.
    pub open spec fn link_error(self, parent: NodeId, child: NodeId) -> Option<Seq<char>> {
        if parent >= self.nodes.len() {
            Some("Parent node with ID "@ + decimal(parent as nat) + " not found"@)
        } else if child >= self.nodes.len() {
            Some("Child node with ID "@ + decimal(child as nat) + " not found"@)
        } else if self.nodes[parent as int] is Field {
            Some("Parent node with ID "@ + decimal(parent as nat) + " is not an entity"@)
        } else {
            None
        }
    }

    /// The model with `child` as a new last child of the entity
    /// `parent`, and with `parent` as the parent of `child` where
    /// `child` is an entity.
    pub open spec fn linked(self, parent: NodeId, child: NodeId) -> ModelView
        recommends
            self.link_error(parent, child) is None,
    {
        let p = self.entity(parent);
        let appended = self.nodes.update(
            parent as int,
            NodeView::Entity(EntityView { children: p.children.push(child), ..p }),
        );
        let nodes = match appended[child as int] {
            NodeView::Entity(c) => appended.update(
                child as int,
                NodeView::Entity(EntityView { parent: Some(parent), ..c }),
            ),
            NodeView::Field(_) => appended,
        };
        ModelView { nodes, ..self }
    }

    /// Why no field can be written on `id`, if none can.
    pub open spec fn field_error(self, id: NodeId) -> Option<Seq<char>> {
        if id >= self.nodes.len() {
            Some("Entity node with ID "@ + decimal(id as nat) + " not found"@)
        } else if self.nodes[id as int] is Field {
            Some("Node with ID "@ + decimal(id as nat) + " is not an entity"@)
        } else {
            None
        }
    }

    /// The model with `value` under `name` in the field map of the
    /// entity `id`.
    pub open spec fn with_field(self, id: NodeId, name: Seq<char>, value: ValueView) -> ModelView
        recommends
            self.is_entity(id),
    {
        let e = self.entity(id);
        ModelView {
            nodes: self.nodes.update(
                id as int,
                NodeView::Entity(EntityView { fields: field_upsert(e.fields, name, value), ..e }),
            ),
            ..self
        }
    }

    /// The model with `value` under `name` in the field map of the
    /// entity `id`, and with a new field node, the last child of `id`,
    /// that records the write.
    pub open spec fn with_located_field(
        self,
        id: NodeId,
        name: Seq<char>,
        value: ValueView,
        location: Option<LocationView>,
    ) -> ModelView
        recommends
            self.is_entity(id),
    {
        self.with_field(id, name, value).with_node(
            NodeView::Field(FieldView { name, value, location }),
        ).linked(id, self.nodes.len() as NodeId)
    }

    /// The value under `name` in the field map of `id`, if `id` is an
    /// entity that has one.
    pub open spec fn field_value(self, id: NodeId, name: Seq<char>) -> Option<ValueView> {
        if self.is_entity(id) {
            field_lookup(self.entity(id).fields, name)
        } else {
            None
        }
    }

    /// The first of `children` that is an entity named `name`.
    pub open spec fn first_named(self, children: Seq<NodeId>, name: Seq<char>) -> Option<NodeId>
        decreases children.len(),
    {
        if children.len() == 0 {
            None
        } else if self.is_entity_named(children[0], name) {
            Some(children[0])
        } else {
            self.first_named(children.drop_first(), name)
        }
    }

    /// The first child of `parent` that is an entity named `name`.
    pub open spec fn child_named(self, parent: NodeId, name: Seq<char>) -> Option<NodeId> {
        if self.is_entity(parent) {
            self.first_named(self.entity(parent).children, name)
        } else {
            None
        }
    }

    /// The entity reached from `from` by going, for each of `segments`
    /// in turn, to the first child entity of that name.
    pub open spec fn walk(self, from: NodeId, segments: Seq<Seq<char>>) -> Option<NodeId>
        decreases segments.len(),
    {
        if segments.len() == 0 {
            Some(from)
        } else {
            match self.child_named(from, segments[0]) {
                Some(c) => self.walk(c, segments.drop_first()),
                None => None,
            }
        }
    }

    /// The entity at `path`, a list of entity names separated by `/`
    /// that leads down from the root. The empty path is the root.
    pub open spec fn find(self, path: Seq<char>) -> Option<NodeId> {
        if path.len() == 0 {
            Some(self.root())
        } else {
            self.walk(self.root(), split_on(path, '/'))
        }
    }

    /// The model with a new entity as the last node and the last child
    /// of `parent`.
    pub open spec fn created(
        self,
        parent: NodeId,
        name: Seq<char>,
        plural_name: Option<Seq<char>>,
        location: Option<LocationView>,
    ) -> ModelView
        recommends
            self.is_entity(parent),
    {
        self.with_node(fresh_entity(name, plural_name, Some(parent), location)).linked(
            parent,
            self.nodes.len() as NodeId,
        )
    }

    /// The name under which an entity named `name` is shown.
    pub open spec fn display_name(self, name: Seq<char>) -> Seq<char> {
        original_name(self.names, name)
    }
}

/// The views of a list of name pairs.
pub open spec fn name_pairs(names: Seq<(String, String)>) -> Seq<(Seq<char>, Seq<char>)> {
    names.map_values(|p: (String, String)| (p.0@, p.1@))
}

impl View for ConfigModel {
    type V = ModelView;

    closed spec fn view(&self) -> ModelView {
        ModelView {
            nodes: self.nodes@.map_values(|n: ConfigNode| n@),
            names: name_map(name_pairs(self.original_entity_names@)),
        }
    }
}

impl ConfigModel {
    /// A model that holds only the root: an entity named `root`, without
    /// a parent.
    pub fn new() -> (r: Self)
        ensures
            r@.wf(),
            r@.ordered(),
            r@.nodes == seq![fresh_entity("root"@, None, None, None)],
            r@.names == Map::<Seq<char>, Seq<char>>::empty(),
    {
        let mut nodes: Vec<ConfigNode> = Vec::new();
        nodes.push(ConfigNode::new_entity("root", None, None, None));
        ConfigModel { nodes, original_entity_names: Vec::new() }
    }

    /// Sets the table of original names from pairs of a sanitized name
    /// and the form in which the name was written. Of two pairs under
    /// one name the later holds.
    pub fn set_original_entity_names(&mut self, names: Vec<(String, String)>)
        ensures
            final(self)@ == (ModelView { names: name_map(name_pairs(names@)), ..old(self)@ }),
    {
        self.original_entity_names = names;
    }

    /// The original form of an entity name, or the name itself where
    /// the table has none.
    pub fn get_original_entity_name(&self, sanitized_name: &str) -> (r: String)
        ensures
            r@ == self@.display_name(sanitized_name@),
    {
        let ghost all = name_pairs(self.original_entity_names@);
        let mut i: usize = self.original_entity_names.len();
        assert(all.take(i as int) =~= all);
        while i > 0
            invariant
                i <= self.original_entity_names.len(),
                all == name_pairs(self.original_entity_names@),
                original_name(name_map(all), sanitized_name@) == original_name(
                    name_map(all.take(i as int)),
                    sanitized_name@,
                ),
            decreases i,
        {
            assert(all.take(i as int).drop_last() =~= all.take(i - 1));
            if same_text(self.original_entity_names[i - 1].0.as_str(), sanitized_name) {
                return self.original_entity_names[i - 1].1.clone();
            }
            i -= 1;
        }
        sanitized_name.to_owned()
    }

    /// Adds `node` and returns its id, the number of nodes before.
    pub fn add_node(&mut self, node: ConfigNode) -> (id: NodeId)
        ensures
            id == old(self)@.nodes.len(),
            final(self)@ == old(self)@.with_node(node@),
            old(self)@.wf() ==> final(self)@.wf(),
    {
        let id = self.nodes.len();
        self.nodes.push(node);
        assert(self@.nodes =~= old(self)@.nodes.push(node@));
        id
    }

    /// The node with id `id`, if there is one.
    pub fn get_node(&self, id: NodeId) -> (r: Option<&ConfigNode>)
        ensures
            match r {
                Some(n) => id < self@.nodes.len() && n@ == self@.nodes[id as int],
                None => id >= self@.nodes.len(),
            },
    {
        if id < self.nodes.len() {
            Some(&self.nodes[id])
        } else {
            None
        }
    }

    /// The number of nodes.
    pub fn node_count(&self) -> (r: usize)
        ensures
            r == self@.nodes.len(),
    {
        self.nodes.len()
    }

    /// The id of the root.
    pub fn root_id(&self) -> (r: NodeId)
        ensures
            r == self@.root(),
    {
        0
    }

    /// Links `child_id` under `parent_id`: it becomes the last child of
    /// the parent and, where it is an entity, takes the parent as its
    /// own. A child that already stands under another entity stays in
    /// that entity's children too.
    pub fn add_child(&mut self, parent_id: NodeId, child_id: NodeId) -> (r: Result<(), String>)
        ensures
            old(self)@.wf() ==> final(self)@.wf(),
            match r {
                Ok(()) => old(self)@.link_error(parent_id, child_id) is None && final(self)@ == old(
                    self,
                )@.linked(parent_id, child_id),
                Err(e) => old(self)@.link_error(parent_id, child_id) == Some(e@) && final(self)@
                    == old(self)@,
            },
    {
        if parent_id >= self.nodes.len() {
            return Err(numbered_message("Parent node with ID ", parent_id, " not found"));
        }
        if child_id >= self.nodes.len() {
            return Err(numbered_message("Child node with ID ", child_id, " not found"));
        }
        match &mut self.nodes[parent_id] {
            ConfigNode::Entity(entity) => {
                entity.children.push(child_id);
            },
            ConfigNode::Field(_) => {
                assert(self@.nodes =~= old(self)@.nodes);
                return Err(
                    numbered_message("Parent node with ID ", parent_id, " is not an entity"),
                );
            },
        }
        match &mut self.nodes[child_id] {
            ConfigNode::Entity(entity) => {
                entity.parent = Some(parent_id);
            },
            ConfigNode::Field(_) => {},
        }
        assert(self@.nodes =~= old(self)@.linked(parent_id, child_id).nodes);
        Ok(())
    }

    /// Writes `value` under `field_name` in the field map of the entity
    /// `entity_id`. The tree gets no node for the write.
    pub fn add_field_to_entity(
        &mut self,
        entity_id: NodeId,
        field_name: &str,
        value: ConfigValue,
    ) -> (r: Result<(), String>)
        ensures
            old(self)@.wf() ==> final(self)@.wf(),
            old(self)@.closed() ==> final(self)@.closed(),
            old(self)@.ordered() ==> final(self)@.ordered(),
            match r {
                Ok(()) => old(self)@.field_error(entity_id) is None && final(self)@ == old(
                    self,
                )@.with_field(entity_id, field_name@, value@),
                Err(e) => old(self)@.field_error(entity_id) == Some(e@) && final(self)@ == old(
                    self,
                )@,
            },
    {
        if entity_id >= self.nodes.len() {
            return Err(numbered_message("Entity node with ID ", entity_id, " not found"));
        }
        match &mut self.nodes[entity_id] {
            ConfigNode::Entity(entity) => {
                entity.fields.insert(field_name.to_owned(), value);
            },
            ConfigNode::Field(_) => {
                assert(self@.nodes =~= old(self)@.nodes);
                return Err(numbered_message("Node with ID ", entity_id, " is not an entity"));
            },
        }
        assert(self@.nodes =~= old(self)@.with_field(entity_id, field_name@, value@).nodes);
        proof {
            if old(self)@.closed() {
                assert forall|id: NodeId, k: int|
                    self@.is_entity(id) && 0 <= k < self@.entity(id).children.len() implies (
                #[trigger] self@.entity(id).children[k]) < self@.nodes.len() by {
                    assert(old(self)@.entity(id).children[k] < old(self)@.nodes.len());
                }
            }
            if old(self)@.ordered() {
                assert forall|id: NodeId, k: int|
                    self@.is_entity(id) && 0 <= k < self@.entity(id).children.len() implies id < (
                #[trigger] self@.entity(id).children[k]) < self@.nodes.len() by {
                    assert(id < old(self)@.entity(id).children[k] < old(self)@.nodes.len());
                }
            }
        }
        Ok(())
    }

    /// Writes `value` under `field_name` in the field map of the entity
    /// `entity_id`, and records the write as a field node, the new last
    /// child of the entity.
    pub fn add_field_with_location(
        &mut self,
        entity_id: NodeId,
        field_name: &str,
        value: ConfigValue,
        location: Option<SourceLocation>,
    ) -> (r: Result<(), String>)
        ensures
            old(self)@.wf() ==> final(self)@.wf(),
            old(self)@.closed() ==> final(self)@.closed(),
            old(self)@.ordered() ==> final(self)@.ordered(),
            match r {
                Ok(()) => old(self)@.field_error(entity_id) is None && final(self)@ == old(
                    self,
                )@.with_located_field(
                    entity_id,
                    field_name@,
                    value@,
                    location_view(location),
                ),
                Err(e) => old(self)@.field_error(entity_id) == Some(e@) && final(self)@ == old(
                    self,
                )@,
            },
    {
        self.add_field_to_entity(entity_id, field_name, value.clone())?;
        let field_node = ConfigNode::new_field(field_name, value, location);
        let field_id = self.add_node(field_node);
        let count = self.nodes.len();
        proof {
            assert(self@.nodes.len() == self.nodes@.len());
            if old(self)@.closed() {
                old(self)@.lemma_located_field_closed(
                    entity_id,
                    field_name@,
                    value@,
                    location_view(location),
                );
            }
            if old(self)@.ordered() {
                old(self)@.lemma_field_ordered(
                    entity_id,
                    field_name@,
                    value@,
                    location_view(location),
                );
            }
        }
        self.add_child(entity_id, field_id)
    }

    /// The first child of `parent_id` that is an entity named
    /// `child_name`.
    #[verifier::loop_isolation(false)]
    pub fn find_child_entity_by_name(&self, parent_id: NodeId, child_name: &str) -> (r: Option<
        NodeId,
    >)
        ensures
            r == self@.child_named(parent_id, child_name@),
    {
        if parent_id >= self.nodes.len() {
            return None;
        }
        match &self.nodes[parent_id] {
            ConfigNode::Entity(parent) => {
                let ghost all = parent.children@;
                let mut k: usize = 0;
                assert(all.skip(0) =~= all);
                while k < parent.children.len()
                    invariant
                        k <= parent.children.len(),
                        all == parent.children@,
                        self@.first_named(all, child_name@) == self@.first_named(
                            all.skip(k as int),
                            child_name@,
                        ),
                    decreases parent.children.len() - k,
                {
                    let child_id = parent.children[k];
                    assert(all.skip(k as int).drop_first() =~= all.skip(k + 1));
                    if child_id < self.nodes.len() {
                        match &self.nodes[child_id] {
                            ConfigNode::Entity(child) => {
                                if same_text(child.name.as_str(), child_name) {
                                    return Some(child_id);
                                }
                            },
                            ConfigNode::Field(_) => {},
                        }
                    }
                    k += 1;
                }
                None
            },
            ConfigNode::Field(_) => None,
        }
    }

    /// The entity at `path`, for example `llm/openai`: from the root,
    /// each name leads to the first child entity of that name. The
    /// empty path is the root.
    #[verifier::loop_isolation(false)]
    pub fn find_entity_by_path(&self, path: &str) -> (r: Option<NodeId>)
        ensures
            r == self@.find(path@),
    {
        if path.is_empty() {
            return Some(0);
        }
        let segments = split_text(path, '/');
        let ghost all = split_on(path@, '/');
        let mut current: NodeId = 0;
        let mut k: usize = 0;
        assert(all.skip(0) =~= all);
        while k < segments.len()
            invariant
                k <= segments.len(),
                all == crate::text::text_views(segments@),
                self@.walk(0, all) == self@.walk(current, all.skip(k as int)),
            decreases segments.len() - k,
        {
            assert(all.skip(k as int).drop_first() =~= all.skip(k + 1));
            match self.find_child_entity_by_name(current, segments[k]) {
                Some(next) => {
                    current = next;
                },
                None => {
                    return None;
                },
            }
            k += 1;
        }
        Some(current)
    }

    /// Creates an entity named `name` under the entity at `path`, as its
    /// last child, and returns the id of the new entity. It fails where
    /// the path leads nowhere.
    pub fn create_entity_at_path(
        &mut self,
        path: &str,
        name: &str,
        plural_name: Option<&str>,
        location: Option<SourceLocation>,
    ) -> (r: Result<NodeId, String>)
        requires
            old(self)@.wf(),
        ensures
            final(self)@.wf(),
            old(self)@.closed() ==> final(self)@.closed(),
            old(self)@.ordered() ==> final(self)@.ordered(),
            match r {
                Ok(id) => old(self)@.find(path@) matches Some(parent) && id == old(
                    self,
                )@.nodes.len() && final(self)@ == old(self)@.created(
                    parent,
                    name@,
                    match plural_name {
                        Some(p) => Some(p@),
                        None => None,
                    },
                    location_view(location),
                ),
                Err(e) => old(self)@.find(path@) is None && e@ == "Parent path \'"@ + path@
                    + "\' not found"@ && final(self)@ == old(self)@,
            },
    {
        let parent_id = match self.find_entity_by_path(path) {
            Some(id) => id,
            None => {
                return Err(quoted_message("Parent path \'", path, "\' not found"));
            },
        };
        proof {
            self@.lemma_find_is_entity(path@);
        }
        let entity = ConfigNode::new_entity(name, plural_name, Some(parent_id), location);
        let entity_id = self.add_node(entity);
        let count = self.nodes.len();
        proof {
            if old(self)@.closed() {
                old(self)@.lemma_created_closed(
                    parent_id,
                    name@,
                    match plural_name {
                        Some(p) => Some(p@),
                        None => None,
                    },
                    location_view(location),
                );
            }
            if old(self)@.ordered() {
                old(self)@.lemma_created_ordered(
                    parent_id,
                    name@,
                    match plural_name {
                        Some(p) => Some(p@),
                        None => None,
                    },
                    location_view(location),
                );
            }
        }
        match self.add_child(parent_id, entity_id) {
            Ok(()) => Ok(entity_id),
            Err(e) => Err(e),
        }
    }

    /// The value under `field_name` in the field map of `entity_id`.
    pub fn get_field_value(&self, entity_id: NodeId, field_name: &str) -> (r: Option<ConfigValue>)
        ensures
            match r {
                Some(v) => self@.field_value(entity_id, field_name@) == Some(v@),
                None => self@.field_value(entity_id, field_name@) is None,
            },
    {
        if entity_id >= self.nodes.len() {
            return None;
        }
        match &self.nodes[entity_id] {
            ConfigNode::Entity(entity) => match entity.fields.get(field_name) {
                Some(v) => Some(v.clone()),
                None => None,
            },
            ConfigNode::Field(_) => None,
        }
    }
}

impl ModelView {
    /// What is found among children is an entity.
    pub proof fn lemma_first_named_is_entity(self, children: Seq<NodeId>, name: Seq<char>)
        ensures
            self.first_named(children, name) matches Some(c) ==> self.is_entity_named(c, name)
                && children.contains(c),
        decreases children.len(),
    {
        if children.len() > 0 && !self.is_entity_named(children[0], name) {
            self.lemma_first_named_is_entity(children.drop_first(), name);
            if self.first_named(children, name) is Some {
                let c = self.first_named(children, name).unwrap();
                let k = choose|k: int|
                    0 <= k < children.drop_first().len() && children.drop_first()[k] == c;
                assert(children[k + 1] == c);
            }
        }
    }

    /// What a walk from an entity reaches is an entity.
    pub proof fn lemma_walk_is_entity(self, from: NodeId, segments: Seq<Seq<char>>)
        requires
            self.is_entity(from),
        ensures
            self.walk(from, segments) matches Some(id) ==> self.is_entity(id),
        decreases segments.len(),
    {
        if segments.len() > 0 {
            self.lemma_first_named_is_entity(self.entity(from).children, segments[0]);
            match self.child_named(from, segments[0]) {
                Some(c) => self.lemma_walk_is_entity(c, segments.drop_first()),
                None => {},
            }
        }
    }

    /// A closed model stays closed when a child that exists is linked
    /// under an entity.
    pub proof fn lemma_linked_closed(self, parent: NodeId, child: NodeId)
        requires
            self.closed(),
            self.is_entity(parent),
            child < self.nodes.len(),
        ensures
            self.linked(parent, child).closed(),
            self.wf() ==> self.linked(parent, child).wf(),
    {
        let after = self.linked(parent, child);
        assert forall|id: NodeId, k: int|
            after.is_entity(id) && 0 <= k < after.entity(id).children.len() implies (
        #[trigger] after.entity(id).children[k]) < after.nodes.len() by {
            if id != parent || k < self.entity(id).children.len() {
                assert(self.entity(id).children[k] < self.nodes.len());
            }
        }
    }

    /// An ordered model stays ordered when a later node is linked under
    /// an entity.
    pub proof fn lemma_linked_ordered(self, parent: NodeId, child: NodeId)
        requires
            self.ordered(),
            self.is_entity(parent),
            parent < child < self.nodes.len(),
        ensures
            self.linked(parent, child).ordered(),
    {
        let after = self.linked(parent, child);
        assert forall|id: NodeId, k: int|
            after.is_entity(id) && 0 <= k < after.entity(id).children.len() implies id < (
        #[trigger] after.entity(id).children[k]) < after.nodes.len() by {
            if id != parent || k < self.entity(id).children.len() {
                assert(id < self.entity(id).children[k] < self.nodes.len());
            }
        }
    }

    /// An ordered model stays ordered when an entity is created in it.
    pub proof fn lemma_created_ordered(
        self,
        parent: NodeId,
        name: Seq<char>,
        plural_name: Option<Seq<char>>,
        location: Option<LocationView>,
    )
        requires
            self.ordered(),
            self.is_entity(parent),
            self.nodes.len() < usize::MAX,
        ensures
            self.created(parent, name, plural_name, location).ordered(),
    {
        let grown = self.with_node(fresh_entity(name, plural_name, Some(parent), location));
        assert forall|id: NodeId, k: int|
            grown.is_entity(id) && 0 <= k < grown.entity(id).children.len() implies id < (
        #[trigger] grown.entity(id).children[k]) < grown.nodes.len() by {
            if id < self.nodes.len() {
                assert(id < self.entity(id).children[k] < self.nodes.len());
            }
        }
        grown.lemma_linked_ordered(parent, self.nodes.len() as NodeId);
    }

    /// An ordered model stays ordered when a field is written, with or
    /// without its field node.
    pub proof fn lemma_field_ordered(
        self,
        id: NodeId,
        name: Seq<char>,
        value: ValueView,
        location: Option<LocationView>,
    )
        requires
            self.ordered(),
            self.is_entity(id),
            self.nodes.len() < usize::MAX,
        ensures
            self.with_field(id, name, value).ordered(),
            self.with_located_field(id, name, value, location).ordered(),
    {
        let written = self.with_field(id, name, value);
        assert forall|e: NodeId, k: int|
            written.is_entity(e) && 0 <= k < written.entity(e).children.len() implies e < (
        #[trigger] written.entity(e).children[k]) < written.nodes.len() by {}
        let grown = written.with_node(NodeView::Field(FieldView { name, value, location }));
        assert forall|e: NodeId, k: int|
            grown.is_entity(e) && 0 <= k < grown.entity(e).children.len() implies e < (
        #[trigger] grown.entity(e).children[k]) < grown.nodes.len() by {}
        grown.lemma_linked_ordered(id, self.nodes.len() as NodeId);
    }

    /// An ordered model is closed.
    pub proof fn lemma_ordered_is_closed(self)
        requires
            self.ordered(),
        ensures
            self.closed(),
    {
        assert forall|id: NodeId, k: int|
            self.is_entity(id) && 0 <= k < self.entity(id).children.len() implies (
        #[trigger] self.entity(id).children[k]) < self.nodes.len() by {}
    }

    /// A closed model stays closed when an entity is created in it.
    pub proof fn lemma_created_closed(
        self,
        parent: NodeId,
        name: Seq<char>,
        plural_name: Option<Seq<char>>,
        location: Option<LocationView>,
    )
        requires
            self.closed(),
            self.is_entity(parent),
            self.nodes.len() < usize::MAX,
        ensures
            self.created(parent, name, plural_name, location).closed(),
            self.wf() ==> self.created(parent, name, plural_name, location).wf(),
    {
        let grown = self.with_node(fresh_entity(name, plural_name, Some(parent), location));
        assert forall|id: NodeId, k: int|
            grown.is_entity(id) && 0 <= k < grown.entity(id).children.len() implies (
        #[trigger] grown.entity(id).children[k]) < grown.nodes.len() by {
            if id < self.nodes.len() {
                assert(self.entity(id).children[k] < self.nodes.len());
            }
        }
        grown.lemma_linked_closed(parent, self.nodes.len() as NodeId);
    }

    /// A closed model stays closed when a field is written with its
    /// field node.
    pub proof fn lemma_located_field_closed(
        self,
        id: NodeId,
        name: Seq<char>,
        value: ValueView,
        location: Option<LocationView>,
    )
        requires
            self.closed(),
            self.is_entity(id),
            self.nodes.len() < usize::MAX,
        ensures
            self.with_located_field(id, name, value, location).closed(),
            self.wf() ==> self.with_located_field(id, name, value, location).wf(),
    {
        let written = self.with_field(id, name, value);
        let grown = written.with_node(NodeView::Field(FieldView { name, value, location }));
        assert forall|e: NodeId, k: int|
            grown.is_entity(e) && 0 <= k < grown.entity(e).children.len() implies (
        #[trigger] grown.entity(e).children[k]) < grown.nodes.len() by {}
        grown.lemma_linked_closed(id, self.nodes.len() as NodeId);
    }

    /// What a path leads to is an entity.
    pub proof fn lemma_find_is_entity(self, path: Seq<char>)
        requires
            self.wf(),
        ensures
            self.find(path) matches Some(id) ==> self.is_entity(id),
    {
        if path.len() > 0 {
            self.lemma_walk_is_entity(self.root(), split_on(path, '/'));
        }
    }
}

} // verus!
