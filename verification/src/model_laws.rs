//! Laws of the configuration tree, stated over the views of the model
//! and proved from the definitions of its operations.
use crate::config_model::{
    lemma_field_upsert, name_map, original_name, FieldView, ModelView, NodeId, NodeView,
    ValueView,
};
use crate::source_location::LocationView;
use crate::text::split_on;
use vstd::prelude::*;

verus! {

/// The path of an entity named `name` under the entity at `path`.
pub open spec fn joined_path(path: Seq<char>, name: Seq<char>) -> Seq<char> {
    if path.len() == 0 {
        name
    } else {
        path + seq!['/'] + name
    }
}

/// A text without the separator is a single part.
pub proof fn lemma_split_plain(s: Seq<char>, sep: char)
    requires
        !s.contains(sep),
    ensures
        split_on(s, sep) == seq![s],
    decreases s.len(),
{
    if s.len() == 0 {
        assert(s =~= Seq::<char>::empty());
    } else {
        let front = s.drop_last();
        lemma_split_plain(front, sep);
        assert(front.push(s.last()) =~= s);
    }
}

/// Splitting a text, a separator and a part without separator gives the
/// parts of the text and then that part.
pub proof fn lemma_split_joined(s: Seq<char>, sep: char, part: Seq<char>)
    requires
        !part.contains(sep),
    ensures
        split_on(s + seq![sep] + part, sep) == split_on(s, sep).push(part),
    decreases part.len(),
{
    let whole = s + seq![sep] + part;
    if part.len() == 0 {
        assert(whole.drop_last() =~= s);
        assert(part =~= Seq::<char>::empty());
    } else {
        let front = part.drop_last();
        lemma_split_joined(s, sep, front);
        assert(whole.drop_last() =~= s + seq![sep] + front);
        assert(front.push(part.last()) =~= part);
    }
}

impl ModelView {
    /// Walking one more segment is looking for a child of where the
    /// walk arrived.
    pub proof fn lemma_walk_push(self, from: NodeId, segments: Seq<Seq<char>>, last: Seq<char>)
        ensures
            self.walk(from, segments.push(last)) == match self.walk(from, segments) {
                Some(p) => self.child_named(p, last),
                None => None,
            },
        decreases segments.len(),
    {
        let all = segments.push(last);
        if segments.len() == 0 {
            match self.child_named(from, last) {
                Some(c) => {
                    assert(self.walk(c, all.drop_first()) == Some(c));
                },
                None => {},
            }
        } else {
            assert(all.drop_first() =~= segments.drop_first().push(last));
            match self.child_named(from, segments[0]) {
                Some(c) => self.lemma_walk_push(c, segments.drop_first(), last),
                None => {},
            }
        }
    }

    /// Looking among children with one more at the end finds what was
    /// found before, or else that last one if it has the name.
    pub proof fn lemma_first_named_push(self, children: Seq<NodeId>, last: NodeId, name: Seq<char>)
        ensures
            self.first_named(children.push(last), name) == match self.first_named(children, name) {
                Some(c) => Some(c),
                None => if self.is_entity_named(last, name) {
                    Some(last)
                } else {
                    None
                },
            },
        decreases children.len(),
    {
        let all = children.push(last);
        if children.len() == 0 {
            assert(all.drop_first() =~= children);
        } else {
            assert(all.drop_first() =~= children.drop_first().push(last));
            if !self.is_entity_named(children[0], name) {
                self.lemma_first_named_push(children.drop_first(), last, name);
            }
        }
    }

    /// Two models that agree on which ids are entities of which name
    /// find the same among the same children.
    pub proof fn lemma_first_named_agrees(
        self,
        other: ModelView,
        children: Seq<NodeId>,
        name: Seq<char>,
    )
        requires
            forall|k: int|
                0 <= k < children.len() ==> self.is_entity_named(#[trigger] children[k], name)
                    == other.is_entity_named(children[k], name),
        ensures
            self.first_named(children, name) == other.first_named(children, name),
        decreases children.len(),
    {
        if children.len() > 0 {
            let rest = children.drop_first();
            self.lemma_first_named_agrees(other, rest, name);
        }
    }

    /// A walk that succeeds in a closed model succeeds in the same way
    /// once an entity has been created in the model.
    pub proof fn lemma_walk_after_created(
        self,
        parent: NodeId,
        name: Seq<char>,
        plural_name: Option<Seq<char>>,
        location: Option<LocationView>,
        from: NodeId,
        segments: Seq<Seq<char>>,
    )
        requires
            self.closed(),
            self.is_entity(parent),
            self.nodes.len() < usize::MAX,
            self.walk(from, segments) is Some,
        ensures
            self.created(parent, name, plural_name, location).walk(from, segments) == self.walk(
                from,
                segments,
            ),
        decreases segments.len(),
    {
        let after = self.created(parent, name, plural_name, location);
        if segments.len() > 0 {
            let wanted = segments[0];
            let next = self.child_named(from, wanted).unwrap();
            let children = self.entity(from).children;
            self.lemma_first_named_agrees(after, children, wanted);
            if from == parent {
                after.lemma_first_named_push(children, self.nodes.len() as NodeId, wanted);
            }
            self.lemma_walk_after_created(
                parent,
                name,
                plural_name,
                location,
                next,
                segments.drop_first(),
            );
        }
    }
}

/// An entity created at a path is found at that path and its name.
///
/// The law holds where the path leads to an entity that has no child
/// entity of the new name yet (a path leads to the first of equally
/// named siblings), where the name holds no `/`, and where the path and
/// the name are not both empty (the empty path is the root).
pub proof fn lemma_created_entity_is_found(
    m: ModelView,
    path: Seq<char>,
    name: Seq<char>,
    plural_name: Option<Seq<char>>,
    location: Option<LocationView>,
)
    requires
        m.wf(),
        m.closed(),
        m.nodes.len() < usize::MAX,
        m.find(path) is Some,
        m.child_named(m.find(path).unwrap(), name) is None,
        !name.contains('/'),
        path.len() > 0 || name.len() > 0,
    ensures
        m.created(m.find(path).unwrap(), name, plural_name, location).find(
            joined_path(path, name),
        ) == Some(m.nodes.len() as NodeId),
{
    let parent = m.find(path).unwrap();
    let id = m.nodes.len() as NodeId;
    let after = m.created(parent, name, plural_name, location);
    m.lemma_find_is_entity(path);
    let children = m.entity(parent).children;
    m.lemma_first_named_agrees(after, children, name);
    after.lemma_first_named_push(children, id, name);
    if path.len() == 0 {
        lemma_split_plain(name, '/');
        assert(seq![name].drop_first() =~= Seq::<Seq<char>>::empty());
        assert(after.walk(id, Seq::<Seq<char>>::empty()) == Some(id));
    } else {
        let segments = split_on(path, '/');
        lemma_split_joined(path, '/', name);
        m.lemma_walk_after_created(parent, name, plural_name, location, 0, segments);
        after.lemma_walk_push(0, segments, name);
    }
}

/// A field written twice under one name: the field map holds the later
/// value, and the entity has got two more children, field nodes that
/// hold the first and the second value in that order.
pub proof fn lemma_duplicate_field_is_kept_twice(
    m: ModelView,
    id: NodeId,
    name: Seq<char>,
    first: ValueView,
    first_location: Option<LocationView>,
    second: ValueView,
    second_location: Option<LocationView>,
)
    requires
        m.is_entity(id),
        m.nodes.len() + 1 < usize::MAX,
    ensures
        ({
            let n = m.nodes.len() as NodeId;
            let after = m.with_located_field(id, name, first, first_location).with_located_field(
                id,
                name,
                second,
                second_location,
            );
            &&& after.field_value(id, name) == Some(second)
            &&& after.is_entity(id)
            &&& after.entity(id).children == m.entity(id).children.push(n).push((n + 1) as NodeId)
            &&& after.nodes.len() == m.nodes.len() + 2
            &&& after.nodes[n as int] == NodeView::Field(
                FieldView { name, value: first, location: first_location },
            )
            &&& after.nodes[n + 1] == NodeView::Field(
                FieldView { name, value: second, location: second_location },
            )
        }),
{
    let once = m.with_located_field(id, name, first, first_location);
    lemma_field_upsert(m.entity(id).fields, name, first, name);
    lemma_field_upsert(once.entity(id).fields, name, second, name);
}

/// The name under which an entity is shown is the original form that
/// the table holds for its name, or else its name; neither the nodes
/// nor what paths lead to depend on the table.
pub proof fn lemma_original_name_is_recovered(
    m: ModelView,
    sanitized: Seq<char>,
    original: Seq<char>,
    names: Map<Seq<char>, Seq<char>>,
    path: Seq<char>,
)
    ensures
        (ModelView { names: names.insert(sanitized, original), ..m }).display_name(sanitized)
            == original,
        !names.dom().contains(sanitized) ==> (ModelView { names, ..m }).display_name(sanitized)
            == sanitized,
        (ModelView { names, ..m }).find(path) == m.find(path),
        (ModelView { names, ..m }).nodes == m.nodes,
{
    (ModelView { names, ..m }).lemma_walk_ignores_names(m, 0, split_on(path, '/'));
}

/// A table made from pairs holds, for a name, the original form of the
/// last pair under that name.
pub proof fn lemma_last_pair_holds(
    pairs: Seq<(Seq<char>, Seq<char>)>,
    sanitized: Seq<char>,
    original: Seq<char>,
)
    ensures
        original_name(name_map(pairs.push((sanitized, original))), sanitized) == original,
{
    assert(pairs.push((sanitized, original)).drop_last() =~= pairs);
}

impl ModelView {
    proof fn lemma_first_named_ignores_names(
        self,
        other: ModelView,
        children: Seq<NodeId>,
        name: Seq<char>,
    )
        requires
            self.nodes == other.nodes,
        ensures
            self.first_named(children, name) == other.first_named(children, name),
        decreases children.len(),
    {
        if children.len() > 0 {
            self.lemma_first_named_ignores_names(other, children.drop_first(), name);
        }
    }

    proof fn lemma_walk_ignores_names(
        self,
        other: ModelView,
        from: NodeId,
        segments: Seq<Seq<char>>,
    )
        requires
            self.nodes == other.nodes,
        ensures
            self.walk(from, segments) == other.walk(from, segments),
        decreases segments.len(),
    {
        if segments.len() > 0 {
            if self.is_entity(from) {
                self.lemma_first_named_ignores_names(
                    other,
                    self.entity(from).children,
                    segments[0],
                );
            }
            match self.child_named(from, segments[0]) {
                Some(c) => self.lemma_walk_ignores_names(other, c, segments.drop_first()),
                None => {},
            }
        }
    }
}

} // verus!
