//! The two printed forms of a model: the nested form, which gives
//! entities their original names and closes each entity but the root
//! with a semicolon, and the tree form, drawn with box characters.
//!
//! Both walk the tree from the root through the children. The fields
//! of an entity come in the order of its field map. A walk goes as many
//! levels deep as the model has nodes, which is every level of a tree;
//! where links form a cycle it ends there.
use crate::config_model::{ConfigModel, ConfigNode, ModelView, NodeId, NodeView, ValueView};
use crate::text::{decimal, push_decimal, push_repeated, repeated};
use vstd::prelude::*;
use vstd::string::*;

verus! {

/// The indentation of the nested form at depth `depth`.
pub open spec fn indent(depth: nat) -> Seq<char> {
    repeated("  "@, depth)
}

/// The line that stands for a child id without a node.
pub open spec fn missing_line(id: NodeId) -> Seq<char> {
    "Node ID "@ + decimal(id as nat) + " not found\n"@
}

/// A name and, where there is one, the plural form after it.
pub open spec fn titled(name: Seq<char>, plural_name: Option<Seq<char>>) -> Seq<char> {
    match plural_name {
        Some(p) => name + " plural "@ + p,
        None => name,
    }
}

/// The first `count` fields in the nested form, one line each.
pub open spec fn nested_fields(fields: Seq<(Seq<char>, ValueView)>, count: nat, depth: nat) -> Seq<
    char,
>
    decreases count,
{
    if count == 0 {
        Seq::<char>::empty()
    } else {
        let f = fields[count - 1];
        nested_fields(fields, (count - 1) as nat, depth) + indent(depth) + f.0 + ": "@
            + f.1.text() + ",\n"@
    }
}

/// The node `id` in the nested form at depth `depth`, its children as
/// far as `levels` reaches.
pub open spec fn nested_node(m: ModelView, id: NodeId, depth: nat, levels: nat) -> Seq<char>
    decreases levels, 0nat,
{
    if id >= m.nodes.len() {
        indent(depth) + missing_line(id)
    } else {
        match m.nodes[id as int] {
            NodeView::Field(f) => indent(depth) + f.name + ": "@ + f.value.text() + ",\n"@,
            NodeView::Entity(e) => {
                let head = indent(depth) + titled(m.display_name(e.name), e.plural_name) + ":\n"@;
                let fields = nested_fields(e.fields, e.fields.len(), depth + 1);
                let children = if levels == 0 {
                    Seq::<char>::empty()
                } else {
                    nested_children(
                        m,
                        e.children,
                        e.children.len(),
                        depth + 1,
                        (levels - 1) as nat,
                    )
                };
                let close = if e.parent is Some {
                    indent(depth) + ";\n"@
                } else {
                    Seq::<char>::empty()
                };
                head + fields + children + close
            },
        }
    }
}

/// The first `count` of `children` in the nested form.
pub open spec fn nested_children(
    m: ModelView,
    children: Seq<NodeId>,
    count: nat,
    depth: nat,
    levels: nat,
) -> Seq<char>
    decreases levels, count + 1,
{
    if count == 0 {
        Seq::<char>::empty()
    } else {
        nested_children(m, children, (count - 1) as nat, depth, levels) + nested_node(
            m,
            children[count - 1],
            depth,
            levels,
        )
    }
}

/// The whole model in the nested form, closed by a full stop.
pub open spec fn nested_text(m: ModelView) -> Seq<char> {
    nested_node(m, m.root(), 0, m.nodes.len()) + ".\n"@
}

/// The connector before the last item of a level, or before another.
pub open spec fn connector(is_last: bool) -> Seq<char> {
    if is_last {
        "└── "@
    } else {
        "├── "@
    }
}

/// What the items below an item are prefixed with, after the item's
/// own prefix.
pub open spec fn continuation(is_last: bool) -> Seq<char> {
    if is_last {
        "    "@
    } else {
        "│   "@
    }
}

/// The first `count` fields in the tree form. The last field closes the
/// level where the entity has no children.
pub open spec fn tree_fields(
    fields: Seq<(Seq<char>, ValueView)>,
    count: nat,
    prefix: Seq<char>,
    childless: bool,
) -> Seq<char>
    decreases count,
{
    if count == 0 {
        Seq::<char>::empty()
    } else {
        let f = fields[count - 1];
        tree_fields(fields, (count - 1) as nat, prefix, childless) + prefix + connector(
            count == fields.len() && childless,
        ) + f.0 + ": "@ + f.1.text() + "\n"@
    }
}

/// The node `id` in the tree form under `prefix`, its children as far
/// as `levels` reaches.
pub open spec fn tree_node(
    m: ModelView,
    id: NodeId,
    prefix: Seq<char>,
    is_last: bool,
    levels: nat,
) -> Seq<char>
    decreases levels, 0nat,
{
    if id >= m.nodes.len() {
        prefix + missing_line(id)
    } else {
        match m.nodes[id as int] {
            NodeView::Field(f) => prefix + connector(is_last) + f.name + ": "@ + f.value.text()
                + "\n"@,
            NodeView::Entity(e) => {
                let head = prefix + connector(is_last) + titled(
                    m.display_name(e.name),
                    e.plural_name,
                ) + "\n"@;
                let below = prefix + continuation(is_last);
                let fields = tree_fields(e.fields, e.fields.len(), below, e.children.len() == 0);
                let children = if levels == 0 {
                    Seq::<char>::empty()
                } else {
                    tree_children(m, e.children, e.children.len(), below, (levels - 1) as nat)
                };
                head + fields + children
            },
        }
    }
}

/// The first `count` of `children` in the tree form.
pub open spec fn tree_children(
    m: ModelView,
    children: Seq<NodeId>,
    count: nat,
    prefix: Seq<char>,
    levels: nat,
) -> Seq<char>
    decreases levels, count + 1,
{
    if count == 0 {
        Seq::<char>::empty()
    } else {
        tree_children(m, children, (count - 1) as nat, prefix, levels) + tree_node(
            m,
            children[count - 1],
            prefix,
            count == children.len(),
            levels,
        )
    }
}

/// The whole model in the tree form.
pub open spec fn tree_text(m: ModelView) -> Seq<char> {
    tree_node(m, m.root(), Seq::<char>::empty(), false, m.nodes.len())
}

fn push_titled(out: &mut String, name: &str, plural_name: &Option<String>)
    ensures
        final(out)@ == old(out)@ + titled(name@, crate::config_model::option_text(*plural_name)),
{
    out.append(name);
    match plural_name {
        Some(p) => {
            out.append(" plural ");
            out.append(p.as_str());
        },
        None => {},
    }
}

fn push_missing_line(out: &mut String, id: NodeId)
    ensures
        final(out)@ == old(out)@ + missing_line(id),
{
    out.append("Node ID ");
    push_decimal(out, id as u64);
    out.append(" not found\n");
}

fn push_connector(out: &mut String, is_last: bool)
    ensures
        final(out)@ == old(out)@ + connector(is_last),
{
    if is_last {
        out.append("└── ");
    } else {
        out.append("├── ");
    }
}

fn push_nested_fields(out: &mut String, fields: &crate::config_model::FieldMap, depth: usize)
    ensures
        final(out)@ == old(out)@ + nested_fields(fields@, fields@.len(), (depth + 1) as nat),
{
    let count = fields.len();
    let mut i: usize = 0;
    while i < count
        invariant
            i <= count,
            count == fields@.len(),
            out@ == old(out)@ + nested_fields(fields@, i as nat, (depth + 1) as nat),
        decreases count - i,
    {
        push_repeated(out, "  ", depth);
        out.append("  ");
        out.append(fields.name_at(i).as_str());
        out.append(": ");
        fields.value_at(i).push_text(out);
        out.append(",\n");
        i += 1;
    }
}

fn push_tree_fields(
    out: &mut String,
    fields: &crate::config_model::FieldMap,
    below: &String,
    childless: bool,
)
    ensures
        final(out)@ == old(out)@ + tree_fields(fields@, fields@.len(), below@, childless),
{
    let count = fields.len();
    let mut i: usize = 0;
    while i < count
        invariant
            i <= count,
            count == fields@.len(),
            out@ == old(out)@ + tree_fields(fields@, i as nat, below@, childless),
        decreases count - i,
    {
        out.append(below.as_str());
        push_connector(out, i == count - 1 && childless);
        out.append(fields.name_at(i).as_str());
        out.append(": ");
        fields.value_at(i).push_text(out);
        out.append("\n");
        i += 1;
    }
}

impl ConfigModel {
    /// The model in the nested form.
    pub fn to_text(&self) -> (r: String)
        ensures
            r@ == nested_text(self@),
    {
        let mut out = String::new();
        self.display_node(0, 0, self.node_count(), &mut out);
        out.append(".\n");
        out
    }

    fn display_node(&self, id: NodeId, depth: usize, levels: usize, out: &mut String)
        requires
            depth + levels <= usize::MAX,
        ensures
            final(out)@ == old(out)@ + nested_node(self@, id, depth as nat, levels as nat),
        decreases levels,
    {
        let node = match self.get_node(id) {
            Some(n) => n,
            None => {
                push_repeated(out, "  ", depth);
                push_missing_line(out, id);
                return ;
            },
        };
        match node {
            ConfigNode::Entity(entity) => {
                push_repeated(out, "  ", depth);
                let shown = self.get_original_entity_name(entity.name.as_str());
                push_titled(out, shown.as_str(), &entity.plural_name);
                out.append(":\n");
                let ghost head = indent(depth as nat) + titled(
                    self@.display_name(entity@.name),
                    entity@.plural_name,
                ) + ":\n"@;
                push_nested_fields(out, &entity.fields, depth);
                let ghost fields = nested_fields(
                    entity.fields@,
                    entity.fields@.len(),
                    (depth + 1) as nat,
                );
                if levels > 0 {
                    let mut k: usize = 0;
                    while k < entity.children.len()
                        invariant
                            k <= entity.children@.len(),
                            levels > 0,
                            depth + levels <= usize::MAX,
                            out@ == old(out)@ + head + fields + nested_children(
                                self@,
                                entity@.children,
                                k as nat,
                                (depth + 1) as nat,
                                (levels - 1) as nat,
                            ),
                        decreases entity.children@.len() - k,
                    {
                        self.display_node(entity.children[k], depth + 1, levels - 1, out);
                        k += 1;
                    }
                }
                if entity.parent.is_some() {
                    push_repeated(out, "  ", depth);
                    out.append(";\n");
                }
            },
            ConfigNode::Field(field) => {
                push_repeated(out, "  ", depth);
                out.append(field.name.as_str());
                out.append(": ");
                field.value.push_text(out);
                out.append(",\n");
            },
        }
    }

    /// The model in the tree form, drawn with box characters.
    pub fn pretty_display(&self) -> (r: String)
        ensures
            r@ == tree_text(self@),
    {
        let mut out = String::new();
        let prefix = String::new();
        self.pretty_display_node(0, &mut out, &prefix, false, self.node_count());
        out
    }

    fn pretty_display_node(
        &self,
        id: NodeId,
        out: &mut String,
        prefix: &String,
        is_last: bool,
        levels: usize,
    )
        ensures
            final(out)@ == old(out)@ + tree_node(self@, id, prefix@, is_last, levels as nat),
        decreases levels,
    {
        let node = match self.get_node(id) {
            Some(n) => n,
            None => {
                out.append(prefix.as_str());
                push_missing_line(out, id);
                return ;
            },
        };
        out.append(prefix.as_str());
        push_connector(out, is_last);
        match node {
            ConfigNode::Entity(entity) => {
                let shown = self.get_original_entity_name(entity.name.as_str());
                push_titled(out, shown.as_str(), &entity.plural_name);
                out.append("\n");
                let ghost head = prefix@ + connector(is_last) + titled(
                    self@.display_name(entity@.name),
                    entity@.plural_name,
                ) + "\n"@;
                let mut below = prefix.clone();
                if is_last {
                    below.append("    ");
                } else {
                    below.append("│   ");
                }
                let childless = entity.children.len() == 0;
                push_tree_fields(out, &entity.fields, &below, childless);
                let ghost fields = tree_fields(
                    entity.fields@,
                    entity.fields@.len(),
                    below@,
                    childless,
                );
                if levels > 0 {
                    let total = entity.children.len();
                    let mut k: usize = 0;
                    while k < total
                        invariant
                            k <= total,
                            total == entity.children@.len(),
                            levels > 0,
                            out@ == old(out)@ + head + fields + tree_children(
                                self@,
                                entity@.children,
                                k as nat,
                                below@,
                                (levels - 1) as nat,
                            ),
                        decreases total - k,
                    {
                        self.pretty_display_node(
                            entity.children[k],
                            out,
                            &below,
                            k == total - 1,
                            levels - 1,
                        );
                        k += 1;
                    }
                }
            },
            ConfigNode::Field(field) => {
                out.append(field.name.as_str());
                out.append(": ");
                field.value.push_text(out);
                out.append("\n");
            },
        }
    }
}

} // verus!
