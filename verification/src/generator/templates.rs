//! The templates of the generated artifacts, in Handlebars syntax.
use vstd::prelude::*;

verus! {

/// The name under which the registry keeps the head of a source file.
pub const FILE_HEADER: &'static str = "file_header";

/// The name of the template of an element type.
pub const SINGULAR_STRUCT: &'static str = "singular_struct";

/// The name of the template of a collection type.
pub const PLURAL_STRUCT: &'static str = "plural_struct";

/// The name of the template of the API description type.
pub const API_STRUCT: &'static str = "api_struct";

/// The name of the template of the smoke test.
pub const INTEGRATION_TEST: &'static str = "integration_test";

/// The name of the template of the package manifest.
pub const CARGO_TOML: &'static str = "cargo_toml";

/// The name of the template of the package description.
pub const README: &'static str = "readme";

/// The head of a source file.
pub const FILE_HEADER_SOURCE: &'static str =
    "//! Typed access to a configuration model.
{{#if include_imports}}
#![allow(unused_imports)]
{{#if uses_hashmap}}
use std::collections::HashMap;
{{/if}}
{{/if}}
";

/// An element type: the record, its accessors and its hydration.
pub const SINGULAR_STRUCT_SOURCE: &'static str =
    "#[derive(Debug, Clone, Default)]
pub struct {{{struct_name}}} {
{{#each fields}}
    pub {{{name}}}: {{#if is_optional}}Option<{{{type}}}>{{else}}{{{type}}}{{/if}},
{{/each}}
}

impl {{{struct_name}}} {
{{#each getters}}
{{#if is_option}}
    pub fn {{{name}}}(&self) -> Option<&{{{return_type}}}> {
        self.{{{name}}}.as_ref()
    }
{{else}}
{{#if is_reference}}
    pub fn {{{name}}}(&self) -> &{{{return_type}}} {
        &self.{{{name}}}
    }
{{else}}
    pub fn {{{name}}}(&self) -> {{{return_type}}} {
        self.{{{name}}}.clone()
    }
{{/if}}
{{/if}}

{{/each}}
    pub fn from_entity(model: &ConfigModel, id: usize) -> Self {
        Self {
{{#each field_initializers}}
{{#if is_collection}}
            {{{name}}}: {{{type}}}::from_children(model, id),
{{else}}
{{#if is_entity}}
            {{{name}}}: model.find_child_entity_by_name(id, \"{{{original_name}}}\").map(|child_id| {{{type}}}::from_entity(model, child_id)),
{{else}}
            {{{name}}}: match model.get_field_value(id, \"{{{original_name}}}\") {
{{#if is_integer}}
                Some(ConfigValue::Integer(val)) => val,
                _ => 0,
{{/if}}
{{#if is_float}}
                Some(ConfigValue::Float(val)) => f64::from_bits(val.bits),
                _ => 0.0,
{{/if}}
{{#if is_boolean}}
                Some(ConfigValue::Boolean(val)) => val,
                _ => false,
{{/if}}
{{#if is_text}}
                Some(ConfigValue::String(val)) => val,
                _ => String::new(),
{{/if}}
            },
{{/if}}
{{/if}}
{{/each}}
        }
    }
}

";

/// A collection type: the elements in document order, each with the
/// name of its entity.
pub const PLURAL_STRUCT_SOURCE: &'static str =
    "#[derive(Debug, Clone, Default)]
pub struct {{{struct_name}}} {
    items: Vec<(String, {{{singular_struct_name}}})>,
}

impl {{{struct_name}}} {
    pub fn from_children(model: &ConfigModel, parent_id: usize) -> Self {
        let mut items = Vec::new();
        if let Some(ConfigNode::Entity(parent)) = model.get_node(parent_id) {
            for &group_id in &parent.children {
                if let Some(ConfigNode::Entity(group)) = model.get_node(group_id) {
                    if group.name == \"{{{singular_name}}}\" {
                        for &child_id in &group.children {
                            if let Some(ConfigNode::Entity(child)) = model.get_node(child_id) {
                                items.push((
                                    child.name.clone(),
                                    {{{singular_struct_name}}}::from_entity(model, child_id),
                                ));
                            }
                        }
                    }
                }
            }
        }
        Self { items }
    }

    pub fn len(&self) -> usize {
        self.items.len()
    }

    pub fn is_empty(&self) -> bool {
        self.items.is_empty()
    }

    pub fn get(&self, name: &str) -> Option<&{{{singular_struct_name}}}> {
        self.items.iter().find(|(key, _)| key == name).map(|(_, item)| item)
    }

    pub fn names(&self) -> impl Iterator<Item = &str> + '_ {
        self.items.iter().map(|(key, _)| key.as_str())
    }

    pub fn iter(&self) -> impl Iterator<Item = &{{{singular_struct_name}}}> + '_ {
        self.items.iter().map(|(_, item)| item)
    }
}

";

/// The API description type, which has a fixed shape.
pub const API_STRUCT_SOURCE: &'static str =
    "#[derive(Debug, Clone, Default)]
pub struct Api {
    pub key: String,
    pub type_: String,
}

impl Api {
    pub fn key(&self) -> String {
        self.key.clone()
    }

    pub fn type_(&self) -> String {
        self.type_.clone()
    }

    pub fn from_entity(model: &ConfigModel, id: usize) -> Self {
        Self {
            key: match model.get_field_value(id, \"key\") {
                Some(ConfigValue::String(val)) => val,
                _ => String::new(),
            },
            type_: match model.get_field_value(id, \"type\") {
                Some(ConfigValue::String(val)) => val,
                _ => String::new(),
            },
        }
    }
}

";

/// The smoke test of a package or of a module.
pub const INTEGRATION_TEST_SOURCE: &'static str =
    "{{#if is_crate}}
use {{{sanitized_crate_name}}}::*;

{{/if}}
#[test]
fn configuration_document_is_present() {
    assert!(std::path::Path::new(\"{{{test_file_path}}}\").exists());
}

#[test]
fn root_starts_empty() {
    let root = Root::default();
    let _ = format!(\"{:?}\", root);
}

#[test]
fn collections_start_empty() {
{{#each plural_entity_types}}
    assert!({{{this}}}::default().is_empty());
{{/each}}
}
{{#each plural_entity_assertions}}
// `{{{plural}}}` holds one `{{{singular}}}` for each entity of its kind.
{{/each}}
";

/// The manifest of a package.
pub const CARGO_TOML_SOURCE: &'static str =
    "[package]
name = \"{{{crate_name}}}\"
version = \"0.1.0\"
edition = \"2021\"

[dependencies]
colap = { path = \"{{{colap_path}}}\" }
";

/// The description of a package.
pub const README_SOURCE: &'static str =
    "# {{{crate_name}}}

Typed access to the configuration model of `{{{config_filename}}}`.

Written on {{{date}}}.

## Use

Build a `colap::config_model::ConfigModel` from the document, then call
`Root::from_model(&model)` and read the configuration through the
accessors of the records.
{{#if example_code}}

```rust
{{{example_code}}}
```
{{/if}}
";

/// Whether `source` is one of the templates of this library.
pub open spec fn is_own_source(source: Seq<char>) -> bool {
    ||| source == FILE_HEADER_SOURCE@
    ||| source == SINGULAR_STRUCT_SOURCE@
    ||| source == PLURAL_STRUCT_SOURCE@
    ||| source == API_STRUCT_SOURCE@
    ||| source == INTEGRATION_TEST_SOURCE@
    ||| source == CARGO_TOML_SOURCE@
    ||| source == README_SOURCE@
}

} // verus!
