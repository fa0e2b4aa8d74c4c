//! Rendering of templates: the data handed to a template, and the
//! registry that holds the templates and renders them.
//!
//! The data is built with `serde_json`, the templates are kept and
//! rendered by `handlebars`. Nothing here is proved of the two crates:
//! each function of theirs that the generator calls stands behind a
//! small function of this module whose contract is taken on trust.
//! What an object or a value holds, which templates a registry holds,
//! which sources it refuses, what it renders and what its errors say
//! are given names; the contracts say how the calls change and relate
//! what the names stand for.
use crate::generator::templates::is_own_source;
use vstd::prelude::*;
use vstd::string::*;

verus! {

/// The data that a template is rendered with.
pub enum JsonView {
    Flag(bool),
    Text(Seq<char>),
    List(Seq<JsonView>),
    Record(Map<Seq<char>, JsonView>),
}

/// `serde_json::Value`: a JSON value, carried as it is.
#[verifier::external_type_specification]
#[verifier::external_body]
pub struct ExJsonValue(serde_json::Value);

/// `serde_json::Map`: the keys and values of a JSON object, carried as
/// they are.
#[verifier::external_type_specification]
#[verifier::external_body]
#[verifier::reject_recursive_types(K)]
#[verifier::reject_recursive_types(V)]
pub struct ExJsonMap<K, V>(serde_json::Map<K, V>);

/// `handlebars::Handlebars`: the registry of templates and helpers,
/// carried as it is.
#[verifier::external_type_specification]
#[verifier::external_body]
pub struct ExRegistry<'reg>(handlebars::Handlebars<'reg>);

/// `handlebars::TemplateError`: why a template was refused.
#[verifier::external_type_specification]
#[verifier::external_body]
pub struct ExTemplateError(handlebars::TemplateError);

/// `handlebars::RenderError`: why a template could not be rendered.
#[verifier::external_type_specification]
#[verifier::external_body]
pub struct ExRenderError(handlebars::RenderError);

/// The registry of templates, which owns what it holds.
pub type Registry = handlebars::Handlebars<'static>;

/// A JSON object: values by key.
pub type JsonMap = serde_json::Map<String, serde_json::Value>;

/// What a JSON object holds: the content of its values, by key.
pub uninterp spec fn object_content(map: JsonMap) -> Map<Seq<char>, JsonView>;

/// The content of an object without keys.
pub open spec fn no_entries() -> Map<Seq<char>, JsonView> {
    Map::empty()
}

/// What a JSON value holds, for the values that this module builds:
/// text, booleans, arrays and objects of them.
pub uninterp spec fn json_content(value: serde_json::Value) -> JsonView;

/// The names under which a registry holds templates.
pub uninterp spec fn registered(registry: Registry) -> Set<Seq<char>>;

/// The names of a registry that holds no template.
pub open spec fn no_templates() -> Set<Seq<char>> {
    Set::empty()
}

/// The source of the template that a registry holds under each name.
pub uninterp spec fn template_sources(registry: Registry) -> Map<Seq<char>, Seq<char>>;

/// The sources of a registry that holds no template.
pub open spec fn no_sources() -> Map<Seq<char>, Seq<char>> {
    Map::empty()
}

/// Whether every template that a registry holds was made from one of
/// the sources of this library. None of these includes another
/// template, so rendering one of them comes to an end.
pub open spec fn holds_own_templates(registry: Registry) -> bool {
    forall|name: Seq<char>| #[trigger]
        template_sources(registry).dom().contains(name) ==> is_own_source(
            template_sources(registry)[name],
        )
}

/// Whether a registry is in development mode, in which it reads
/// templates anew from their files whenever it renders.
pub uninterp spec fn in_dev_mode(registry: Registry) -> bool;

/// The message with which the template engine refuses `source` as the
/// template `name`, or `None` where it accepts the source.
pub uninterp spec fn template_refusal(name: Seq<char>, source: Seq<char>) -> Option<Seq<char>>;

/// The message of a refused template.
pub uninterp spec fn template_error_text(error: handlebars::TemplateError) -> Seq<char>;

/// The message of a failed rendering.
pub uninterp spec fn render_error_text(error: handlebars::RenderError) -> Seq<char>;

/// What a registry that is not in development mode and that holds
/// only templates of this library renders for the template `name` with
/// `data`: the text, or the message of the failure.
pub uninterp spec fn rendered(registry: Registry, name: Seq<char>, data: JsonView) -> Result<
    Seq<char>,
    Seq<char>,
>;

/// `serde_json::Value::String` of a copy of `text`.
#[verifier::external_body]
pub(crate) fn json_text(text: &str) -> (r: serde_json::Value)
    ensures
        json_content(r) == JsonView::Text(text@),
{
    serde_json::Value::String(text.to_owned())
}

/// `serde_json::Value::Bool`.
#[verifier::external_body]
pub(crate) fn json_flag(flag: bool) -> (r: serde_json::Value)
    ensures
        json_content(r) == JsonView::Flag(flag),
{
    serde_json::Value::Bool(flag)
}

/// The contents of a list of JSON values.
pub open spec fn json_contents(items: Seq<serde_json::Value>) -> Seq<JsonView> {
    items.map_values(|v: serde_json::Value| json_content(v))
}

/// `serde_json::Value::Array`: the array of `items`, in order.
#[verifier::external_body]
pub(crate) fn json_list(items: Vec<serde_json::Value>) -> (r: serde_json::Value)
    ensures
        json_content(r) == JsonView::List(json_contents(items@)),
{
    serde_json::Value::Array(items)
}

/// `serde_json::Map::new`: an object without keys.
#[verifier::external_body]
pub(crate) fn json_map_new() -> (r: JsonMap)
    ensures
        object_content(r) == no_entries(),
{
    serde_json::Map::new()
}

/// `serde_json::Map::insert`: the value stands under the key
/// afterwards, in the place of a value that stood there.
#[verifier::external_body]
pub(crate) fn json_map_insert(map: &mut JsonMap, key: String, value: serde_json::Value)
    ensures
        object_content(*final(map)) == object_content(*old(map)).insert(
            key@,
            json_content(value),
        ),
{
    map.insert(key, value);
}

/// `serde_json::Value::Object`.
#[verifier::external_body]
pub(crate) fn json_object(map: JsonMap) -> (r: serde_json::Value)
    ensures
        json_content(r) == JsonView::Record(object_content(map)),
{
    serde_json::Value::Object(map)
}

/// `handlebars::Handlebars::new`: a registry with the built-in helpers
/// and without templates, not in development mode.
#[verifier::external_body]
pub(crate) fn new_registry() -> (registry: Registry)
    ensures
        registered(registry) == no_templates(),
        template_sources(registry) == no_sources(),
        !in_dev_mode(registry),
{
    handlebars::Handlebars::new()
}

/// `handlebars::Handlebars::set_strict_mode`. The templates and the
/// development mode stay as they are.
#[verifier::external_body]
pub(crate) fn set_strict_mode(registry: &mut Registry, enabled: bool)
    ensures
        registered(*final(registry)) == registered(*old(registry)),
        template_sources(*final(registry)) == template_sources(*old(registry)),
        in_dev_mode(*final(registry)) == in_dev_mode(*old(registry)),
{
    registry.set_strict_mode(enabled)
}

/// `handlebars::Handlebars::register_template_string`: compiles
/// `source` and, where that succeeds, keeps the template under `name`,
/// in the place of one that was there. Where the source is refused,
/// the error carries the message of the refusal and the registry stays
/// as it is. The development mode stays as it is either way.
#[verifier::external_body]
pub(crate) fn register_template_string(
    registry: &mut Registry,
    name: &str,
    source: &str,
) -> (r: Result<(), handlebars::TemplateError>)
    ensures
        match r {
            Ok(()) => template_refusal(name@, source@) is None && registered(*final(registry))
                == registered(*old(registry)).insert(name@) && template_sources(
                *final(registry),
            ) == template_sources(*old(registry)).insert(name@, source@),
            Err(e) => template_refusal(name@, source@) == Some(template_error_text(e))
                && registered(*final(registry)) == registered(*old(registry))
                && template_sources(*final(registry)) == template_sources(*old(registry)),
        },
        in_dev_mode(*final(registry)) == in_dev_mode(*old(registry)),
{
    registry.register_template_string(name, source)
}

/// `handlebars::Handlebars::render` with a JSON value as the data:
/// what the registry makes of the template under `name` and the data.
/// A registry in development mode could read a changed template from
/// its file, and templates that include one another could be rendered
/// without end, so the call is for a registry that is not in that mode
/// and that holds only templates of this library.
#[verifier::external_body]
pub(crate) fn render(
    registry: &Registry,
    name: &str,
    data: &serde_json::Value,
) -> (r: Result<String, handlebars::RenderError>)
    requires
        !in_dev_mode(*registry),
        holds_own_templates(*registry),
    ensures
        match r {
            Ok(text) => rendered(*registry, name@, json_content(*data)) matches Ok(t) && t
                == text@,
            Err(e) => rendered(*registry, name@, json_content(*data)) matches Err(m) && m
                == render_error_text(e),
        },
{
    registry.render(name, data)
}

/// The message of a `handlebars::TemplateError`, as its `Display`
/// writes it.
#[verifier::external_body]
pub(crate) fn template_error_message(error: &handlebars::TemplateError) -> (r: String)
    ensures
        r@ == template_error_text(*error),
{
    error.to_string()
}

/// The message of a `handlebars::RenderError`, as its `Display` writes
/// it.
#[verifier::external_body]
pub(crate) fn render_error_message(error: &handlebars::RenderError) -> (r: String)
    ensures
        r@ == render_error_text(*error),
{
    error.to_string()
}

} // verus!
