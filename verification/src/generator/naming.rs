//! How the names of entities and fields are written in generated code.
//!
//! The case conversions are those of `heck`. Nothing is proved of them:
//! their results are given names, and the contracts of this module
//! speak of the results by those names.
use crate::text::same_text;
use heck::{ToPascalCase, ToSnakeCase};
use vstd::prelude::*;
use vstd::string::*;

verus! {

/// What `heck` makes of a text in Pascal case.
pub uninterp spec fn pascal_case(name: Seq<char>) -> Seq<char>;

/// What `heck` makes of a text in snake case.
pub uninterp spec fn snake_case(name: Seq<char>) -> Seq<char>;

/// `heck::ToPascalCase::to_pascal_case` on a string slice. The result
/// depends on the text alone; the contract gives it a name and says no
/// more of it.
#[verifier::external_body]
fn to_pascal_case(name: &str) -> (r: String)
    ensures
        r@ == pascal_case(name@),
{
    name.to_pascal_case()
}

/// `heck::ToSnakeCase::to_snake_case` on a string slice. The result
/// depends on the text alone; the contract gives it a name and says no
/// more of it.
#[verifier::external_body]
fn to_snake_case(name: &str) -> (r: String)
    ensures
        r@ == snake_case(name@),
{
    name.to_snake_case()
}

/// The name of the record type for an entity name.
pub open spec fn type_name_of(name: Seq<char>) -> Seq<char> {
    pascal_case(name)
}

/// The name of the record field for a field or entity name: the name
/// in snake case, but `type_` for `type`, which generated code cannot
/// use as a name.
pub open spec fn field_name_of(name: Seq<char>) -> Seq<char> {
    if name == "type"@ {
        "type_"@
    } else {
        snake_case(name)
    }
}

/// The name that a record field name was made from, as far as the
/// record field name tells: `type` for `type_`, else the name itself.
pub open spec fn original_case_of(name: Seq<char>) -> Seq<char> {
    if name == "type_"@ {
        "type"@
    } else {
        name
    }
}

/// The name of the record type for the entity name `name`.
pub fn struct_name(name: &str) -> (r: String)
    ensures
        r@ == type_name_of(name@),
{
    to_pascal_case(name)
}

/// The name of the record field for the field or entity name `name`.
pub fn field_name(name: &str) -> (r: String)
    ensures
        r@ == field_name_of(name@),
{
    if same_text(name, "type") {
        "type_".to_owned()
    } else {
        to_snake_case(name)
    }
}

/// Undoes the renaming of [`field_name`] where a name was renamed.
pub fn to_original_case(name: &str) -> (r: String)
    ensures
        r@ == original_case_of(name@),
{
    if same_text(name, "type_") {
        "type".to_owned()
    } else {
        name.to_owned()
    }
}

/// The reserved name gets its suffix, and the suffix is taken off
/// again.
pub proof fn lemma_reserved_name_round_trip()
    ensures
        field_name_of("type"@) == "type_"@,
        original_case_of(field_name_of("type"@)) == "type"@,
{
}

} // verus!
