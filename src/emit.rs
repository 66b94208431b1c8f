use vstd::prelude::*;
use crate::resolve::ResolvedField;

verus! {

/// The SHOUTY_SNAKE_CASE form of a name, as heck computes it.
pub uninterp spec fn shouty_snake_of(s: Seq<char>) -> Seq<char>;

/// Relies on heck's `ToShoutySnakeCase::to_shouty_snake_case` for `str`: its
/// result depends on the characters of the name alone, and a name without
/// characters gives none.
#[verifier::external_body]
fn shouty_snake(s: &str) -> (r: String)
    ensures
        r@ == shouty_snake_of(s@),
        s@.len() == 0 ==> r@.len() == 0,
{
    heck::ToShoutySnakeCase::to_shouty_snake_case(s)
}

/// A resolved configuration ready to be written out: a record type named
/// `record_name`, a constant instance of it named `const_name`, and the
/// resource whose changes must trigger a new resolution, if there is one.
#[derive(Debug)]
pub struct Artifact {
    pub record_name: String,
    pub const_name: String,
    pub fields: Vec<ResolvedField>,
    pub dependency: Option<String>,
}

/// The canonical constant name of a component's configuration.
pub fn canonical_name(component_name: &str) -> (r: String)
    ensures
        r@ == shouty_snake_of(component_name@),
{
    shouty_snake(component_name)
}

/// Packages resolved fields under a type name and an already derived
/// constant name.
pub fn assemble(
    fields: Vec<ResolvedField>,
    record_name: String,
    const_name: String,
    dependency: Option<String>,
) -> (r: Artifact)
    ensures
        r.record_name == record_name,
        r.const_name == const_name,
        r.fields@ == fields@,
        r.dependency == dependency,
{
    Artifact { record_name, const_name, fields, dependency }
}

/// Turns a resolved configuration into an artifact named after the
/// component. `document` is the location of the override document that was
/// read, or `None` when none was found: only a found document becomes a
/// dependency.
pub fn emit(resolved: Vec<ResolvedField>, component_name: &str, document: Option<String>) -> (r: Artifact)
    ensures
        r.record_name@ == component_name@,
        r.const_name@ == shouty_snake_of(component_name@),
        r.fields@ == resolved@,
        r.dependency == document,
{
    let const_name = canonical_name(component_name);
    let record_name = component_name.to_string();
    assemble(resolved, record_name, const_name, document)
}

} // verus!
