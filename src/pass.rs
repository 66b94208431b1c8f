use vstd::prelude::*;
use crate::emit::{emit, shouty_snake_of, Artifact};
use crate::resolve::{doc_value, resolve_strict, strict_resolution, ResolutionError, ResolvedField};
use crate::schema::{FieldDescriptor, OverrideDocument};
use crate::strict::{signal_view, strict_enabled, strict_mode};

verus! {

/// One full pass for a component: reads the strict-mode policy from its
/// signal, resolves the schema against the document's section for
/// `identity`, and emits the result under `component_name`. The document's
/// location becomes a dependency only when a document was found.
pub fn configure(
    schema: &Vec<FieldDescriptor>,
    component_name: &str,
    identity: &str,
    doc: Option<&OverrideDocument>,
    document_path: Option<String>,
    signal: Option<&str>,
) -> (r: Result<Artifact, ResolutionError>)
    ensures
        match r {
            Ok(a) => {
                &&& strict_resolution(
                    schema@,
                    identity@,
                    doc_value(doc),
                    strict_enabled(signal_view(signal)),
                ) == Ok::<Seq<ResolvedField>, ResolutionError>(a.fields@)
                &&& a.record_name@ == component_name@
                &&& a.const_name@ == shouty_snake_of(component_name@)
                &&& a.dependency == if doc is Some {
                    document_path
                } else {
                    None
                }
            },
            Err(e) => strict_resolution(
                schema@,
                identity@,
                doc_value(doc),
                strict_enabled(signal_view(signal)),
            ) == Err::<Seq<ResolvedField>, ResolutionError>(e),
        },
{
    let strict = strict_mode(signal);
    match resolve_strict(schema, identity, doc, strict) {
        Ok(fields) => {
            let dependency = if doc.is_some() {
                document_path
            } else {
                None
            };
            Ok(emit(fields, component_name, dependency))
        },
        Err(e) => Err(e),
    }
}

} // verus!
