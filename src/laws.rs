use vstd::prelude::*;
use crate::emit::shouty_snake_of;
use crate::resolve::{
    field_result, first_conflict, resolution, resolve_prefix, resolved_field, strict_resolution,
    ResolutionError, ResolvedField,
};
use crate::schema::{lookup_entry, policy_ok, Entry, FieldDescriptor, OverrideDocument};
use crate::strict::strict_enabled;
use crate::value::{parse_spec, ParsedValue, RawValue};

verus! {

/// A successful prefix holds one resolved field per declared field, each the
/// field's own result.
pub proof fn lemma_prefix_fields(schema: Seq<FieldDescriptor>, entries: Seq<Entry>, n: int)
    requires
        0 <= n <= schema.len(),
        resolve_prefix(schema, entries, n) is Ok,
    ensures
        ({
            let out = resolve_prefix(schema, entries, n)->Ok_0;
            &&& out.len() == n
            &&& forall|i: int| 0 <= i < n ==> field_result(schema[i], entries) is Ok
                && #[trigger] out[i] == resolved_field(schema[i], field_result(schema[i], entries)->Ok_0)
        }),
    decreases n,
{
    if n > 0 {
        lemma_prefix_fields(schema, entries, n - 1);
    }
}

/// Where every field up to `n` has a value, the prefix resolves.
pub proof fn lemma_prefix_succeeds(schema: Seq<FieldDescriptor>, entries: Seq<Entry>, n: int)
    requires
        0 <= n <= schema.len(),
        forall|i: int| 0 <= i < n ==> #[trigger] field_result(schema[i], entries) is Ok,
    ensures
        resolve_prefix(schema, entries, n) is Ok,
    decreases n,
{
    if n > 0 {
        lemma_prefix_succeeds(schema, entries, n - 1);
        assert(field_result(schema[n - 1], entries) is Ok);
    }
}

/// With every policy declared exactly once, no field is reported in conflict.
pub proof fn lemma_no_conflict(schema: Seq<FieldDescriptor>, n: int)
    requires
        0 <= n <= schema.len(),
        forall|i: int| 0 <= i < n ==> #[trigger] policy_ok(schema[i]),
    ensures
        first_conflict(schema, n) is None,
    decreases n,
{
    if n > 0 {
        lemma_no_conflict(schema, n - 1);
        assert(policy_ok(schema[n - 1]));
    }
}

proof fn lemma_conflict_stays(schema: Seq<FieldDescriptor>, k: int, m: int)
    requires
        0 <= k < m <= schema.len(),
        first_conflict(schema, k + 1) == Some(k),
    ensures
        first_conflict(schema, m) == Some(k),
    decreases m - k,
{
    if m > k + 1 {
        lemma_conflict_stays(schema, k, m - 1);
    }
}

/// Without a document, a schema whose fields all carry a default that fits
/// their type resolves to exactly those defaults, in declaration order.
pub proof fn law_defaults_without_document(schema: Seq<FieldDescriptor>, identity: Seq<char>)
    requires
        forall|i: int| 0 <= i < schema.len() ==> {
            &&& !(#[trigger] schema[i]).required
            &&& schema[i].default is Some
            &&& parse_spec(schema[i].default->Some_0, schema[i].ty) is Some
        },
    ensures
        strict_resolution(schema, identity, None, false) is Ok,
        ({
            let out = strict_resolution(schema, identity, None, false)->Ok_0;
            &&& out.len() == schema.len()
            &&& forall|i: int| 0 <= i < schema.len() ==> #[trigger] out[i] == resolved_field(
                schema[i],
                parse_spec(schema[i].default->Some_0, schema[i].ty)->Some_0,
            )
        }),
{
    let entries = Seq::<Entry>::empty();
    let n = schema.len() as int;
    assert forall|i: int| 0 <= i < n implies #[trigger] policy_ok(schema[i]) by {}
    lemma_no_conflict(schema, n);
    assert forall|i: int| 0 <= i < n implies #[trigger] field_result(schema[i], entries) is Ok by {}
    lemma_prefix_succeeds(schema, entries, n);
    lemma_prefix_fields(schema, entries, n);
}

/// A required field that no override names stops the pass with an error that
/// names it, once all policies are declared and every earlier field resolves.
pub proof fn law_required_missing(schema: Seq<FieldDescriptor>, entries: Seq<Entry>, k: int)
    requires
        0 <= k < schema.len(),
        schema[k].required,
        forall|i: int| 0 <= i < schema.len() ==> #[trigger] policy_ok(schema[i]),
        forall|i: int| 0 <= i < k ==> #[trigger] field_result(schema[i], entries) is Ok,
        lookup_entry(entries, schema[k].name@) is None,
    ensures
        resolution(schema, entries) == Err::<Seq<ResolvedField>, ResolutionError>(
            ResolutionError::MissingRequired { field: schema[k].name },
        ),
{
    let n = schema.len() as int;
    lemma_no_conflict(schema, n);
    lemma_prefix_succeeds(schema, entries, k);
    assert(policy_ok(schema[k]));
    assert(resolve_prefix(schema, entries, k + 1) is Err);
    crate::resolve::lemma_error_persists(schema, entries, k + 1, n);
}

/// An override that fits the field's type is the field's value, whatever its
/// policy; where the pass succeeds, the resolved field holds it.
pub proof fn law_override_wins(schema: Seq<FieldDescriptor>, entries: Seq<Entry>, k: int, raw: RawValue, v: ParsedValue)
    requires
        0 <= k < schema.len(),
        lookup_entry(entries, schema[k].name@) == Some(raw),
        parse_spec(raw, schema[k].ty) == Some(v),
    ensures
        field_result(schema[k], entries) == Ok::<ParsedValue, ResolutionError>(v),
        resolution(schema, entries) matches Ok(out) ==> out[k].value == v,
{
    if resolution(schema, entries) is Ok {
        lemma_prefix_fields(schema, entries, schema.len() as int);
    }
}

/// A required field whose override fits its type resolves to that override
/// when the pass has no other error.
pub proof fn law_required_supplied(schema: Seq<FieldDescriptor>, entries: Seq<Entry>, k: int, raw: RawValue, v: ParsedValue)
    requires
        0 <= k < schema.len(),
        schema[k].required,
        forall|i: int| 0 <= i < schema.len() ==> #[trigger] policy_ok(schema[i]),
        forall|i: int| 0 <= i < schema.len() && i != k ==> #[trigger] field_result(schema[i], entries) is Ok,
        lookup_entry(entries, schema[k].name@) == Some(raw),
        parse_spec(raw, schema[k].ty) == Some(v),
    ensures
        resolution(schema, entries) is Ok,
        resolution(schema, entries)->Ok_0[k].value == v,
{
    let n = schema.len() as int;
    lemma_no_conflict(schema, n);
    assert forall|i: int| 0 <= i < n implies #[trigger] field_result(schema[i], entries) is Ok by {
        if i == k {
            assert(field_result(schema[k], entries) == Ok::<ParsedValue, ResolutionError>(v));
        }
    }
    lemma_prefix_succeeds(schema, entries, n);
    law_override_wins(schema, entries, k, raw, v);
}

/// The first field that declares both policies, or neither, fails the pass
/// with an error naming it, whatever the overrides hold.
pub proof fn law_policy_conflict(schema: Seq<FieldDescriptor>, entries: Seq<Entry>, k: int)
    requires
        0 <= k < schema.len(),
        !policy_ok(schema[k]),
        forall|i: int| 0 <= i < k ==> #[trigger] policy_ok(schema[i]),
    ensures
        resolution(schema, entries) == Err::<Seq<ResolvedField>, ResolutionError>(
            ResolutionError::PolicyConflict { field: schema[k].name },
        ),
{
    lemma_no_conflict(schema, k);
    lemma_conflict_stays(schema, k, schema.len() as int);
}

/// With strict mode on and no document, the pass fails for every schema; an
/// unset signal leaves strict mode off, so a missing document then leaves
/// every field to its policy.
pub proof fn law_strict_needs_document(schema: Seq<FieldDescriptor>, identity: Seq<char>, signal: Option<Seq<char>>)
    requires
        strict_enabled(signal),
    ensures
        !strict_enabled(None),
        strict_resolution(schema, identity, None, strict_enabled(signal)) == Err::<Seq<ResolvedField>, ResolutionError>(
            ResolutionError::DocumentRequired,
        ),
{
}

/// Two passes over the same schema, identity, document and policy give the
/// same result, and the same component name gives the same constant name.
pub proof fn law_deterministic(
    schema1: Seq<FieldDescriptor>,
    schema2: Seq<FieldDescriptor>,
    identity1: Seq<char>,
    identity2: Seq<char>,
    doc1: Option<OverrideDocument>,
    doc2: Option<OverrideDocument>,
    strict: bool,
    name1: Seq<char>,
    name2: Seq<char>,
)
    requires
        schema1 == schema2,
        identity1 == identity2,
        doc1 == doc2,
        name1 == name2,
    ensures
        strict_resolution(schema1, identity1, doc1, strict) == strict_resolution(schema2, identity2, doc2, strict),
        shouty_snake_of(name1) == shouty_snake_of(name2),
{
}

} // verus!
