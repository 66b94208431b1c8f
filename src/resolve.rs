use vstd::prelude::*;
use crate::schema::{
    find_entry, find_section, lookup_entry, overrides_for, policy_ok, Entry, FieldDescriptor,
    OverrideDocument,
};
use crate::value::{parse_spec, parse_value, FieldType, ParsedValue, RawValue};

verus! {

/// Why a resolution pass failed. Each variant but the last names the field.
#[derive(Debug)]
pub enum ResolutionError {
    /// The field declares both `required` and a default, or neither.
    PolicyConflict { field: String },
    /// The field is required and no override gives it a value.
    MissingRequired { field: String },
    /// The override literal does not fit the field's type.
    Parse { field: String, literal: RawValue },
    /// The schema's own default does not fit the field's type.
    DefaultParse { field: String },
    /// Strict mode is on and no override document was found.
    DocumentRequired,
}

/// One field of a resolved configuration.
#[derive(Debug)]
pub struct ResolvedField {
    pub name: String,
    pub ty: FieldType,
    pub value: ParsedValue,
}

/// The index of the first of the first `n` fields that does not declare
/// exactly one policy.
pub open spec fn first_conflict(schema: Seq<FieldDescriptor>, n: int) -> Option<int>
    decreases n,
{
    if n <= 0 {
        None
    } else {
        match first_conflict(schema, n - 1) {
            Some(k) => Some(k),
            None => if !policy_ok(schema[n - 1]) {
                Some(n - 1)
            } else {
                None
            },
        }
    }
}

/// The value of one field: the override if there is one, else the policy.
pub open spec fn field_result(f: FieldDescriptor, entries: Seq<Entry>) -> Result<ParsedValue, ResolutionError> {
    match lookup_entry(entries, f.name@) {
        Some(raw) => match parse_spec(raw, f.ty) {
            Some(v) => Ok(v),
            None => Err(ResolutionError::Parse { field: f.name, literal: raw }),
        },
        None => if !policy_ok(f) {
            Err(ResolutionError::PolicyConflict { field: f.name })
        } else if f.required {
            Err(ResolutionError::MissingRequired { field: f.name })
        } else {
            match parse_spec(f.default->Some_0, f.ty) {
                Some(v) => Ok(v),
                None => Err(ResolutionError::DefaultParse { field: f.name }),
            }
        },
    }
}

pub open spec fn resolved_field(f: FieldDescriptor, v: ParsedValue) -> ResolvedField {
    ResolvedField { name: f.name, ty: f.ty, value: v }
}

/// The first `n` fields resolved in declaration order, or the first error.
pub open spec fn resolve_prefix(schema: Seq<FieldDescriptor>, entries: Seq<Entry>, n: int) -> Result<Seq<ResolvedField>, ResolutionError>
    decreases n,
{
    if n <= 0 {
        Ok(Seq::empty())
    } else {
        match resolve_prefix(schema, entries, n - 1) {
            Err(e) => Err(e),
            Ok(acc) => match field_result(schema[n - 1], entries) {
                Err(e) => Err(e),
                Ok(v) => Ok(acc.push(resolved_field(schema[n - 1], v))),
            },
        }
    }
}

/// A whole resolution pass over a schema and the overrides that apply: the
/// policies of all fields are checked first, then the fields are resolved in
/// order; the first error ends the pass.
pub open spec fn resolution(schema: Seq<FieldDescriptor>, entries: Seq<Entry>) -> Result<Seq<ResolvedField>, ResolutionError> {
    match first_conflict(schema, schema.len() as int) {
        Some(k) => Err(ResolutionError::PolicyConflict { field: schema[k].name }),
        None => resolve_prefix(schema, entries, schema.len() as int),
    }
}

/// A resolution pass in which strict mode may require the document.
pub open spec fn strict_resolution(
    schema: Seq<FieldDescriptor>,
    identity: Seq<char>,
    doc: Option<OverrideDocument>,
    strict: bool,
) -> Result<Seq<ResolvedField>, ResolutionError> {
    if strict && doc is None {
        Err(ResolutionError::DocumentRequired)
    } else {
        resolution(schema, overrides_for(doc, identity))
    }
}

pub open spec fn result_seq(r: Result<Vec<ResolvedField>, ResolutionError>) -> Result<Seq<ResolvedField>, ResolutionError> {
    match r {
        Ok(v) => Ok(v@),
        Err(e) => Err(e),
    }
}

pub open spec fn doc_value(doc: Option<&OverrideDocument>) -> Option<OverrideDocument> {
    match doc {
        Some(d) => Some(*d),
        None => None,
    }
}

/// Once a prefix has failed, every longer prefix fails with the same error.
pub proof fn lemma_error_persists(schema: Seq<FieldDescriptor>, entries: Seq<Entry>, n: int, m: int)
    requires
        0 <= n <= m,
        resolve_prefix(schema, entries, n) is Err,
    ensures
        resolve_prefix(schema, entries, m) == resolve_prefix(schema, entries, n),
    decreases m - n,
{
    if m > n {
        lemma_error_persists(schema, entries, n, m - 1);
    }
}

/// The index of the first field that does not declare exactly one policy.
pub fn check_policies(schema: &Vec<FieldDescriptor>) -> (r: Option<usize>)
    ensures
        match r {
            Some(k) => k < schema@.len() && first_conflict(schema@, schema@.len() as int) == Some(
                k as int,
            ),
            None => first_conflict(schema@, schema@.len() as int) is None,
        },
{
    let mut i: usize = 0;
    while i < schema.len()
        invariant
            i <= schema@.len(),
            first_conflict(schema@, i as int) is None,
        decreases schema@.len() - i,
    {
        let f = &schema[i];
        if f.required == f.default.is_some() {
            assert(first_conflict(schema@, i + 1) == Some(i as int));
            let ghost n = schema@.len() as int;
            assert forall|m: int| i + 1 <= m <= n implies first_conflict(schema@, m) == Some(i as int) by {
                lemma_conflict_persists(schema@, i + 1, m);
            }
            return Some(i);
        }
        i = i + 1;
    }
    None
}

proof fn lemma_conflict_persists(schema: Seq<FieldDescriptor>, n: int, m: int)
    requires
        0 <= n <= m,
        first_conflict(schema, n) is Some,
    ensures
        first_conflict(schema, m) == first_conflict(schema, n),
    decreases m - n,
{
    if m > n {
        lemma_conflict_persists(schema, n, m - 1);
    }
}

/// Resolves one field against the overrides that apply to it.
pub fn resolve_field(f: &FieldDescriptor, entries: &Vec<Entry>) -> (r: Result<ParsedValue, ResolutionError>)
    ensures
        r == field_result(*f, entries@),
{
    match find_entry(entries, f.name.as_str()) {
        Some(raw) => match parse_value(raw, f.ty) {
            Some(v) => Ok(v),
            None => Err(ResolutionError::Parse { field: f.name.clone(), literal: raw.duplicate() }),
        },
        None => {
            if f.required == f.default.is_some() {
                Err(ResolutionError::PolicyConflict { field: f.name.clone() })
            } else if f.required {
                Err(ResolutionError::MissingRequired { field: f.name.clone() })
            } else {
                match &f.default {
                    Some(d) => match parse_value(d, f.ty) {
                        Some(v) => Ok(v),
                        None => Err(ResolutionError::DefaultParse { field: f.name.clone() }),
                    },
                    None => Err(ResolutionError::PolicyConflict { field: f.name.clone() }),
                }
            }
        },
    }
}

/// Resolves a schema against the overrides that apply to the component.
pub fn resolve_entries(schema: &Vec<FieldDescriptor>, entries: &Vec<Entry>) -> (r: Result<Vec<ResolvedField>, ResolutionError>)
    ensures
        result_seq(r) == resolution(schema@, entries@),
{
    if let Some(k) = check_policies(schema) {
        return Err(ResolutionError::PolicyConflict { field: schema[k].name.clone() });
    }
    let mut out: Vec<ResolvedField> = Vec::new();
    let mut i: usize = 0;
    while i < schema.len()
        invariant
            i <= schema@.len(),
            first_conflict(schema@, schema@.len() as int) is None,
            resolve_prefix(schema@, entries@, i as int) == Ok::<Seq<ResolvedField>, ResolutionError>(out@),
        decreases schema@.len() - i,
    {
        let f = &schema[i];
        match resolve_field(f, entries) {
            Ok(v) => {
                out.push(ResolvedField { name: f.name.clone(), ty: f.ty, value: v });
            },
            Err(e) => {
                proof {
                    assert(resolve_prefix(schema@, entries@, i + 1) == Err::<Seq<ResolvedField>, ResolutionError>(e));
                    lemma_error_persists(schema@, entries@, i + 1, schema@.len() as int);
                }
                return Err(e);
            },
        }
        i = i + 1;
    }
    Ok(out)
}

/// Resolves a schema for the component `identity` against an optional
/// override document.
pub fn resolve(schema: &Vec<FieldDescriptor>, identity: &str, doc: Option<&OverrideDocument>) -> (r: Result<Vec<ResolvedField>, ResolutionError>)
    ensures
        result_seq(r) == resolution(schema@, overrides_for(doc_value(doc), identity@)),
{
    match doc {
        Some(d) => match find_section(d, identity) {
            Some(s) => resolve_entries(schema, &s.entries),
            None => {
                let none: Vec<Entry> = Vec::new();
                resolve_entries(schema, &none)
            },
        },
        None => {
            let none: Vec<Entry> = Vec::new();
            resolve_entries(schema, &none)
        },
    }
}

/// A resolution pass under the strict-mode policy: with `strict` set, a
/// missing document is an error instead of leaving every field to its policy.
pub fn resolve_strict(schema: &Vec<FieldDescriptor>, identity: &str, doc: Option<&OverrideDocument>, strict: bool) -> (r: Result<Vec<ResolvedField>, ResolutionError>)
    ensures
        result_seq(r) == strict_resolution(schema@, identity@, doc_value(doc), strict),
{
    if strict && doc.is_none() {
        return Err(ResolutionError::DocumentRequired);
    }
    resolve(schema, identity, doc)
}

} // verus!
