use vstd::prelude::*;
use crate::text::same_text;
use crate::value::{FieldType, RawValue};

verus! {

/// One field of a component's schema. A well-formed field carries exactly one
/// policy: `required`, or a `default` literal.
#[derive(Debug)]
pub struct FieldDescriptor {
    pub name: String,
    pub ty: FieldType,
    pub required: bool,
    pub default: Option<RawValue>,
}

/// Whether the field declares exactly one resolution policy.
pub open spec fn policy_ok(f: FieldDescriptor) -> bool {
    f.required != f.default is Some
}

/// One `name = literal` line of an override section.
#[derive(Debug)]
pub struct Entry {
    pub name: String,
    pub value: RawValue,
}

/// The overrides that a document holds for one component.
#[derive(Debug)]
pub struct Section {
    pub identity: String,
    pub entries: Vec<Entry>,
}

/// An override document: one section per component identity. Where a name
/// occurs twice, the first occurrence counts.
#[derive(Debug)]
pub struct OverrideDocument {
    pub sections: Vec<Section>,
}

/// The literal given for `name`, from the first entry that carries it.
pub open spec fn lookup_entry(entries: Seq<Entry>, name: Seq<char>) -> Option<RawValue>
    decreases entries.len(),
{
    if entries.len() == 0 {
        None
    } else if entries[0].name@ == name {
        Some(entries[0].value)
    } else {
        lookup_entry(entries.drop_first(), name)
    }
}

/// The section of the first component whose identity is `identity`.
pub open spec fn lookup_section(sections: Seq<Section>, identity: Seq<char>) -> Option<Section>
    decreases sections.len(),
{
    if sections.len() == 0 {
        None
    } else if sections[0].identity@ == identity {
        Some(sections[0])
    } else {
        lookup_section(sections.drop_first(), identity)
    }
}

/// The overrides that apply to `identity`: none without a document, or where
/// the document has no section for it.
pub open spec fn overrides_for(doc: Option<OverrideDocument>, identity: Seq<char>) -> Seq<Entry> {
    match doc {
        Some(d) => match lookup_section(d.sections@, identity) {
            Some(s) => s.entries@,
            None => Seq::empty(),
        },
        None => Seq::empty(),
    }
}

/// Finds the literal that `entries` give for `name`.
pub fn find_entry<'a>(entries: &'a Vec<Entry>, name: &str) -> (r: Option<&'a RawValue>)
    ensures
        match r {
            Some(v) => lookup_entry(entries@, name@) == Some(*v),
            None => lookup_entry(entries@, name@) is None,
        },
{
    let mut i: usize = 0;
    assert(entries@.subrange(0, entries@.len() as int) =~= entries@);
    while i < entries.len()
        invariant
            i <= entries@.len(),
            lookup_entry(entries@, name@) == lookup_entry(entries@.subrange(i as int, entries@.len() as int), name@),
        decreases entries@.len() - i,
    {
        let ghost rest = entries@.subrange(i as int, entries@.len() as int);
        assert(rest.drop_first() =~= entries@.subrange(i + 1, entries@.len() as int));
        if same_text(entries[i].name.as_str(), name) {
            return Some(&entries[i].value);
        }
        i = i + 1;
    }
    None
}

/// Finds the section that `doc` holds for `identity`.
pub fn find_section<'a>(doc: &'a OverrideDocument, identity: &str) -> (r: Option<&'a Section>)
    ensures
        match r {
            Some(s) => lookup_section(doc.sections@, identity@) == Some(*s),
            None => lookup_section(doc.sections@, identity@) is None,
        },
{
    let mut i: usize = 0;
    assert(doc.sections@.subrange(0, doc.sections@.len() as int) =~= doc.sections@);
    while i < doc.sections.len()
        invariant
            i <= doc.sections@.len(),
            lookup_section(doc.sections@, identity@) == lookup_section(
                doc.sections@.subrange(i as int, doc.sections@.len() as int),
                identity@,
            ),
        decreases doc.sections@.len() - i,
    {
        let ghost rest = doc.sections@.subrange(i as int, doc.sections@.len() as int);
        assert(rest.drop_first() =~= doc.sections@.subrange(i + 1, doc.sections@.len() as int));
        if same_text(doc.sections[i].identity.as_str(), identity) {
            return Some(&doc.sections[i]);
        }
        i = i + 1;
    }
    None
}

} // verus!
