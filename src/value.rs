use vstd::prelude::*;

verus! {

/// A literal as it stands in a schema default or in an override document,
/// before it is checked against the type of the field it is meant for.
#[derive(Debug)]
pub enum RawValue {
    Integer(i64),
    Boolean(bool),
    Text(String),
    /// Any other literal (a float, a date, an array, a table), kept as its
    /// source text; no field type accepts it.
    Other(String),
}

/// The declared type of a schema field.
#[derive(Clone, Copy, Debug)]
pub enum FieldType {
    U8,
    U16,
    U32,
    U64,
    Usize,
    I8,
    I16,
    I32,
    I64,
    Isize,
    Bool,
    Str,
}

/// A literal that was accepted for a field type.
#[derive(Debug)]
pub enum ParsedValue {
    Int(i64),
    Bool(bool),
    Str(String),
}

/// The inclusive range of an integer field type; `None` for the others.
/// Pointer-sized types take the 64-bit range.
pub open spec fn int_range(ty: FieldType) -> Option<(int, int)> {
    match ty {
        FieldType::U8 => Some((0, 0xff)),
        FieldType::U16 => Some((0, 0xffff)),
        FieldType::U32 => Some((0, 0xffff_ffff)),
        FieldType::U64 | FieldType::Usize => Some((0, 0xffff_ffff_ffff_ffff)),
        FieldType::I8 => Some((-0x80, 0x7f)),
        FieldType::I16 => Some((-0x8000, 0x7fff)),
        FieldType::I32 => Some((-0x8000_0000, 0x7fff_ffff)),
        FieldType::I64 | FieldType::Isize => Some((-0x8000_0000_0000_0000, 0x7fff_ffff_ffff_ffff)),
        _ => None,
    }
}

/// What a literal parses to as a value of `ty`, if it does.
pub open spec fn parse_spec(raw: RawValue, ty: FieldType) -> Option<ParsedValue> {
    match raw {
        RawValue::Integer(n) => match int_range(ty) {
            Some((lo, hi)) => if lo <= n <= hi {
                Some(ParsedValue::Int(n))
            } else {
                None
            },
            None => None,
        },
        RawValue::Boolean(b) => match ty {
            FieldType::Bool => Some(ParsedValue::Bool(b)),
            _ => None,
        },
        RawValue::Text(s) => match ty {
            FieldType::Str => Some(ParsedValue::Str(s)),
            _ => None,
        },
        RawValue::Other(_) => None,
    }
}

impl RawValue {
    pub fn duplicate(&self) -> (r: RawValue)
        ensures
            r == *self,
    {
        match self {
            RawValue::Integer(n) => RawValue::Integer(*n),
            RawValue::Boolean(b) => RawValue::Boolean(*b),
            RawValue::Text(s) => RawValue::Text(s.clone()),
            RawValue::Other(s) => RawValue::Other(s.clone()),
        }
    }
}

impl ParsedValue {
    pub fn duplicate(&self) -> (r: ParsedValue)
        ensures
            r == *self,
    {
        match self {
            ParsedValue::Int(n) => ParsedValue::Int(*n),
            ParsedValue::Bool(b) => ParsedValue::Bool(*b),
            ParsedValue::Str(s) => ParsedValue::Str(s.clone()),
        }
    }
}

/// The inclusive bounds of an integer field type, clipped to what an `i64`
/// literal can reach.
fn int_bounds(ty: FieldType) -> (r: Option<(i64, i64)>)
    ensures
        r is None <==> int_range(ty) is None,
        r matches Some((lo, hi)) ==> ({
            let (slo, shi) = int_range(ty)->Some_0;
            lo == slo && (hi == shi || (shi > i64::MAX && hi == i64::MAX))
        }),
{
    match ty {
        FieldType::U8 => Some((0, 0xff)),
        FieldType::U16 => Some((0, 0xffff)),
        FieldType::U32 => Some((0, 0xffff_ffff)),
        FieldType::U64 | FieldType::Usize => Some((0, i64::MAX)),
        FieldType::I8 => Some((-0x80, 0x7f)),
        FieldType::I16 => Some((-0x8000, 0x7fff)),
        FieldType::I32 => Some((-0x8000_0000, 0x7fff_ffff)),
        FieldType::I64 | FieldType::Isize => Some((i64::MIN, i64::MAX)),
        _ => None,
    }
}

/// Checks a literal against a field type.
pub fn parse_value(raw: &RawValue, ty: FieldType) -> (r: Option<ParsedValue>)
    ensures
        r == parse_spec(*raw, ty),
{
    match raw {
        RawValue::Integer(n) => match int_bounds(ty) {
            Some((lo, hi)) => if lo <= *n && *n <= hi {
                Some(ParsedValue::Int(*n))
            } else {
                None
            },
            None => None,
        },
        RawValue::Boolean(b) => match ty {
            FieldType::Bool => Some(ParsedValue::Bool(*b)),
            _ => None,
        },
        RawValue::Text(s) => match ty {
            FieldType::Str => Some(ParsedValue::Str(s.clone())),
            _ => None,
        },
        RawValue::Other(_) => None,
    }
}

} // verus!
