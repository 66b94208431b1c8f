use vstd::prelude::*;
use crate::text::{contains_seq, contains_text};

verus! {

/// The text whose presence in the strict-mode signal switches strict mode on.
pub const STRICT_MARKER: &'static str = "require_cfg_present";

/// Strict mode is on when the signal is set and holds the marker.
pub open spec fn strict_enabled(signal: Option<Seq<char>>) -> bool {
    match signal {
        Some(s) => contains_seq(s, STRICT_MARKER@),
        None => false,
    }
}

pub open spec fn signal_view(signal: Option<&str>) -> Option<Seq<char>> {
    match signal {
        Some(s) => Some(s@),
        None => None,
    }
}

/// Reads the strict-mode policy from the value of its signal, if it is set.
pub fn strict_mode(signal: Option<&str>) -> (r: bool)
    ensures
        r == strict_enabled(signal_view(signal)),
{
    match signal {
        Some(s) => contains_text(s, STRICT_MARKER),
        None => false,
    }
}

} // verus!
