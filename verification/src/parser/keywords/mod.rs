//! Keywords, attributes and enumerated values with their Chinese spellings.
//! The canonical form of every value is English; Chinese aliases appear only
//! at the parsing boundary.

pub mod actions;
pub mod spellings;
pub mod table;
pub mod unique;
pub mod values;
pub mod world_values;

use vstd::prelude::*;

verus! {

/// The view of an optional static string.
pub open spec fn opt_str(r: Option<&str>) -> Option<Seq<char>> {
    match r {
        Some(s) => Some(s@),
        None => None,
    }
}

/// The view of an optional pair of static strings.
pub open spec fn opt_pair(r: Option<(&str, &str)>) -> Option<(Seq<char>, Seq<char>)> {
    match r {
        Some(p) => Some((p.0@, p.1@)),
        None => None,
    }
}

} // verus!
