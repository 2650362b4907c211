//! What the build tasks know: the targets that the program and the shared
//! library are built for, and the scripts of the bridge in the order in
//! which they are built.

pub mod bridges;
pub mod cli;
pub mod so;

use vstd::prelude::*;

verus! {

/// A target as mathematical value: its name, the name of the target for
/// the compiler, and the file that the build leaves.
pub struct TargetView {
    pub name: Seq<char>,
    pub cargo_target: Seq<char>,
    pub artifact: Seq<char>,
}

/// Index of the first target of `table`, at or after `from`, that is named
/// `name`; the length of the table if there is none.
pub open spec fn position_of(table: Seq<TargetView>, name: Seq<char>, from: int) -> int
    decreases table.len() - from,
{
    if 0 <= from < table.len() && table[from].name != name {
        position_of(table, name, from + 1)
    } else {
        from
    }
}

/// The error for a name that no target has.
#[derive(Debug)]
pub struct UnknownTarget {
    pub name: String,
}

impl UnknownTarget {
    /// The error as a line of text for the user.
    pub fn message(&self) -> (s: String)
        ensures
            s@ == "Unknown target: "@ + self.name@,
    {
        let mut s = String::from_str("Unknown target: ");
        s.append(self.name.as_str());
        s
    }
}

} // verus!
