//! The targets that the program is built for.

use crate::tasks::{position_of, TargetView, UnknownTarget};
use crate::text::same_text;
use vstd::prelude::*;

verus! {

/// A target of the program: its name, the name of the target for the
/// compiler, and the name of the program file.
#[derive(Debug, Clone, Copy, PartialEq, Eq)]
pub struct CliTarget {
    pub name: &'static str,
    pub cargo_target: &'static str,
    pub binary_name: &'static str,
}

impl View for CliTarget {
    type V = TargetView;

    open spec fn view(&self) -> TargetView {
        TargetView {
            name: self.name@,
            cargo_target: self.cargo_target@,
            artifact: self.binary_name@,
        }
    }
}

/// The targets as mathematical values.
pub open spec fn targets_view(targets: Seq<CliTarget>) -> Seq<TargetView> {
    targets.map_values(|t: CliTarget| t@)
}

/// The targets that there are, in the order in which they are built.
pub open spec fn all_targets() -> Seq<TargetView> {
    seq![
        TargetView { name: "macos-arm64"@, cargo_target: "aarch64-apple-darwin"@, artifact: "novelsaga"@ },
        TargetView { name: "macos-x64"@, cargo_target: "x86_64-apple-darwin"@, artifact: "novelsaga"@ },
        TargetView { name: "windows-arm64"@, cargo_target: "aarch64-pc-windows-gnullvm"@, artifact: "novelsaga.exe"@ },
        TargetView { name: "windows-x64"@, cargo_target: "x86_64-pc-windows-gnu"@, artifact: "novelsaga.exe"@ },
        TargetView { name: "linux-arm64"@, cargo_target: "aarch64-unknown-linux-gnu"@, artifact: "novelsaga"@ },
        TargetView { name: "linux-x64"@, cargo_target: "x86_64-unknown-linux-gnu"@, artifact: "novelsaga"@ },
    ]
}

impl CliTarget {
    /// The targets that there are.
    pub fn all() -> (table: Vec<CliTarget>)
        ensures
            targets_view(table@) == all_targets(),
    {
        let mut table: Vec<CliTarget> = Vec::new();
        table.push(CliTarget { name: "macos-arm64", cargo_target: "aarch64-apple-darwin", binary_name: "novelsaga" });
        table.push(CliTarget { name: "macos-x64", cargo_target: "x86_64-apple-darwin", binary_name: "novelsaga" });
        table.push(CliTarget { name: "windows-arm64", cargo_target: "aarch64-pc-windows-gnullvm", binary_name: "novelsaga.exe" });
        table.push(CliTarget { name: "windows-x64", cargo_target: "x86_64-pc-windows-gnu", binary_name: "novelsaga.exe" });
        table.push(CliTarget { name: "linux-arm64", cargo_target: "aarch64-unknown-linux-gnu", binary_name: "novelsaga" });
        table.push(CliTarget { name: "linux-x64", cargo_target: "x86_64-unknown-linux-gnu", binary_name: "novelsaga" });
        assert(targets_view(table@) =~= all_targets());
        table
    }

    /// The target named `name`: the first of that name among the targets
    /// that there are, and an error that names the name if there is none.
    pub fn from_name(name: &str) -> (r: Result<CliTarget, UnknownTarget>)
        ensures
            ({
                let at = position_of(all_targets(), name@, 0);
                if at < all_targets().len() {
                    r matches Ok(target) && target@ == all_targets()[at]
                } else {
                    r matches Err(e) && e.name@ == name@
                }
            }),
    {
        let table = Self::all();
        let mut i: usize = 0;
        while i < table.len()
            invariant
                i <= table.len(),
                targets_view(table@) == all_targets(),
                position_of(all_targets(), name@, 0) == position_of(all_targets(), name@, i as int),
            decreases table.len() - i,
        {
            assert(all_targets()[i as int] == table@[i as int]@);
            if same_text(table[i].name, name) {
                return Ok(table[i]);
            }
            i += 1;
        }
        Err(UnknownTarget { name: String::from_str(name) })
    }
}

} // verus!
