//! The targets that the shared library is built for.

use crate::tasks::{position_of, TargetView, UnknownTarget};
use crate::text::same_text;
use vstd::prelude::*;

verus! {

/// A target of the shared library: its name, the name of the target for the
/// compiler, and the name of the library file.
#[derive(Debug, Clone, Copy, PartialEq, Eq)]
pub struct SoTarget {
    pub name: &'static str,
    pub cargo_target: &'static str,
    pub lib_name: &'static str,
}

impl View for SoTarget {
    type V = TargetView;

    open spec fn view(&self) -> TargetView {
        TargetView {
            name: self.name@,
            cargo_target: self.cargo_target@,
            artifact: self.lib_name@,
        }
    }
}

/// The targets as mathematical values.
pub open spec fn targets_view(targets: Seq<SoTarget>) -> Seq<TargetView> {
    targets.map_values(|t: SoTarget| t@)
}

/// The targets that there are, in the order in which they are built.
pub open spec fn all_targets() -> Seq<TargetView> {
    seq![
        TargetView { name: "macos-arm64"@, cargo_target: "aarch64-apple-darwin"@, artifact: "libnovelsaga_core.dylib"@ },
        TargetView { name: "macos-x64"@, cargo_target: "x86_64-apple-darwin"@, artifact: "libnovelsaga_core.dylib"@ },
        TargetView { name: "windows-arm64"@, cargo_target: "aarch64-pc-windows-gnullvm"@, artifact: "novelsaga_core.dll"@ },
        TargetView { name: "windows-x64"@, cargo_target: "x86_64-pc-windows-gnu"@, artifact: "novelsaga_core.dll"@ },
        TargetView { name: "linux-arm64"@, cargo_target: "aarch64-unknown-linux-gnu"@, artifact: "libnovelsaga_core.so"@ },
        TargetView { name: "linux-x64"@, cargo_target: "x86_64-unknown-linux-gnu"@, artifact: "libnovelsaga_core.so"@ },
        TargetView { name: "android-arm64"@, cargo_target: "aarch64-linux-android"@, artifact: "libnovelsaga_core.so"@ },
    ]
}

impl SoTarget {
    /// The targets that there are.
    pub fn all() -> (table: Vec<SoTarget>)
        ensures
            targets_view(table@) == all_targets(),
    {
        let mut table: Vec<SoTarget> = Vec::new();
        table.push(SoTarget { name: "macos-arm64", cargo_target: "aarch64-apple-darwin", lib_name: "libnovelsaga_core.dylib" });
        table.push(SoTarget { name: "macos-x64", cargo_target: "x86_64-apple-darwin", lib_name: "libnovelsaga_core.dylib" });
        table.push(SoTarget { name: "windows-arm64", cargo_target: "aarch64-pc-windows-gnullvm", lib_name: "novelsaga_core.dll" });
        table.push(SoTarget { name: "windows-x64", cargo_target: "x86_64-pc-windows-gnu", lib_name: "novelsaga_core.dll" });
        table.push(SoTarget { name: "linux-arm64", cargo_target: "aarch64-unknown-linux-gnu", lib_name: "libnovelsaga_core.so" });
        table.push(SoTarget { name: "linux-x64", cargo_target: "x86_64-unknown-linux-gnu", lib_name: "libnovelsaga_core.so" });
        table.push(SoTarget { name: "android-arm64", cargo_target: "aarch64-linux-android", lib_name: "libnovelsaga_core.so" });
        assert(targets_view(table@) =~= all_targets());
        table
    }

    /// The target named `name`: the first of that name among the targets
    /// that there are, and an error that names the name if there is none.
    pub fn from_name(name: &str) -> (r: Result<SoTarget, UnknownTarget>)
        ensures
            ({
                let at = position_of(all_targets(), name@, 0);
                if at < all_targets().len() {
                    r matches Ok(target) && target@ == all_targets()[at]
                } else {
                    r matches Err(e) && e.name@ == name@
                }
            }),
    {
        let table = Self::all();
        let mut i: usize = 0;
        while i < table.len()
            invariant
                i <= table.len(),
                targets_view(table@) == all_targets(),
                position_of(all_targets(), name@, 0) == position_of(all_targets(), name@, i as int),
            decreases table.len() - i,
        {
            assert(all_targets()[i as int] == table@[i as int]@);
            if same_text(table[i].name, name) {
                return Ok(table[i]);
            }
            i += 1;
        }
        Err(UnknownTarget { name: String::from_str(name) })
    }
}

} // verus!
