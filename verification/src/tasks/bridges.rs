//! The scripts of the bridge, in the order in which they are built.

use vstd::prelude::*;

verus! {

/// A script package of the bridge: its name, and where its sources lie
/// below the root of the workspace.
#[derive(Debug, Clone, Copy, PartialEq, Eq)]
pub struct BridgeConfig {
    pub name: &'static str,
    pub src_dir: &'static str,
}

/// The packages as pairs of name and source directory.
pub open spec fn layer_view(layer: Seq<BridgeConfig>) -> Seq<(Seq<char>, Seq<char>)> {
    layer.map_values(|b: BridgeConfig| (b.name@, b.src_dir@))
}

/// The layers as mathematical values.
pub open spec fn layers_view(layers: Seq<Vec<BridgeConfig>>) -> Seq<Seq<(Seq<char>, Seq<char>)>> {
    layers.map_values(|l: Vec<BridgeConfig>| layer_view(l@))
}

/// The packages in layers: a layer is built once the layers before it are,
/// and the packages of one layer can be built side by side. First what
/// all others need, then one adapter for each runtime, last the bridge for
/// configuration files.
pub open spec fn bridge_layers() -> Seq<Seq<(Seq<char>, Seq<char>)>> {
    seq![
        seq![("bridge-core"@, "projects/cli-js-bridges/bridge-core"@)],
        seq![
            ("bridge-nodejs"@, "projects/cli-js-bridges/bridge-nodejs"@),
            ("bridge-deno"@, "projects/cli-js-bridges/bridge-deno"@),
            ("bridge-bun"@, "projects/cli-js-bridges/bridge-bun"@),
        ],
        seq![("config-bridge"@, "projects/cli-js-bridges/config-bridge"@)],
    ]
}

/// There is a layer, no layer is empty, and every package has a name and a
/// source directory.
pub proof fn lemma_bridge_layers_filled()
    ensures
        bridge_layers().len() > 0,
        forall|i: int| 0 <= i < bridge_layers().len() ==> (#[trigger] bridge_layers()[i]).len() > 0,
        forall|i: int, j: int|
            0 <= i < bridge_layers().len() && 0 <= j < bridge_layers()[i].len() ==> (
            #[trigger] bridge_layers()[i][j]).0.len() > 0 && bridge_layers()[i][j].1.len() > 0,
{
    reveal_strlit("bridge-core");
    reveal_strlit("bridge-nodejs");
    reveal_strlit("bridge-deno");
    reveal_strlit("bridge-bun");
    reveal_strlit("config-bridge");
    reveal_strlit("projects/cli-js-bridges/bridge-core");
    reveal_strlit("projects/cli-js-bridges/bridge-nodejs");
    reveal_strlit("projects/cli-js-bridges/bridge-deno");
    reveal_strlit("projects/cli-js-bridges/bridge-bun");
    reveal_strlit("projects/cli-js-bridges/config-bridge");
}

/// The packages of the bridge in their layers.
pub fn bridges() -> (layers: Vec<Vec<BridgeConfig>>)
    ensures
        layers_view(layers@) == bridge_layers(),
{
    let mut first: Vec<BridgeConfig> = Vec::new();
    first.push(BridgeConfig { name: "bridge-core", src_dir: "projects/cli-js-bridges/bridge-core" });
    let mut second: Vec<BridgeConfig> = Vec::new();
    second.push(
        BridgeConfig { name: "bridge-nodejs", src_dir: "projects/cli-js-bridges/bridge-nodejs" },
    );
    second.push(
        BridgeConfig { name: "bridge-deno", src_dir: "projects/cli-js-bridges/bridge-deno" },
    );
    second.push(BridgeConfig { name: "bridge-bun", src_dir: "projects/cli-js-bridges/bridge-bun" });
    let mut third: Vec<BridgeConfig> = Vec::new();
    third.push(
        BridgeConfig { name: "config-bridge", src_dir: "projects/cli-js-bridges/config-bridge" },
    );
    assert(layer_view(first@) =~= bridge_layers()[0]);
    assert(layer_view(second@) =~= bridge_layers()[1]);
    assert(layer_view(third@) =~= bridge_layers()[2]);
    let mut layers: Vec<Vec<BridgeConfig>> = Vec::new();
    layers.push(first);
    layers.push(second);
    layers.push(third);
    assert(layers_view(layers@) =~= bridge_layers());
    layers
}

} // verus!
