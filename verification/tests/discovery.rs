use novelsaga::bridge::error::BridgeError;
use novelsaga::bridge::runtime::discovery::{
    run_args, read_version, LocateResult, ProbeResult, RuntimeDiscovery, RuntimeInfo, RuntimeType,
    SearchProgress,
};

fn info(runtime_type: RuntimeType, path: &str, version: &str) -> RuntimeInfo {
    RuntimeInfo { runtime_type, path: path.to_string(), version: version.to_string() }
}

/// A host for the searches: which executables the search path knows, and
/// what each path answers when it is run with `--version`.
struct FakeHost {
    located: Vec<(&'static str, &'static str)>,
    versions: Vec<(&'static str, &'static str)>,
    broken: Vec<&'static str>,
    asked_to_locate: Vec<String>,
    probed: Vec<String>,
}

impl FakeHost {
    fn new(located: Vec<(&'static str, &'static str)>, versions: Vec<(&'static str, &'static str)>) -> Self {
        FakeHost { located, versions, broken: Vec::new(), asked_to_locate: Vec::new(), probed: Vec::new() }
    }

    fn locate(&mut self, executable: &str) -> LocateResult {
        self.asked_to_locate.push(executable.to_string());
        match self.located.iter().find(|(name, _)| *name == executable) {
            Some((_, stdout)) => LocateResult::Found { stdout: stdout.to_string() },
            None => LocateResult::Unavailable,
        }
    }

    fn probe(&mut self, path: &str) -> ProbeResult {
        self.probed.push(path.to_string());
        if self.broken.iter().any(|p| *p == path) {
            return ProbeResult::Failed { cause: "permission denied".to_string() };
        }
        match self.versions.iter().find(|(p, _)| *p == path) {
            Some((_, stdout)) => ProbeResult::Succeeded { stdout: stdout.to_string() },
            None => ProbeResult::NotFound,
        }
    }

    fn run(&mut self, start: SearchProgress) -> Result<Vec<RuntimeInfo>, BridgeError> {
        let mut progress = start;
        loop {
            progress = match progress {
                SearchProgress::Locate(search) => {
                    let answer = self.locate(&search.executable());
                    search.located(answer)
                }
                SearchProgress::Probe(search) => {
                    let answer = self.probe(search.path());
                    search.probed(answer)
                }
                SearchProgress::Done(result) => return result,
            };
        }
    }
}

#[test]
fn test_runtime_type_executable_name() {
    assert_eq!(RuntimeType::NodeJs.executable_name(), "node");
    assert_eq!(RuntimeType::Bun.executable_name(), "bun");
    assert_eq!(RuntimeType::Deno.executable_name(), "deno");
}

#[test]
fn test_runtime_type_executable_filename_windows() {
    assert_eq!(RuntimeType::NodeJs.executable_filename(true), "node.exe");
    assert_eq!(RuntimeType::Bun.executable_filename(true), "bun.exe");
    assert_eq!(RuntimeType::Deno.executable_filename(true), "deno.exe");
}

#[test]
fn test_runtime_type_executable_filename_unix() {
    assert_eq!(RuntimeType::NodeJs.executable_filename(false), "node");
    assert_eq!(RuntimeType::Bun.executable_filename(false), "bun");
    assert_eq!(RuntimeType::Deno.executable_filename(false), "deno");
}

#[test]
fn test_supports_native_typescript() {
    let info_old = info(RuntimeType::NodeJs, "/usr/bin/node", "v20.0.0");
    assert!(!info_old.supports_native_typescript());

    let info_new = info(RuntimeType::NodeJs, "/usr/bin/node", "v23.6.0");
    assert!(info_new.supports_native_typescript());

    let info_newer = info(RuntimeType::NodeJs, "/usr/bin/node", "v24.0.0");
    assert!(info_newer.supports_native_typescript());

    let info_bun = info(RuntimeType::Bun, "/usr/bin/bun", "1.0.0");
    assert!(info_bun.supports_native_typescript());
}

#[test]
fn test_get_run_args() {
    let node_info = info(RuntimeType::NodeJs, "/usr/bin/node", "v23.6.0");

    let js_args = node_info.get_run_args("script.js");
    assert_eq!(js_args, vec!["script.js"]);

    let ts_args = node_info.get_run_args("script.ts");
    assert_eq!(ts_args, vec!["--experimental-strip-types", "script.ts"]);

    let bun_info = info(RuntimeType::Bun, "/usr/bin/bun", "1.0.0");
    let bun_args = bun_info.get_run_args("script.js");
    assert_eq!(bun_args, vec!["run", "script.js"]);

    let deno_info = info(RuntimeType::Deno, "/usr/bin/deno", "2.0.0");
    let deno_args = deno_info.get_run_args("script.js");
    assert_eq!(deno_args, vec!["run", "--allow-read", "--allow-env", "script.js"]);
}

#[test]
fn capability_rule_at_the_boundary() {
    assert!(!info(RuntimeType::NodeJs, "node", "v23.5.9").supports_native_typescript());
    assert!(info(RuntimeType::NodeJs, "node", "v23.6.0").supports_native_typescript());
    assert!(info(RuntimeType::NodeJs, "node", "v24.0.0").supports_native_typescript());
    assert!(info(RuntimeType::Bun, "bun", "1.0.0").supports_native_typescript());
    assert!(info(RuntimeType::Deno, "deno", "2.0.0").supports_native_typescript());
}

#[test]
fn capability_rule_goes_by_the_numbers() {
    let node = |version: &str| info(RuntimeType::NodeJs, "node", version).supports_native_typescript();
    // The major number alone decides above and below 23.
    assert!(node("v24"));
    assert!(node("v24."));
    assert!(node("v24.0.0"));
    assert!(node("v100.0.0-nightly"));
    assert!(!node("v22"));
    assert!(!node("v22.99.0"));
    assert!(!node("v0.6.0"));
    // With 23 the minor number decides, with or without a patch number.
    assert!(node("v23.6"));
    assert!(node("v23.6.0"));
    assert!(node("v23.7"));
    assert!(node("v23.10.1"));
    assert!(!node("v23"));
    assert!(!node("v23."));
    assert!(!node("v23.5"));
    assert!(!node("v23.5.9"));
    assert!(!node("v23.05.0"));
    // The leading `v` may be missing.
    assert!(node("23.6.1"));
    assert!(node("24.0.0"));
    assert!(!node("23.5.0"));
    // A text that holds no number where one is due is no version.
    assert!(!node(""));
    assert!(!node("v"));
    assert!(!node("vv24.0.0"));
    assert!(!node("vx.1.2"));
    assert!(!node("v23.x.2"));
    assert!(!node("v23.6-rc.1"));
    assert!(!node("v-24.0.0"));
    assert!(!node("v 24.0.0"));
    // Numbers are read as 32-bit numbers are.
    assert!(node("v+24.0.0"));
    assert!(node("v023.10.0"));
    assert!(node("v4294967295.0.0"));
    assert!(!node("v4294967296.0.0"));
    assert!(!node("v23.4294967296.0"));
}

#[test]
fn run_args_for_typescript_scripts() {
    let old_node = info(RuntimeType::NodeJs, "node", "v20.0.0");
    assert_eq!(old_node.get_run_args("script.ts"), vec!["script.ts"]);
    let node = info(RuntimeType::NodeJs, "node", "v23.6.0");
    assert_eq!(node.get_run_args("dir/script.mts"), vec!["--experimental-strip-types", "dir/script.mts"]);
    assert_eq!(node.get_run_args("script.cts"), vec!["--experimental-strip-types", "script.cts"]);
    assert_eq!(node.get_run_args("script.tsx"), vec!["script.tsx"]);
    assert_eq!(node.get_run_args("ts"), vec!["ts"]);
    let bun = info(RuntimeType::Bun, "bun", "1.0.0");
    assert_eq!(bun.get_run_args("script.ts"), vec!["run", "script.ts"]);
}

#[test]
fn run_args_is_a_function_of_its_arguments() {
    assert_eq!(
        run_args(RuntimeType::NodeJs, true, "a.ts", Some("ts")),
        vec!["--experimental-strip-types", "a.ts"]
    );
    assert_eq!(run_args(RuntimeType::NodeJs, false, "a.ts", Some("ts")), vec!["a.ts"]);
    assert_eq!(run_args(RuntimeType::NodeJs, true, "a.ts", Some("js")), vec!["a.ts"]);
    assert_eq!(run_args(RuntimeType::NodeJs, true, "a", None), vec!["a"]);
    assert_eq!(
        run_args(RuntimeType::Deno, true, "a.ts", Some("ts")),
        vec!["run", "--allow-read", "--allow-env", "a.ts"]
    );
}

#[test]
fn version_of_a_probe() {
    let v = read_version("/usr/bin/node", ProbeResult::Succeeded { stdout: "v23.6.0\n".to_string() });
    assert_eq!(v.unwrap(), Some("v23.6.0".to_string()));
    assert_eq!(read_version("node", ProbeResult::Unsuccessful).unwrap(), None);
    assert_eq!(read_version("node", ProbeResult::NotFound).unwrap(), None);
    match read_version("/opt/node", ProbeResult::Failed { cause: "permission denied".to_string() }) {
        Err(BridgeError::IoError { context, source }) => {
            assert_eq!(context, "Failed to get runtime version from /opt/node");
            assert_eq!(source, "permission denied");
        }
        other => panic!("unexpected: {:?}", other),
    }
}

#[test]
fn find_runtime_on_the_search_path() {
    let mut host = FakeHost::new(
        vec![("node", "/usr/local/bin/node\n/usr/bin/node\n")],
        vec![("/usr/local/bin/node", " v22.1.0 \n")],
    );
    let found = host.run(RuntimeDiscovery::new().find_runtime(RuntimeType::NodeJs)).unwrap();
    let found = RuntimeDiscovery::found_runtime(found).unwrap();
    assert_eq!(found.runtime_type, RuntimeType::NodeJs);
    assert_eq!(found.path, "/usr/local/bin/node");
    assert_eq!(found.version, "v22.1.0");
    assert_eq!(host.asked_to_locate, vec!["node"]);
    assert_eq!(host.probed, vec!["/usr/local/bin/node"]);
}

#[test]
fn find_runtime_falls_back_to_the_bare_name() {
    let mut host = FakeHost::new(vec![], vec![("bun", "1.1.0\n")]);
    let found = host.run(RuntimeDiscovery::new().find_runtime(RuntimeType::Bun)).unwrap();
    assert_eq!(found.len(), 1);
    assert_eq!(found[0].path, "bun");
    assert_eq!(found[0].version, "1.1.0");
    assert_eq!(host.probed, vec!["bun"]);

    // A located path at which nothing runs is followed by the bare name.
    let mut host = FakeHost::new(vec![("deno", "/gone/deno\n")], vec![("deno", "deno 2.0.0")]);
    let found = host.run(RuntimeDiscovery::new().find_runtime(RuntimeType::Deno)).unwrap();
    assert_eq!(found[0].path, "deno");
    assert_eq!(host.probed, vec!["/gone/deno", "deno"]);

    // An answer without a path counts as none.
    let mut host = FakeHost::new(vec![("node", "\n/usr/bin/node\n")], vec![("/usr/bin/node", "v1")]);
    let found = host.run(RuntimeDiscovery::new().find_runtime(RuntimeType::NodeJs)).unwrap();
    assert!(found.is_empty());
    assert_eq!(host.probed, vec!["node"]);
}

#[test]
fn find_runtime_on_windows_asks_for_exe() {
    let mut host = FakeHost::new(vec![], vec![("node.exe", "v20.0.0")]);
    let found = host.run(RuntimeDiscovery::for_platform(true).find_runtime(RuntimeType::NodeJs)).unwrap();
    assert_eq!(host.asked_to_locate, vec!["node.exe"]);
    assert_eq!(found[0].path, "node.exe");
}

#[test]
fn a_user_path_is_probed_and_nothing_else() {
    let mut host = FakeHost::new(vec![("node", "/usr/bin/node")], vec![("/usr/bin/node", "v20.0.0")]);
    let start = RuntimeDiscovery::new().find_runtime_with_path(RuntimeType::NodeJs, Some("/opt/node".to_string()));
    let found = host.run(start).unwrap();
    assert!(found.is_empty());
    assert!(host.asked_to_locate.is_empty());
    assert_eq!(host.probed, vec!["/opt/node"]);

    let mut host = FakeHost::new(vec![], vec![("/opt/node", "v21.0.0")]);
    let start = RuntimeDiscovery::new().find_runtime_with_path(RuntimeType::NodeJs, Some("/opt/node".to_string()));
    let found = host.run(start).unwrap();
    assert_eq!(found[0].path, "/opt/node");
    assert_eq!(found[0].version, "v21.0.0");
}

#[test]
fn a_probe_that_cannot_start_is_a_hard_error() {
    let mut host = FakeHost::new(vec![("node", "/usr/bin/node")], vec![]);
    host.broken.push("/usr/bin/node");
    match host.run(RuntimeDiscovery::new().find_best_runtime()) {
        Err(BridgeError::IoError { context, source }) => {
            assert_eq!(context, "Failed to get runtime version from /usr/bin/node");
            assert_eq!(source, "permission denied");
        }
        other => panic!("unexpected: {:?}", other),
    }
    assert_eq!(host.asked_to_locate, vec!["node"]);
}

#[test]
fn find_best_runtime_takes_the_first_in_priority_order() {
    let mut host = FakeHost::new(
        vec![("bun", "/b/bun"), ("deno", "/d/deno")],
        vec![("/b/bun", "1.0.0"), ("/d/deno", "2.0.0")],
    );
    let found = host.run(RuntimeDiscovery::new().find_best_runtime()).unwrap();
    let best = RuntimeDiscovery::best_runtime(found).unwrap();
    assert_eq!(best.runtime_type, RuntimeType::Bun);
    assert_eq!(host.asked_to_locate, vec!["node", "bun"]);

    let mut host = FakeHost::new(vec![], vec![]);
    let found = host.run(RuntimeDiscovery::new().find_best_runtime()).unwrap();
    assert_eq!(host.asked_to_locate, vec!["node", "bun", "deno"]);
    match RuntimeDiscovery::best_runtime(found) {
        Err(BridgeError::Other(message)) => {
            assert!(message.contains("Node.js (https://nodejs.org/)"));
            assert!(message.contains("$PATH"));
        }
        other => panic!("unexpected: {:?}", other),
    }
}

#[test]
fn find_all_runtimes_keeps_the_priority_order() {
    let mut host = FakeHost::new(
        vec![("node", "/n/node"), ("deno", "/d/deno")],
        vec![("/n/node", "v20.0.0"), ("/d/deno", "2.0.0")],
    );
    let found = host.run(RuntimeDiscovery::new().find_all_runtimes()).unwrap();
    let kinds: Vec<RuntimeType> = found.iter().map(|i| i.runtime_type).collect();
    assert_eq!(kinds, vec![RuntimeType::NodeJs, RuntimeType::Deno]);
    assert_eq!(host.asked_to_locate, vec!["node", "bun", "deno"]);
}

#[test]
fn find_runtime_with_preference_does_not_fall_back_to_other_kinds() {
    let mut host = FakeHost::new(vec![("node", "/n/node")], vec![("/n/node", "v20.0.0")]);
    let start = RuntimeDiscovery::new().find_runtime_with_preference(Some(RuntimeType::Deno), None);
    let found = host.run(start).unwrap();
    assert_eq!(host.asked_to_locate, vec!["deno"]);
    match RuntimeDiscovery::preferred_runtime(Some(RuntimeType::Deno), None, found) {
        Err(BridgeError::RuntimeNotFound { runtime_type, searched_paths, suggestion }) => {
            assert_eq!(runtime_type, "Deno");
            assert!(searched_paths.starts_with("  - $PATH\n"));
            assert!(suggestion.contains("--deno"));
            assert!(suggestion.contains("Deno"));
        }
        other => panic!("unexpected: {:?}", other),
    }

    let start = RuntimeDiscovery::new()
        .find_runtime_with_preference(Some(RuntimeType::NodeJs), Some("/opt/node".to_string()));
    let found = FakeHost::new(vec![], vec![]).run(start).unwrap();
    match RuntimeDiscovery::preferred_runtime(Some(RuntimeType::NodeJs), Some("/opt/node"), found) {
        Err(BridgeError::RuntimeNotFound { runtime_type, searched_paths, suggestion }) => {
            assert_eq!(runtime_type, "Node.js");
            assert!(searched_paths.ends_with("/opt/node"));
            assert!(suggestion.contains("--node.js"));
        }
        other => panic!("unexpected: {:?}", other),
    }

    // Without a kind the best runtime is looked for.
    let mut host = FakeHost::new(vec![("node", "/n/node")], vec![("/n/node", "v20.0.0")]);
    let start = RuntimeDiscovery::new().find_runtime_with_preference(None, Some("/ignored".to_string()));
    let found = host.run(start).unwrap();
    let best = RuntimeDiscovery::preferred_runtime(None, Some("/ignored"), found).unwrap();
    assert_eq!(best.path, "/n/node");
}
