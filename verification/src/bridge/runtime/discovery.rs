//! Finding a JavaScript runtime, reading its version, and building the
//! command line that runs a script with it.

use crate::bridge::error::BridgeError;
use crate::text::{
    chars_of, first_newline, parse_u32, same_text, string_of, trim_bounds, trimmed, unsigned_value,
};
use vstd::prelude::*;

verus! {

/// The kind of a JavaScript runtime.
#[derive(Debug, Clone, Copy, PartialEq, Eq, Structural)]
pub enum RuntimeType {
    NodeJs,
    Bun,
    Deno,
}

/// The name of the executable of a runtime, without extension.
pub open spec fn executable_name_of(kind: RuntimeType) -> Seq<char> {
    match kind {
        RuntimeType::NodeJs => "node"@,
        RuntimeType::Bun => "bun"@,
        RuntimeType::Deno => "deno"@,
    }
}

/// The file name of the executable of a runtime: on Windows with `.exe`
/// behind the name.
pub open spec fn executable_filename_of(kind: RuntimeType, windows: bool) -> Seq<char> {
    if windows {
        executable_name_of(kind) + ".exe"@
    } else {
        executable_name_of(kind)
    }
}

/// The name of a runtime as it is shown to the user.
pub open spec fn display_name_of(kind: RuntimeType) -> Seq<char> {
    match kind {
        RuntimeType::NodeJs => "Node.js"@,
        RuntimeType::Bun => "Bun"@,
        RuntimeType::Deno => "Deno"@,
    }
}

impl RuntimeType {
    /// The name of the executable, without extension.
    pub fn executable_name(&self) -> (name: &'static str)
        ensures
            name@ == executable_name_of(*self),
    {
        match self {
            RuntimeType::NodeJs => "node",
            RuntimeType::Bun => "bun",
            RuntimeType::Deno => "deno",
        }
    }

    /// The file name of the executable on the platform: `windows` says
    /// whether that is Windows.
    pub fn executable_filename(&self, windows: bool) -> (name: String)
        ensures
            name@ == executable_filename_of(*self, windows),
    {
        let mut name = String::from_str(self.executable_name());
        if windows {
            name.append(".exe");
        }
        name
    }

    /// The name of the runtime as it is shown to the user.
    pub fn display_name(&self) -> (name: &'static str)
        ensures
            name@ == display_name_of(*self),
    {
        match self {
            RuntimeType::NodeJs => "Node.js",
            RuntimeType::Bun => "Bun",
            RuntimeType::Deno => "Deno",
        }
    }
}

/// A runtime that was found: its kind, the path of its executable and the
/// version that it reports.
#[derive(Debug, Clone)]
pub struct RuntimeInfo {
    pub runtime_type: RuntimeType,
    pub path: String,
    pub version: String,
}

/// Mathematical form of [`RuntimeInfo`].
pub struct RuntimeInfoView {
    pub runtime_type: RuntimeType,
    pub path: Seq<char>,
    pub version: Seq<char>,
}

impl View for RuntimeInfo {
    type V = RuntimeInfoView;

    open spec fn view(&self) -> RuntimeInfoView {
        RuntimeInfoView { runtime_type: self.runtime_type, path: self.path@, version: self.version@ }
    }
}

/// Index of the first `.` of `s` at or after `from`; the length of `s` if
/// there is none.
pub open spec fn first_dot(s: Seq<char>, from: int) -> int
    decreases s.len() - from,
{
    if 0 <= from < s.len() && s[from] != '.' {
        first_dot(s, from + 1)
    } else {
        from
    }
}

/// The number that `s` holds, read as a `u32` is read: an optional `+`, then
/// digits, no more than fit.
pub open spec fn u32_of(s: Seq<char>) -> Option<nat> {
    match unsigned_value(s) {
        Some(v) => if v <= u32::MAX {
            Some(v)
        } else {
            None
        },
        None => None,
    }
}

/// Where the numbers of a version start: behind a leading `v`, if there is
/// one.
pub open spec fn numbers_start(version: Seq<char>) -> int {
    if version.len() > 0 && version[0] == 'v' {
        1
    } else {
        0
    }
}

/// The major number of a version: what stands between the start of the
/// numbers and the first dot, or the end of the text if there is no dot.
pub open spec fn major_of(version: Seq<char>) -> Option<nat> {
    let start = numbers_start(version);
    u32_of(version.subrange(start, first_dot(version, start)))
}

/// The minor number of a version: what stands between the first dot and
/// the second, or the end of the text if there is no second. `None` for a
/// version without a dot.
pub open spec fn minor_of(version: Seq<char>) -> Option<nat> {
    let major_end = first_dot(version, numbers_start(version));
    if major_end >= version.len() {
        None
    } else {
        u32_of(version.subrange(major_end + 1, first_dot(version, major_end + 1)))
    }
}

/// Whether the Node.js that reports `version` runs TypeScript itself: from
/// version 23.6 on. That is with a major number above 23, or with the major
/// number 23 and a minor number of at least 6.
pub open spec fn node_supports_typescript(version: Seq<char>) -> bool {
    match major_of(version) {
        None => false,
        Some(major) => major > 23 || (major == 23 && match minor_of(version) {
            Some(minor) => minor >= 6,
            None => false,
        }),
    }
}

/// Whether a runtime of kind `kind` that reports `version` runs TypeScript
/// itself. Bun and Deno always do.
pub open spec fn supports_typescript(kind: RuntimeType, version: Seq<char>) -> bool {
    match kind {
        RuntimeType::NodeJs => node_supports_typescript(version),
        RuntimeType::Bun => true,
        RuntimeType::Deno => true,
    }
}

/// Index of the first `.` of `chars` at or after `from`.
fn find_dot(chars: &Vec<char>, from: usize) -> (r: usize)
    requires
        from <= chars.len(),
    ensures
        r == first_dot(chars@, from as int),
        from <= r <= chars.len(),
{
    let mut i: usize = from;
    while i < chars.len() && chars[i] != '.'
        invariant
            from <= i <= chars.len(),
            first_dot(chars@, i as int) == first_dot(chars@, from as int),
        decreases chars.len() - i,
    {
        i += 1;
    }
    i
}

/// Whether the file extension `extension` is one of TypeScript: `ts`, `mts`
/// or `cts`.
pub open spec fn is_typescript_extension(extension: Option<Seq<char>>) -> bool {
    extension == Some("ts"@) || extension == Some("mts"@) || extension == Some("cts"@)
}

/// The arguments that run the script at `script_path` with a runtime of
/// kind `kind`. `strip_types` says whether Node.js is told to strip the type
/// annotations of the script.
pub open spec fn run_args_of(kind: RuntimeType, strip_types: bool, script_path: Seq<char>) -> Seq<
    Seq<char>,
> {
    match kind {
        RuntimeType::NodeJs => if strip_types {
            seq!["--experimental-strip-types"@, script_path]
        } else {
            seq![script_path]
        },
        RuntimeType::Bun => seq!["run"@, script_path],
        RuntimeType::Deno => seq!["run"@, "--allow-read"@, "--allow-env"@, script_path],
    }
}

/// The arguments as texts.
pub open spec fn args_view(args: Seq<String>) -> Seq<Seq<char>> {
    args.map_values(|a: String| a@)
}

/// The arguments that run the script at `script_path`, whose file extension
/// is `extension`, with a runtime of kind `kind`. `native_typescript` says
/// whether the runtime runs TypeScript itself: a Node.js that does is told
/// to strip the types of a TypeScript script.
pub fn run_args(
    kind: RuntimeType,
    native_typescript: bool,
    script_path: &str,
    extension: Option<&str>,
) -> (args: Vec<String>)
    ensures
        args_view(args@) == run_args_of(
            kind,
            native_typescript && is_typescript_extension(
                match extension {
                    Some(e) => Some(e@),
                    None => None,
                },
            ),
            script_path@,
        ),
{
    let mut args: Vec<String> = Vec::new();
    match kind {
        RuntimeType::NodeJs => {
            let typescript = match extension {
                Some(e) => same_text(e, "ts") || same_text(e, "mts") || same_text(e, "cts"),
                None => false,
            };
            if typescript && native_typescript {
                args.push(String::from_str("--experimental-strip-types"));
            }
            args.push(String::from_str(script_path));
        },
        RuntimeType::Bun => {
            args.push(String::from_str("run"));
            args.push(String::from_str(script_path));
        },
        RuntimeType::Deno => {
            args.push(String::from_str("run"));
            args.push(String::from_str("--allow-read"));
            args.push(String::from_str("--allow-env"));
            args.push(String::from_str(script_path));
        },
    }
    assert(args_view(args@) =~= run_args_of(
        kind,
        native_typescript && is_typescript_extension(
            match extension {
                Some(e) => Some(e@),
                None => None,
            },
        ),
        script_path@,
    ));
    args
}

/// `Path::extension` of the standard library, for a path that is given as
/// text: the extension of the file name at the end of the path, where that
/// has one. What counts as the file name depends on the platform.
#[verifier::external_body]
fn path_extension(path: &str) -> (extension: Option<String>) {
    std::path::Path::new(path).extension().and_then(|e| e.to_str()).map(|e| e.to_string())
}

impl RuntimeInfo {
    /// Whether the runtime runs TypeScript itself.
    pub fn supports_native_typescript(&self) -> (r: bool)
        ensures
            r == supports_typescript(self.runtime_type, self.version@),
    {
        match self.runtime_type {
            RuntimeType::NodeJs => {
                let chars = chars_of(self.version.as_str());
                let n = chars.len();
                let start: usize = if n > 0 && chars[0] == 'v' {
                    1
                } else {
                    0
                };
                let major_end = find_dot(&chars, start);
                let major = match parse_u32(&chars, start, major_end) {
                    Some(major) => major,
                    None => {
                        return false;
                    },
                };
                if major > 23 {
                    return true;
                }
                if major != 23 || major_end >= n {
                    return false;
                }
                let minor_end = find_dot(&chars, major_end + 1);
                match parse_u32(&chars, major_end + 1, minor_end) {
                    Some(minor) => minor >= 6,
                    None => false,
                }
            },
            RuntimeType::Bun => true,
            RuntimeType::Deno => true,
        }
    }

    /// The arguments that run the script at `script_path` with this runtime.
    /// Only for Node.js do they depend on the script: a Node.js that runs
    /// TypeScript itself is told to strip the types where the file extension
    /// of the script is one of TypeScript.
    pub fn get_run_args(&self, script_path: &str) -> (args: Vec<String>)
        ensures
            args_view(args@) == run_args_of(self.runtime_type, false, script_path@) || (
            supports_typescript(self.runtime_type, self.version@) && args_view(args@)
                == run_args_of(self.runtime_type, true, script_path@)),
            !(self.runtime_type is NodeJs) ==> args_view(args@) == run_args_of(
                self.runtime_type,
                false,
                script_path@,
            ),
    {
        let native = self.supports_native_typescript();
        let extension = path_extension(script_path);
        match extension {
            Some(e) => run_args(self.runtime_type, native, script_path, Some(e.as_str())),
            None => run_args(self.runtime_type, native, script_path, None),
        }
    }
}

// ---------------------------------------------------------------------------
// The search
// ---------------------------------------------------------------------------

/// What came of running an executable with the argument `--version`.
#[derive(Debug)]
pub enum ProbeResult {
    /// It ran and ended with success; `stdout` is what it wrote.
    Succeeded { stdout: String },
    /// It ran and ended without success.
    Unsuccessful,
    /// It could not be started because there is no such executable.
    NotFound,
    /// It could not be started for another reason.
    Failed { cause: String },
}

/// What came of asking the host where on its search path an executable
/// lies.
#[derive(Debug)]
pub enum LocateResult {
    /// The host answered; `stdout` is what it wrote.
    Found { stdout: String },
    /// The host could not be asked, or knows no such executable.
    Unavailable,
}

/// The path that the host named: the first line of what it wrote, without
/// the whitespace around it.
pub open spec fn located_path(stdout: Seq<char>) -> Seq<char> {
    trimmed(stdout.take(first_newline(stdout, 0)))
}

/// The path that the host named in `stdout`.
fn read_located_path(stdout: &str) -> (path: String)
    ensures
        path@ == located_path(stdout@),
{
    let chars = chars_of(stdout);
    let mut end: usize = 0;
    while end < chars.len() && chars[end] != '\n'
        invariant
            end <= chars.len(),
            first_newline(chars@, end as int) == first_newline(chars@, 0),
        decreases chars.len() - end,
    {
        end += 1;
    }
    let mut line: Vec<char> = Vec::new();
    let mut i: usize = 0;
    while i < end
        invariant
            i <= end <= chars.len(),
            line@ == chars@.take(i as int),
        decreases end - i,
    {
        line.push(chars[i]);
        i += 1;
        assert(chars@.take(i as int) == chars@.take(i as int - 1).push(chars@[i as int - 1]));
    }
    let (from, to) = trim_bounds(&line);
    string_of(&line, from, to)
}

/// The context of the error for a runtime whose version could not be asked
/// for.
pub open spec fn version_context(path: Seq<char>) -> Seq<char> {
    "Failed to get runtime version from "@ + path
}

/// What a probe says about the version of the executable at `path`: the
/// version if the executable ran with success, nothing if it does not exist
/// or ended without success, and an error if it could not be started for
/// any other reason.
pub fn read_version(path: &str, probe: ProbeResult) -> (r: Result<Option<String>, BridgeError>)
    ensures
        match probe {
            ProbeResult::Succeeded { stdout } => r matches Ok(Some(v)) && v@ == trimmed(stdout@),
            ProbeResult::Unsuccessful => r matches Ok(None),
            ProbeResult::NotFound => r matches Ok(None),
            ProbeResult::Failed { cause } => r matches Err(
                BridgeError::IoError { context, source },
            ) && context@ == version_context(path@) && source == cause,
        },
{
    match probe {
        ProbeResult::Succeeded { stdout } => {
            let chars = chars_of(stdout.as_str());
            let (from, to) = trim_bounds(&chars);
            Ok(Some(string_of(&chars, from, to)))
        },
        ProbeResult::Unsuccessful => Ok(None),
        ProbeResult::NotFound => Ok(None),
        ProbeResult::Failed { cause } => {
            let mut context = String::from_str("Failed to get runtime version from ");
            context.append(path);
            Err(BridgeError::IoError { context, source: cause })
        },
    }
}

/// The kinds in the order in which they are preferred.
pub open spec fn priority_order() -> Seq<RuntimeType> {
    seq![RuntimeType::NodeJs, RuntimeType::Bun, RuntimeType::Deno]
}

/// What a search is after, and how far it has come.
#[derive(Debug)]
pub struct SearchPlan {
    kinds: Vec<RuntimeType>,
    index: usize,
    stop_at_first: bool,
    found: Vec<RuntimeInfo>,
    windows: bool,
}

/// Mathematical form of [`SearchPlan`].
pub struct SearchPlanView {
    /// The kinds to look for, in order.
    pub kinds: Seq<RuntimeType>,
    /// Which of them is looked for now.
    pub index: int,
    /// Whether the search ends with the first runtime that is found.
    pub stop_at_first: bool,
    /// The runtimes found so far, in the order of `kinds`.
    pub found: Seq<RuntimeInfoView>,
    /// Whether the host is Windows.
    pub windows: bool,
}

/// The runtimes as mathematical values.
pub open spec fn infos_view(infos: Seq<RuntimeInfo>) -> Seq<RuntimeInfoView> {
    infos.map_values(|i: RuntimeInfo| i@)
}

impl View for SearchPlan {
    type V = SearchPlanView;

    closed spec fn view(&self) -> SearchPlanView {
        SearchPlanView {
            kinds: self.kinds@,
            index: self.index as int,
            stop_at_first: self.stop_at_first,
            found: infos_view(self.found@),
            windows: self.windows,
        }
    }
}

impl SearchPlanView {
    /// The kind that is looked for now.
    pub open spec fn kind(self) -> RuntimeType {
        self.kinds[self.index]
    }

    /// The bare file name of the executable that is looked for now.
    pub open spec fn executable(self) -> Seq<char> {
        executable_filename_of(self.kind(), self.windows)
    }

    /// A plan always has a kind to look for.
    pub open spec fn wf(self) -> bool {
        0 <= self.index < self.kinds.len()
    }
}

/// A search that waits to hear where the executable lies on the search
/// path of the host.
#[derive(Debug)]
pub struct AwaitLocate {
    plan: SearchPlan,
}

/// A search that waits for the probe of one executable.
#[derive(Debug)]
pub struct AwaitProbe {
    plan: SearchPlan,
    path: String,
    fallback: bool,
}

/// Where a search stands: what it needs from the host next, or how it
/// ended.
#[derive(Debug)]
pub enum SearchProgress {
    /// The host is to say where [`AwaitLocate::executable`] lies.
    Locate(AwaitLocate),
    /// The host is to run [`AwaitProbe::path`] with `--version`.
    Probe(AwaitProbe),
    /// The search is over.
    Done(Result<Vec<RuntimeInfo>, BridgeError>),
}

/// Mathematical form of [`SearchProgress`].
pub enum SearchProgressView {
    Locate { plan: SearchPlanView },
    /// `fallback` says whether the bare file name is tried next if nothing
    /// runs at `path`.
    Probe { plan: SearchPlanView, path: Seq<char>, fallback: bool },
    Found { runtimes: Seq<RuntimeInfoView> },
    Failed { context: Seq<char>, source: Seq<char> },
    OtherError,
}

impl View for SearchProgress {
    type V = SearchProgressView;

    open spec fn view(&self) -> SearchProgressView {
        match self {
            SearchProgress::Locate(s) => SearchProgressView::Locate { plan: s.plan() },
            SearchProgress::Probe(s) => SearchProgressView::Probe {
                plan: s.plan(),
                path: s.spec_path(),
                fallback: s.fallback(),
            },
            SearchProgress::Done(Ok(found)) => SearchProgressView::Found {
                runtimes: infos_view(found@),
            },
            SearchProgress::Done(Err(BridgeError::IoError { context, source })) =>
                SearchProgressView::Failed { context: context@, source: source@ },
            SearchProgress::Done(Err(_)) => SearchProgressView::OtherError,
        }
    }
}

/// Where the search stands once the kind that it looked for is settled:
/// a runtime that was found is added to the others. The search is over if
/// that was what it was after, or if no kind is left; else it goes on to
/// the next kind, with the search path of the host.
pub open spec fn after_kind(plan: SearchPlanView, result: Option<RuntimeInfoView>)
    -> SearchProgressView {
    let found = match result {
        Some(info) => plan.found.push(info),
        None => plan.found,
    };
    if (result is Some && plan.stop_at_first) || plan.index + 1 >= plan.kinds.len() {
        SearchProgressView::Found { runtimes: found }
    } else {
        SearchProgressView::Locate {
            plan: SearchPlanView {
                kinds: plan.kinds,
                index: plan.index + 1,
                stop_at_first: plan.stop_at_first,
                found,
                windows: plan.windows,
            },
        }
    }
}

/// Where the search stands once the host has said where the executable
/// lies. A path that the host named is probed, and the bare file name after
/// it if nothing runs there. Without such a path the bare file name is
/// probed at once, for the host to resolve it when it starts the process.
pub open spec fn after_locate(plan: SearchPlanView, located: LocateResult) -> SearchProgressView {
    match located {
        LocateResult::Found { stdout } => if located_path(stdout@).len() > 0 {
            SearchProgressView::Probe { plan, path: located_path(stdout@), fallback: true }
        } else {
            SearchProgressView::Probe { plan, path: plan.executable(), fallback: false }
        },
        LocateResult::Unavailable => SearchProgressView::Probe {
            plan,
            path: plan.executable(),
            fallback: false,
        },
    }
}

/// Where the search stands once the executable at `path` was probed. One
/// that ran with success is the runtime of its kind, with the version that
/// it wrote. One that could not be started, for another reason than that
/// it does not exist, ends the search with an error. Else nothing runs at
/// `path`: the bare file name is tried if it has not been, and if it has
/// the kind is not to be found.
pub open spec fn after_probe(
    plan: SearchPlanView,
    path: Seq<char>,
    fallback: bool,
    probe: ProbeResult,
) -> SearchProgressView {
    match probe {
        ProbeResult::Succeeded { stdout } => after_kind(
            plan,
            Some(RuntimeInfoView { runtime_type: plan.kind(), path, version: trimmed(stdout@) }),
        ),
        ProbeResult::Failed { cause } => SearchProgressView::Failed {
            context: version_context(path),
            source: cause@,
        },
        _ => if fallback {
            SearchProgressView::Probe { plan, path: plan.executable(), fallback: false }
        } else {
            after_kind(plan, None)
        },
    }
}

impl SearchPlan {
    #[verifier::type_invariant]
    spec fn has_kind(&self) -> bool {
        self.index < self.kinds.len()
    }

    /// Settles the kind that is looked for.
    fn settle(self, result: Option<RuntimeInfo>) -> (r: SearchProgress)
        ensures
            r@ == after_kind(
                self@,
                match result {
                    Some(i) => Some(i@),
                    None => None,
                },
            ),
    {
        proof {
            use_type_invariant(&self);
        }
        let SearchPlan { kinds, index, stop_at_first, found, windows } = self;
        let mut found = found;
        let is_some = result.is_some();
        match result {
            Some(info) => {
                found.push(info);
                assert(infos_view(found@) == infos_view(self.found@).push(info@));
            },
            None => {},
        }
        if (is_some && stop_at_first) || index + 1 >= kinds.len() {
            SearchProgress::Done(Ok(found))
        } else {
            SearchProgress::Locate(
                AwaitLocate { plan: SearchPlan { kinds, index: index + 1, stop_at_first, found, windows } },
            )
        }
    }

    /// The bare file name of the executable that is looked for.
    fn executable(&self) -> (name: String)
        ensures
            name@ == self@.executable(),
            self@.wf(),
    {
        proof {
            use_type_invariant(self);
        }
        self.kinds[self.index].executable_filename(self.windows)
    }
}

impl AwaitLocate {
    /// The plan of the search.
    pub closed spec fn plan(&self) -> SearchPlanView {
        self.plan@
    }

    /// The file name that the host is to look for on its search path.
    pub fn executable(&self) -> (name: String)
        ensures
            name@ == self.plan().executable(),
            self.plan().wf(),
    {
        self.plan.executable()
    }

    /// Goes on with what the host said.
    pub fn located(self, result: LocateResult) -> (r: SearchProgress)
        ensures
            r@ == after_locate(self.plan(), result),
            r is Probe,
    {
        let executable = self.plan.executable();
        match result {
            LocateResult::Found { stdout } => {
                let path = read_located_path(stdout.as_str());
                if path.as_str().unicode_len() > 0 {
                    SearchProgress::Probe(AwaitProbe { plan: self.plan, path, fallback: true })
                } else {
                    SearchProgress::Probe(
                        AwaitProbe { plan: self.plan, path: executable, fallback: false },
                    )
                }
            },
            LocateResult::Unavailable => SearchProgress::Probe(
                AwaitProbe { plan: self.plan, path: executable, fallback: false },
            ),
        }
    }
}

impl AwaitProbe {
    /// The plan of the search.
    pub closed spec fn plan(&self) -> SearchPlanView {
        self.plan@
    }

    /// The path that is probed.
    pub closed spec fn spec_path(&self) -> Seq<char> {
        self.path@
    }

    /// Whether the bare file name is tried if nothing runs at the path.
    pub closed spec fn fallback(&self) -> bool {
        self.fallback
    }

    /// The executable that the host is to run with `--version`.
    pub fn path(&self) -> (path: &str)
        ensures
            path@ == self.spec_path(),
    {
        self.path.as_str()
    }

    /// Goes on with what the probe gave. The host is never asked for the
    /// search path after a probe of a path that the user gave.
    pub fn probed(self, result: ProbeResult) -> (r: SearchProgress)
        ensures
            r@ == after_probe(self.plan(), self.spec_path(), self.fallback(), result),
    {
        let AwaitProbe { plan, path, fallback } = self;
        let executable = plan.executable();
        match read_version(path.as_str(), result) {
            Ok(Some(version)) => {
                proof {
                    use_type_invariant(&plan);
                }
                let runtime_type = plan.kinds[plan.index];
                plan.settle(Some(RuntimeInfo { runtime_type, path, version }))
            },
            Ok(None) => {
                if fallback {
                    SearchProgress::Probe(AwaitProbe { plan, path: executable, fallback: false })
                } else {
                    plan.settle(None)
                }
            },
            Err(e) => SearchProgress::Done(Err(e)),
        }
    }
}

/// Starts the searches for runtimes.
#[derive(Debug, Clone, Copy)]
pub struct RuntimeDiscovery {
    windows: bool,
}

/// The message for a host without any runtime.
pub open spec fn no_runtime_message() -> Seq<char> {
    "未找到任何 JavaScript 运行时\n\n搜索的运行时:\n  - Node.js (https://nodejs.org/)\n  - Bun (https://bun.sh/)\n  - Deno (https://deno.land/)\n\n解决方案:\n  1. 安装上述任意一个运行时\n  2. 确保运行时在 $PATH 中\n  3. 或使用 --runtime 和 --{runtime}-path 指定自定义路径"@
}

/// The name of the command-line option that takes the path of a runtime.
pub open spec fn option_name_of(kind: RuntimeType) -> Seq<char> {
    match kind {
        RuntimeType::NodeJs => "node.js"@,
        RuntimeType::Bun => "bun"@,
        RuntimeType::Deno => "deno"@,
    }
}

/// Where a runtime of the kind that the user asked for was looked for.
pub open spec fn searched_paths_of(user_path: Option<Seq<char>>) -> Seq<char> {
    "  - $PATH\n  - 用户指定: "@ + match user_path {
        Some(p) => p,
        None => Seq::empty(),
    }
}

/// What the user can do to have a runtime of kind `kind` found.
pub open spec fn suggestion_of(kind: RuntimeType) -> Seq<char> {
    "1. 安装 "@ + display_name_of(kind)
        + "\n   - Node.js: https://nodejs.org/\n   - Bun: https://bun.sh/\n   - Deno: https://deno.land/\n2. 确保在 $PATH 中\n3. 或使用 --"@
        + option_name_of(kind) + " 指定路径"@
}

impl RuntimeDiscovery {
    /// Whether the searches are made for Windows.
    pub closed spec fn windows(&self) -> bool {
        self.windows
    }

    /// A discovery for a host that is not Windows.
    pub fn new() -> (d: RuntimeDiscovery)
        ensures
            !d.windows(),
    {
        RuntimeDiscovery { windows: false }
    }

    /// A discovery for the platform of the host: `windows` says whether
    /// that is Windows, where executables end in `.exe`.
    pub fn for_platform(windows: bool) -> (d: RuntimeDiscovery)
        ensures
            d.windows() == windows,
    {
        RuntimeDiscovery { windows }
    }

    /// The plan of a search that this discovery starts.
    pub open spec fn plan_of(&self, kinds: Seq<RuntimeType>, stop_at_first: bool)
        -> SearchPlanView {
        SearchPlanView {
            kinds,
            index: 0,
            stop_at_first,
            found: Seq::empty(),
            windows: self.windows(),
        }
    }

    fn plan(&self, kinds: Vec<RuntimeType>, stop_at_first: bool) -> (plan: SearchPlan)
        requires
            kinds.len() > 0,
        ensures
            plan@ == self.plan_of(kinds@, stop_at_first),
    {
        let plan = SearchPlan {
            kinds,
            index: 0,
            stop_at_first,
            found: Vec::new(),
            windows: self.windows,
        };
        assert(infos_view(plan.found@) == Seq::<RuntimeInfoView>::empty());
        plan
    }

    fn all_kinds() -> (kinds: Vec<RuntimeType>)
        ensures
            kinds@ == priority_order(),
    {
        let mut kinds: Vec<RuntimeType> = Vec::new();
        kinds.push(RuntimeType::NodeJs);
        kinds.push(RuntimeType::Bun);
        kinds.push(RuntimeType::Deno);
        assert(kinds@ == priority_order());
        kinds
    }

    /// Starts the search for the runtime of kind `runtime_type` on the
    /// search path of the host. It ends with that runtime, or with none.
    pub fn find_runtime(&self, runtime_type: RuntimeType) -> (r: SearchProgress)
        ensures
            r@ == (SearchProgressView::Locate { plan: self.plan_of(seq![runtime_type], true) }),
    {
        self.find_runtime_with_path(runtime_type, None)
    }

    /// Starts the search for the runtime of kind `runtime_type`. With a
    /// path from the user only that path is probed, and the search path of
    /// the host is never asked for. Without one the search is that of
    /// [`RuntimeDiscovery::find_runtime`].
    pub fn find_runtime_with_path(&self, runtime_type: RuntimeType, user_path: Option<String>) -> (r:
        SearchProgress)
        ensures
            r@ == match user_path {
                Some(path) => SearchProgressView::Probe {
                    plan: self.plan_of(seq![runtime_type], true),
                    path: path@,
                    fallback: false,
                },
                None => SearchProgressView::Locate { plan: self.plan_of(seq![runtime_type], true) },
            },
    {
        let mut kinds: Vec<RuntimeType> = Vec::new();
        kinds.push(runtime_type);
        assert(kinds@ == seq![runtime_type]);
        let plan = self.plan(kinds, true);
        match user_path {
            Some(path) => SearchProgress::Probe(AwaitProbe { plan, path, fallback: false }),
            None => SearchProgress::Locate(AwaitLocate { plan }),
        }
    }

    /// Starts the search for every runtime on the search path of the host,
    /// in the order Node.js, Bun, Deno.
    pub fn find_all_runtimes(&self) -> (r: SearchProgress)
        ensures
            r@ == (SearchProgressView::Locate { plan: self.plan_of(priority_order(), false) }),
    {
        SearchProgress::Locate(AwaitLocate { plan: self.plan(Self::all_kinds(), false) })
    }

    /// Starts the search for the best runtime on the search path of the
    /// host: the first that is found in the order Node.js, Bun, Deno.
    pub fn find_best_runtime(&self) -> (r: SearchProgress)
        ensures
            r@ == (SearchProgressView::Locate { plan: self.plan_of(priority_order(), true) }),
    {
        SearchProgress::Locate(AwaitLocate { plan: self.plan(Self::all_kinds(), true) })
    }

    /// Starts the search that the user asked for. With a kind only that kind
    /// is looked for, at the path that the user gave if there is one. With
    /// no kind the best runtime is looked for, and a path is of no account.
    pub fn find_runtime_with_preference(
        &self,
        preferred_runtime: Option<RuntimeType>,
        user_path: Option<String>,
    ) -> (r: SearchProgress)
        ensures
            r@ == match preferred_runtime {
                Some(kind) => match user_path {
                    Some(path) => SearchProgressView::Probe {
                        plan: self.plan_of(seq![kind], true),
                        path: path@,
                        fallback: false,
                    },
                    None => SearchProgressView::Locate { plan: self.plan_of(seq![kind], true) },
                },
                None => SearchProgressView::Locate { plan: self.plan_of(priority_order(), true) },
            },
    {
        match preferred_runtime {
            Some(kind) => self.find_runtime_with_path(kind, user_path),
            None => self.find_best_runtime(),
        }
    }

    /// The runtime that a search for one kind ended with, if it found one.
    pub fn found_runtime(found: Vec<RuntimeInfo>) -> (r: Option<RuntimeInfo>)
        ensures
            found.len() == 0 ==> r is None,
            found.len() > 0 ==> r == Some(found[0]),
    {
        let mut found = found;
        if found.len() > 0 {
            Some(found.remove(0))
        } else {
            None
        }
    }

    /// The best of the runtimes that a search ended with: the first. With
    /// none, an error that says what was looked for and what to do.
    pub fn best_runtime(found: Vec<RuntimeInfo>) -> (r: Result<RuntimeInfo, BridgeError>)
        ensures
            found.len() == 0 ==> (r matches Err(BridgeError::Other(m)) && m@ == no_runtime_message()),
            found.len() > 0 ==> (r matches Ok(info) && info == found[0]),
    {
        match Self::found_runtime(found) {
            Some(info) => Ok(info),
            None => Err(
                BridgeError::Other(
                    String::from_str(
                        "未找到任何 JavaScript 运行时\n\n搜索的运行时:\n  - Node.js (https://nodejs.org/)\n  - Bun (https://bun.sh/)\n  - Deno (https://deno.land/)\n\n解决方案:\n  1. 安装上述任意一个运行时\n  2. 确保运行时在 $PATH 中\n  3. 或使用 --runtime 和 --{runtime}-path 指定自定义路径",
                    ),
                ),
            ),
        }
    }

    /// The runtime that the search which the user asked for ended with: the
    /// first that was found. With none, and a kind that the user asked for,
    /// an error that names the kind, says where it was looked for, and what
    /// to do; with none and no kind, the error of
    /// [`RuntimeDiscovery::best_runtime`].
    pub fn preferred_runtime(
        preferred_runtime: Option<RuntimeType>,
        user_path: Option<&str>,
        found: Vec<RuntimeInfo>,
    ) -> (r: Result<RuntimeInfo, BridgeError>)
        ensures
            found.len() > 0 ==> (r matches Ok(info) && info == found[0]),
            found.len() == 0 ==> match preferred_runtime {
                Some(kind) => r matches Err(
                    BridgeError::RuntimeNotFound { runtime_type, searched_paths, suggestion },
                ) && runtime_type@ == display_name_of(kind) && searched_paths@
                    == searched_paths_of(
                    match user_path {
                        Some(p) => Some(p@),
                        None => None,
                    },
                ) && suggestion@ == suggestion_of(kind),
                None => r matches Err(BridgeError::Other(m)) && m@ == no_runtime_message(),
            },
    {
        let kind = match preferred_runtime {
            Some(kind) => kind,
            None => {
                return Self::best_runtime(found);
            },
        };
        match Self::found_runtime(found) {
            Some(info) => Ok(info),
            None => {
                let mut searched_paths = String::from_str("  - $PATH\n  - 用户指定: ");
                match user_path {
                    Some(p) => {
                        searched_paths.append(p);
                    },
                    None => {
                        assert(searched_paths@ + Seq::<char>::empty() == searched_paths@);
                    },
                }
                let mut suggestion = String::from_str("1. 安装 ");
                suggestion.append(kind.display_name());
                suggestion.append(
                    "\n   - Node.js: https://nodejs.org/\n   - Bun: https://bun.sh/\n   - Deno: https://deno.land/\n2. 确保在 $PATH 中\n3. 或使用 --",
                );
                let option = match kind {
                    RuntimeType::NodeJs => "node.js",
                    RuntimeType::Bun => "bun",
                    RuntimeType::Deno => "deno",
                };
                suggestion.append(option);
                suggestion.append(" 指定路径");
                Err(
                    BridgeError::RuntimeNotFound {
                        runtime_type: String::from_str(kind.display_name()),
                        searched_paths,
                        suggestion,
                    },
                )
            },
        }
    }
}


// ---------------------------------------------------------------------------
// What a search finds
// ---------------------------------------------------------------------------

/// A host as a search sees it: what it answers when it is asked where an
/// executable lies, and what comes of running a path with `--version`.
pub struct HostModel {
    pub locate: spec_fn(Seq<char>) -> LocateResult,
    pub probe: spec_fn(Seq<char>) -> ProbeResult,
}

/// Where a search stands once the host has done what it was asked for. A
/// search that is over stays as it is.
pub open spec fn answered(progress: SearchProgressView, host: HostModel) -> SearchProgressView {
    match progress {
        SearchProgressView::Locate { plan } => after_locate(plan, (host.locate)(plan.executable())),
        SearchProgressView::Probe { plan, path, fallback } => after_probe(
            plan,
            path,
            fallback,
            (host.probe)(path),
        ),
        _ => progress,
    }
}

/// Where a search stands after the host has answered `steps` times.
pub open spec fn search_after(progress: SearchProgressView, host: HostModel, steps: nat)
    -> SearchProgressView
    decreases steps,
{
    if steps == 0 {
        progress
    } else {
        search_after(answered(progress, host), host, (steps - 1) as nat)
    }
}

/// What there is to find of one kind.
pub enum Lookup {
    /// This runtime.
    Found(RuntimeInfoView),
    /// Nothing.
    Absent,
    /// Nothing that could be told: the probe could not be started.
    Failed { context: Seq<char>, source: Seq<char> },
}

/// What the probe of `path` says of the runtime of kind `kind`.
pub open spec fn probe_lookup(kind: RuntimeType, path: Seq<char>, probe: ProbeResult) -> Lookup {
    match probe {
        ProbeResult::Succeeded { stdout } => Lookup::Found(
            RuntimeInfoView { runtime_type: kind, path, version: trimmed(stdout@) },
        ),
        ProbeResult::Failed { cause } => Lookup::Failed {
            context: version_context(path),
            source: cause@,
        },
        _ => Lookup::Absent,
    }
}

/// What there is to find of kind `kind` on the search path of the host: the
/// executable at the path that the host names, if it names one and
/// something runs there; else the executable that the host starts under
/// the bare file name.
pub open spec fn lookup_on_search_path(kind: RuntimeType, windows: bool, host: HostModel)
    -> Lookup {
    let executable = executable_filename_of(kind, windows);
    let bare = probe_lookup(kind, executable, (host.probe)(executable));
    match (host.locate)(executable) {
        LocateResult::Found { stdout } => if located_path(stdout@).len() > 0 {
            match probe_lookup(
                kind,
                located_path(stdout@),
                (host.probe)(located_path(stdout@)),
            ) {
                Lookup::Absent => bare,
                other => other,
            }
        } else {
            bare
        },
        LocateResult::Unavailable => bare,
    }
}

/// The plan that goes on with the next kind, with `found` found so far.
pub open spec fn next_plan(plan: SearchPlanView, found: Seq<RuntimeInfoView>) -> SearchPlanView {
    SearchPlanView {
        kinds: plan.kinds,
        index: plan.index + 1,
        stop_at_first: plan.stop_at_first,
        found,
        windows: plan.windows,
    }
}

/// How a search on the search path of the host ends, from the kind that
/// its plan looks for now: the kinds are looked up in their order, each
/// runtime that is found is added to those found before, and the search is
/// over with the first runtime if that is what it is after, with the first
/// probe that cannot be started, or with the last kind.
pub open spec fn search_result(plan: SearchPlanView, host: HostModel) -> SearchProgressView
    decreases plan.kinds.len() - plan.index,
{
    if !plan.wf() {
        SearchProgressView::Found { runtimes: plan.found }
    } else {
        match lookup_on_search_path(plan.kind(), plan.windows, host) {
            Lookup::Failed { context, source } => SearchProgressView::Failed { context, source },
            Lookup::Found(info) => if plan.stop_at_first || plan.index + 1 >= plan.kinds.len() {
                SearchProgressView::Found { runtimes: plan.found.push(info) }
            } else {
                search_result(next_plan(plan, plan.found.push(info)), host)
            },
            Lookup::Absent => if plan.index + 1 >= plan.kinds.len() {
                SearchProgressView::Found { runtimes: plan.found }
            } else {
                search_result(next_plan(plan, plan.found), host)
            },
        }
    }
}

/// How a lookup ends a search that is after one runtime and has found none
/// so far.
pub open spec fn single_result(lookup: Lookup) -> SearchProgressView {
    match lookup {
        Lookup::Found(info) => SearchProgressView::Found { runtimes: seq![info] },
        Lookup::Absent => SearchProgressView::Found { runtimes: Seq::empty() },
        Lookup::Failed { context, source } => SearchProgressView::Failed { context, source },
    }
}

/// A search that is over stays as it is, whatever the host is asked.
proof fn lemma_search_over(progress: SearchProgressView, host: HostModel, steps: nat)
    requires
        !(progress is Locate),
        !(progress is Probe),
    ensures
        search_after(progress, host, steps) == progress,
    decreases steps,
{
    if steps > 0 {
        lemma_search_over(progress, host, (steps - 1) as nat);
    }
}

/// A search on the search path of the host is over after three answers for
/// each kind that is left, and ends as [`search_result`] says.
pub proof fn lemma_search_ends(plan: SearchPlanView, host: HostModel, steps: nat)
    requires
        plan.wf(),
        steps >= 3 * (plan.kinds.len() - plan.index),
    ensures
        search_after(SearchProgressView::Locate { plan }, host, steps) == search_result(plan, host),
    decreases plan.kinds.len() - plan.index,
{
    let start = SearchProgressView::Locate { plan };
    let first = answered(start, host);
    let second = answered(first, host);
    let third = answered(second, host);
    assert(search_after(start, host, steps) == search_after(first, host, (steps - 1) as nat));
    assert(search_after(first, host, (steps - 1) as nat) == search_after(
        second,
        host,
        (steps - 2) as nat,
    ));
    assert(search_after(second, host, (steps - 2) as nat) == search_after(
        third,
        host,
        (steps - 3) as nat,
    ));
    let expected = search_result(plan, host);
    // Where the kind is settled with the second answer, the third changes
    // nothing unless it starts on the next kind.
    let settled = if second is Probe {
        third
    } else {
        second
    };
    let left = if second is Probe {
        (steps - 3) as nat
    } else {
        (steps - 2) as nat
    };
    assert(search_after(start, host, steps) == search_after(settled, host, left));
    assert(!(settled is Probe));
    if settled is Locate {
        let next = settled->Locate_plan;
        assert(next.wf());
        assert(next.index == plan.index + 1);
        lemma_search_ends(next, host, left);
        assert(search_result(next, host) == expected);
    } else {
        lemma_search_over(settled, host, left);
        assert(settled == expected);
    }
}

/// [`RuntimeDiscovery::find_runtime`] finds the runtime of its kind that
/// is on the search path of the host, within three answers of the host.
pub proof fn lemma_find_runtime(kind: RuntimeType, windows: bool, host: HostModel)
    ensures
        search_after(
            SearchProgressView::Locate {
                plan: SearchPlanView {
                    kinds: seq![kind],
                    index: 0,
                    stop_at_first: true,
                    found: Seq::empty(),
                    windows,
                },
            },
            host,
            3,
        ) == single_result(lookup_on_search_path(kind, windows, host)),
{
    let plan = SearchPlanView {
        kinds: seq![kind],
        index: 0,
        stop_at_first: true,
        found: Seq::empty(),
        windows,
    };
    lemma_search_ends(plan, host, 3);
    assert(Seq::<RuntimeInfoView>::empty().push(
        RuntimeInfoView { runtime_type: kind, path: Seq::empty(), version: Seq::empty() },
    ).len() == 1);
    match lookup_on_search_path(kind, windows, host) {
        Lookup::Found(info) => {
            assert(Seq::<RuntimeInfoView>::empty().push(info) == seq![info]);
        },
        _ => {},
    }
}

/// With a path from the user a search is over after one answer of the
/// host, and that answer is the probe of the path: the search path of the
/// host is never asked for.
pub proof fn lemma_find_runtime_with_user_path(
    kind: RuntimeType,
    windows: bool,
    path: Seq<char>,
    host: HostModel,
)
    ensures
        answered(
            SearchProgressView::Probe {
                plan: SearchPlanView {
                    kinds: seq![kind],
                    index: 0,
                    stop_at_first: true,
                    found: Seq::empty(),
                    windows,
                },
                path,
                fallback: false,
            },
            host,
        ) == single_result(probe_lookup(kind, path, (host.probe)(path))),
{
    match probe_lookup(kind, path, (host.probe)(path)) {
        Lookup::Found(info) => {
            assert(Seq::<RuntimeInfoView>::empty().push(info) == seq![info]);
        },
        _ => {},
    }
}

/// [`RuntimeDiscovery::find_best_runtime`] finds the first runtime in the
/// order Node.js, Bun, Deno: a kind is looked up only if every kind before
/// it is absent, and what is there of the first kind that is not absent
/// ends the search.
pub proof fn lemma_find_best_runtime(windows: bool, host: HostModel)
    ensures
        ({
            let node = lookup_on_search_path(RuntimeType::NodeJs, windows, host);
            let bun = lookup_on_search_path(RuntimeType::Bun, windows, host);
            let deno = lookup_on_search_path(RuntimeType::Deno, windows, host);
            search_after(
                SearchProgressView::Locate {
                    plan: SearchPlanView {
                        kinds: priority_order(),
                        index: 0,
                        stop_at_first: true,
                        found: Seq::empty(),
                        windows,
                    },
                },
                host,
                9,
            ) == if !(node is Absent) {
                single_result(node)
            } else if !(bun is Absent) {
                single_result(bun)
            } else {
                single_result(deno)
            }
        }),
{
    let plan = SearchPlanView {
        kinds: priority_order(),
        index: 0,
        stop_at_first: true,
        found: Seq::empty(),
        windows,
    };
    lemma_search_ends(plan, host, 9);
    let node = lookup_on_search_path(RuntimeType::NodeJs, windows, host);
    let bun = lookup_on_search_path(RuntimeType::Bun, windows, host);
    let deno = lookup_on_search_path(RuntimeType::Deno, windows, host);
    let none = Seq::<RuntimeInfoView>::empty();
    let second = next_plan(plan, none);
    let third = next_plan(second, none);
    assert(plan.kind() == RuntimeType::NodeJs);
    assert(second.kind() == RuntimeType::Bun);
    assert(third.kind() == RuntimeType::Deno);
    assert forall|info: RuntimeInfoView| none.push(info) == seq![info] by {}
    assert(search_result(third, host) == single_result(deno));
    assert(search_result(second, host) == if !(bun is Absent) {
        single_result(bun)
    } else {
        single_result(deno)
    });
}

} // verus!
