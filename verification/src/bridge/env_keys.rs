//! Names of the environment variables through which the host tells the
//! bridge script what to load and how.

use vstd::prelude::*;

verus! {

/// Path of the configuration file to load.
pub const CONFIG_PATH: &'static str = "NSAGA_CLI_CONFIG_PATH";

/// Root directory of the project.
pub const PROJECT_ROOT: &'static str = "NSAGA_CLI_PROJECT_ROOT";

/// Whether the configuration file is TypeScript (`true` or `false`).
pub const CONFIG_IS_TYPESCRIPT: &'static str = "NSAGA_CLI_CONFIG_IS_TYPESCRIPT";

/// Whether the configuration file is CommonJS (`true` or `false`).
pub const CONFIG_IS_COMMONJS: &'static str = "NSAGA_CLI_CONFIG_IS_COMMONJS";

/// Whether the host runs in development mode (`true` or `false`).
pub const IS_DEV: &'static str = "NSAGA_CLI_IS_DEV";

/// Whether the script should log verbosely (`true` or `false`).
pub const VERBOSE_LOG: &'static str = "NSAGA_CLI_VERBOSE_LOG";

/// Which runtime runs the script (`node`, `bun` or `deno`).
pub const RUNTIME: &'static str = "NSAGA_CLI_RUNTIME";

} // verus!
