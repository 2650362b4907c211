//! The JavaScript runtimes (Node.js, Bun, Deno): finding one on the host
//! and following the process that runs a script with it.

pub mod discovery;
pub mod process;
