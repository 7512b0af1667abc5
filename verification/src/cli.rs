//! The command line of the `preflight` tool, as plain data.

use vstd::prelude::*;

verus! {

/// Preflight: replay a fixed set of transactions against two builds of a
/// Solana program and report what changed.
#[derive(Debug)]
pub struct Cli {
    pub command: Command,
}

/// The subcommands.
#[derive(Debug)]
pub enum Command {
    /// Replay the built-in transaction fixture against two program builds.
    Run {
        /// Path to the old (currently deployed) program's `.so` file.
        old: String,
        /// Path to the new (candidate) program's `.so` file.
        new: String,
        /// Directory to write `transactions.json`, `report.md` and
        /// `report.json` into.
        out: String,
    },
    /// Build both bundled example programs, then run the same pipeline as
    /// `Run`.
    Demo {
        /// Directory to write the built programs and reports into.
        out: String,
        /// platform-tools version passed to `cargo build-sbf`.
        tools_version: String,
    },
}

} // verus!
