//! Preflight: replays one transaction sequence against two builds of a
//! Solana program, diffs the outcomes and scores how safe the upgrade is.
//!
//! - `fixture`, `execution`, `report`: the plain data that flows between the
//!   steps.
//! - `program_abi`: the counter program's instruction and account layout.
//! - `replay`: runs a fixture against a program build in a local VM.
//! - `svm`: the VM, signing keys and transactions, with the VM's record of
//!   the calls made into it.
//! - `comparator`: classifies each transaction and scores the upgrade.
//! - `render`: the Markdown report and the verdict on a score.
//! - `upload`: picks the two builds out of an upload form.
//! - `laws`: properties that tie these together.

pub mod cli;
pub mod comparator;
pub mod error;
pub mod execution;
pub mod fixture;
pub mod laws;
pub mod program_abi;
pub mod programs;
pub mod render;
pub mod replay;
pub mod report;
pub mod svm;
pub mod text;
pub mod upload;
