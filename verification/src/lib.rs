//! A snapshot-testing engine for command-line programs.
//!
//! A test plan names a sequence of shell commands per test; the engine
//! captures the last command's standard output, compares it byte-for-byte
//! against a stored snapshot, optionally overwrites the snapshot, and
//! aggregates a summary with a process exit status.

mod compare;
mod errors;
mod exec;
mod outcome;
mod plan;
mod record;
mod tokenize;

pub use compare::ComparePhase;
pub use compare::Summary;
pub use compare::TestReport;
pub use compare::finalize;
pub use compare::lemma_update_overwrites;
pub use compare::lemma_update_then_match;
pub use compare::snapshot_after;
pub use compare::snapshot_file_name;
pub use errors::FatalError;
pub use errors::fatal_exit_status;
pub use exec::CommandResult;
pub use exec::ExecPhase;
pub use exec::lemma_execution_covers_plan;
pub use outcome::Outcome;
pub use outcome::classify;
pub use outcome::lemma_comparison_exact;
pub use outcome::lemma_first_run;
pub use outcome::outcome_of;
pub use plan::Config;
pub use plan::Test;
pub use plan::TestPlan;
pub use record::Record;
pub use tokenize::Invocation;
pub use tokenize::shell_split;
pub use tokenize::tokenize_command;
