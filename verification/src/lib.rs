//! Decision logic of a lint remediation tool: grouping of linter findings per
//! file, the per-file fix sequence, the run as a whole, and the texts that are
//! exchanged with the linter and with the fix service.

pub mod issue;
pub mod text;
pub mod grouping;
pub mod json;
pub mod fix_client;
pub mod report;
pub mod diff;
pub mod linter;
pub mod fixer;
pub mod remediator;
pub mod file_run;
pub mod orchestrator;
pub mod whole_run;
