//! How the program is called.

use crate::cli::error::CliError;
use crate::cli::error::CliErrorView;
use crate::text::concat3;
use vstd::prelude::*;

verus! {

/// The calls that the program understands.
pub const USAGE: &'static str = "Usage:\n  wtm list [--repo PATH] [--base REF] [--json]\n  wtm status PATH [--base REF] [--json]\n  wtm create BRANCH [--repo PATH] [--base REF] [--path PATH] [--idempotency-key KEY] [--db PATH] [--socket PATH] [--json]\n  wtm lock PATH [--reason TEXT] [--db PATH] [--socket PATH] [--json]\n  wtm unlock PATH [--db PATH] [--socket PATH] [--json]\n  wtm cleanup scan [--repo PATH] [--base REF] [--db PATH] [--socket PATH] [--minimum-age-seconds N] [--json]\n  wtm remove PATH [--repo PATH] [--delete-branch] [--db PATH] [--socket PATH] [--minimum-age-seconds N] [--json]\n  wtm daemon [--repo PATH] [--db PATH] [--socket PATH] [--minimum-age-seconds N]\n  wtm daemon clean [--repo PATH] [--socket PATH]\n  wtm --help\n  wtm --version";

/// What the program does, before the calls that it understands.
pub const SUMMARY: &'static str = "Worktree Manager\n\nGit worktree discovery, status inspection, and guarded lifecycle operations.";

/// The calls that the program understands.
pub fn usage() -> (text: &'static str)
    ensures
        text@ == USAGE@,
{
    USAGE
}

/// The help that the program prints.
pub fn help() -> (text: String)
    ensures
        text@ == SUMMARY@ + "\n\n"@ + USAGE@,
{
    concat3(SUMMARY, "\n\n", USAGE)
}

/// A complaint about a call, before the calls that are understood.
pub open spec fn usage_fault(message: Seq<char>) -> CliErrorView {
    CliErrorView::Usage(message + "\n\n"@ + USAGE@)
}

/// A complaint about a call, before the calls that are understood.
pub fn usage_error(message: &str) -> (error: CliError)
    ensures
        error@ == usage_fault(message@),
{
    CliError::Usage(concat3(message, "\n\n", USAGE))
}

} // verus!
