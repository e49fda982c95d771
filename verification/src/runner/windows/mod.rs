//! The builtins of Windows, where no `ls` program is at hand: a listing of the
//! working directory. A shell on Windows looks a name up here first, and among
//! the portable builtins only then.

pub mod dir;

use vstd::prelude::*;
use vstd::string::StringExecFns;
use crate::runner::command::Command;
use crate::runner::windows::dir::{listing_report, ls_dir, Listing, ListingView, Report, ReportView};
use crate::util::text::{joined, same_text};

verus! {

/// The status of `ls` where the working directory is not to be had.
pub const NO_WORKING_DIR: i32 = 1;

/// The builtins that Windows adds.
#[derive(Debug, Clone, Copy, PartialEq, Eq, Structural)]
pub enum Method {
    Ls,
}

/// The builtin of Windows that a name stands for.
pub open spec fn windows_builtin_named(name: Seq<char>) -> Option<Method> {
    if name == "ls"@ {
        Some(Method::Ls)
    } else {
        None
    }
}

/// Looks a name up among the builtins of Windows.
pub fn get_builtin(cmd_name: &str) -> (builtin: Option<Method>)
    ensures
        builtin == windows_builtin_named(cmd_name@),
{
    if same_text(cmd_name, "ls") {
        Some(Method::Ls)
    } else {
        None
    }
}

/// What was found out for `ls`: the working directory and what it holds, or
/// the system's error where the working directory is not to be had.
pub open spec fn ls_report(found: Result<(Seq<char>, ListingView), Seq<char>>) -> ReportView {
    match found {
        Ok((dir, listing)) => listing_report(dir, listing),
        Err(e) => ReportView {
            output: Seq::empty(),
            diagnostic: Some("Error occured: "@ + e),
            status: Some(NO_WORKING_DIR),
        },
    }
}

/// What was found out for `ls`, as a mathematical value.
pub open spec fn found_view(found: Result<(String, Listing), String>) -> Result<
    (Seq<char>, ListingView),
    Seq<char>,
> {
    match found {
        Ok((dir, listing)) => Ok((dir@, listing@)),
        Err(e) => Err(e@),
    }
}

/// `ls`: lists the working directory. Its arguments are not looked at.
pub fn ls(_cmd: &Command, found: Result<(String, Listing), String>) -> (report: Report)
    requires
        found matches Ok((_, Listing::Entries(entries, _))) ==> entries@.len() + 2 <= usize::MAX,
    ensures
        report@ == ls_report(found_view(found)),
{
    match found {
        Ok((dir, listing)) => ls_dir(dir.as_str(), listing),
        Err(e) => Report {
            output: String::new(),
            diagnostic: Some(joined("Error occured: ", e.as_str())),
            status: Some(NO_WORKING_DIR),
        },
    }
}

} // verus!
