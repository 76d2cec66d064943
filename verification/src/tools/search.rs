//! The search tools: which files a search passes over, how a match is
//! worded, and how many results are reported.

use crate::strings::{contains, occurs_in, trim, trimmed};
use crate::text::{decimal, decimal_text, join, join_all, joined, same_text};
use vstd::prelude::*;

verus! {

/// Searches the files of a directory for a pattern.
#[derive(Clone, Copy, Debug, PartialEq, Eq)]
pub struct GrepTool;

/// Finds the files that match a glob pattern.
#[derive(Clone, Copy, Debug, PartialEq, Eq)]
pub struct GlobTool;

/// The most results that a search reports.
pub const MAX_RESULTS: usize = 100;

/// Whether a search passes over the file at `path`: hidden files and
/// directories, and the usual places of dependencies and build output.
pub open spec fn passed_over(path: Seq<char>) -> bool {
    ||| occurs_in(path, "/."@)
    ||| occurs_in(path, "\\."@)
    ||| occurs_in(path, "node_modules"@)
    ||| occurs_in(path, "target"@)
    ||| occurs_in(path, ".git"@)
}

/// A match as it is reported: the path, the line number, and the line
/// without the white space around it.
pub open spec fn match_report(path: Seq<char>, number: nat, line: Seq<char>) -> Seq<char> {
    path + ":"@ + decimal_text(number) + ": "@ + trimmed(line)
}

/// The pattern that is searched for: `pattern` itself below the current
/// directory, and below any other base the base, a slash and `pattern`.
pub open spec fn pattern_below(base: Seq<char>, pattern: Seq<char>) -> Seq<char> {
    if base == "."@ {
        pattern
    } else {
        base + "/"@ + pattern
    }
}

/// The results as they are reported: one to a line, or `nothing` if there
/// are none.
pub open spec fn listed(results: Seq<Seq<char>>, nothing: Seq<char>) -> Seq<char> {
    if results.len() == 0 {
        nothing
    } else {
        joined(results, "\n"@)
    }
}

/// Whether a search with `found` results has its fill.
pub fn is_full(found: usize) -> (full: bool)
    ensures
        full == (found >= MAX_RESULTS),
{
    found >= MAX_RESULTS
}

impl GrepTool {
    pub fn name(&self) -> (name: &'static str)
        ensures
            name@ == "grep"@,
    {
        "grep"
    }

    pub fn description(&self) -> (text: &'static str)
        ensures
            text@ == "Search for a pattern in files within a directory."@,
    {
        "Search for a pattern in files within a directory."
    }

    /// Whether the search passes over the file at `path`.
    pub fn skips(path: &str) -> (skipped: bool)
        ensures
            skipped == passed_over(path@),
    {
        contains(path, "/.") || contains(path, "\\.") || contains(path, "node_modules") || contains(
            path,
            "target",
        ) || contains(path, ".git")
    }

    /// Words a match in line `number` (counted from 1) of the file at `path`.
    pub fn match_line(path: &str, number: usize, line: &str) -> (text: String)
        ensures
            text@ == match_report(path@, number as nat, line@),
    {
        let mut text = join(path, ":");
        text.append(decimal(number as u64).as_str());
        text.append(": ");
        text.append(trim(line));
        text
    }

    /// Reports the matches, one to a line.
    pub fn render(matches: &Vec<String>) -> (text: String)
        ensures
            text@ == listed(matches.deep_view(), "No matches found."@),
    {
        if matches.len() == 0 {
            "No matches found.".to_owned()
        } else {
            join_all(matches, "\n")
        }
    }
}

impl GlobTool {
    pub fn name(&self) -> (name: &'static str)
        ensures
            name@ == "glob"@,
    {
        "glob"
    }

    pub fn description(&self) -> (text: &'static str)
        ensures
            text@ == "Find files matching a glob pattern."@,
    {
        "Find files matching a glob pattern."
    }

    /// The pattern to search for when `pattern` is meant below `base`.
    pub fn full_pattern(base: &str, pattern: &str) -> (full: String)
        ensures
            full@ == pattern_below(base@, pattern@),
    {
        if same_text(base, ".") {
            pattern.to_owned()
        } else {
            let mut full = join(base, "/");
            full.append(pattern);
            full
        }
    }

    /// Reports the files, one to a line.
    pub fn render(files: &Vec<String>) -> (text: String)
        ensures
            text@ == listed(files.deep_view(), "No files found."@),
    {
        if files.len() == 0 {
            "No files found.".to_owned()
        } else {
            join_all(files, "\n")
        }
    }
}

} // verus!
