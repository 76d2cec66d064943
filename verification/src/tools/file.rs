//! The file tools: which part of a file is shown and how, and how an edit
//! is applied to a text.

use crate::strings::{contains, first_replaced, occurs_in, replace_first};
use crate::text::{
    decimal, decimal_padded, decimal_text, join, join_all, joined, right_aligned,
};
use vstd::prelude::*;

verus! {

/// Reads a file, or a range of its lines.
#[derive(Clone, Copy, Debug, PartialEq, Eq)]
pub struct ReadFileTool;

/// Writes a file.
#[derive(Clone, Copy, Debug, PartialEq, Eq)]
pub struct WriteFileTool;

/// Replaces a string in a file.
#[derive(Clone, Copy, Debug, PartialEq, Eq)]
pub struct EditFileTool;

/// The largest file that is read, in bytes.
pub const MAX_FILE_BYTES: u64 = 5 * 1024 * 1024;

/// Whether the line range that starts at `offset` misses a file of `total`
/// lines: it starts at or behind the end of a file that has lines.
pub open spec fn out_of_bounds(total: nat, offset: nat) -> bool {
    total > 0 && offset >= total
}

/// Where the shown range starts: at `offset`, or at the end of the file if
/// that comes first.
pub open spec fn window_start(total: nat, offset: nat) -> nat {
    if offset < total {
        offset
    } else {
        total
    }
}

/// Where the shown range ends: `limit` lines behind its start, or at the
/// end of the file if that comes first or there is no limit.
pub open spec fn window_end(total: nat, offset: nat, limit: Option<nat>) -> nat {
    let start = window_start(total, offset);
    match limit {
        Some(count) => if start + count < total {
            start + count
        } else {
            total
        },
        None => total,
    }
}

/// A line as it is shown: its number, right-aligned in four columns, a
/// bar, and the line.
pub open spec fn numbered(number: nat, line: Seq<char>) -> Seq<char> {
    right_aligned(decimal_text(number), 4) + " | "@ + line
}

/// The lines of `lines` from `start` up to `end`, each with its number in
/// the file, counted from 1.
pub open spec fn numbered_lines(lines: Seq<Seq<char>>, start: int, end: int) -> Seq<Seq<char>> {
    Seq::new((end - start) as nat, |i: int| numbered((start + i + 1) as nat, lines[start + i]))
}

/// What is said of a line range that misses the file.
pub open spec fn out_of_bounds_message(total: nat, offset: nat) -> Seq<char> {
    "Offset "@ + decimal_text(offset) + " is out of bounds (file has "@ + decimal_text(total)
        + " lines)"@
}

impl ReadFileTool {
    pub fn name(&self) -> (name: &'static str)
        ensures
            name@ == "read_file"@,
    {
        "read_file"
    }

    pub fn description(&self) -> (text: &'static str)
        ensures
            text@ == "Read content from a file. Can verify file existence."@,
    {
        "Read content from a file. Can verify file existence."
    }

    /// Refuses a file of more than [`MAX_FILE_BYTES`] bytes.
    pub fn check_size(bytes: u64) -> (verdict: Result<(), String>)
        ensures
            bytes <= MAX_FILE_BYTES ==> verdict is Ok,
            bytes > MAX_FILE_BYTES ==> (verdict matches Err(message) && message@
                == "File too large (>5MB). Use search or read specific lines."@),
    {
        if bytes > MAX_FILE_BYTES {
            Err("File too large (>5MB). Use search or read specific lines.".to_owned())
        } else {
            Ok(())
        }
    }

    /// Shows the lines of a file from `offset` on (counted from 0), `limit`
    /// of them or all. The lines come numbered from 1 and joined by line
    /// feeds. A range that starts behind the last line of a file that has
    /// lines is refused; of an empty file nothing is shown.
    pub fn show(lines: &Vec<String>, offset: u64, limit: Option<u64>) -> (shown: Result<
        String,
        String,
    >)
        ensures
            ({
                let total = lines.len() as nat;
                let limit_view = match limit {
                    Some(count) => Some(count as nat),
                    None => None,
                };
                if out_of_bounds(total, offset as nat) {
                    shown matches Err(message) && message@ == out_of_bounds_message(
                        total,
                        offset as nat,
                    )
                } else {
                    shown matches Ok(text) && text@ == joined(
                        numbered_lines(
                            lines.deep_view(),
                            window_start(total, offset as nat) as int,
                            window_end(total, offset as nat, limit_view) as int,
                        ),
                        "\n"@,
                    )
                }
            }),
    {
        let total = lines.len();
        if total > 0 && offset >= total as u64 {
            let mut message = join("Offset ", decimal(offset).as_str());
            message.append(" is out of bounds (file has ");
            message.append(decimal(total as u64).as_str());
            message.append(" lines)");
            return Err(message);
        }
        let start: usize = if offset < total as u64 {
            offset as usize
        } else {
            total
        };
        let end: usize = match limit {
            Some(count) => if count < (total - start) as u64 {
                start + count as usize
            } else {
                total
            },
            None => total,
        };
        let mut shown: Vec<String> = Vec::new();
        let mut i: usize = start;
        while i < end
            invariant
                start <= i <= end <= total,
                total == lines.len(),
                shown.len() == i - start,
                forall|k: int|
                    0 <= k < i - start ==> (#[trigger] shown[k])@ == numbered(
                        (start + k + 1) as nat,
                        lines[start + k]@,
                    ),
            decreases end - i,
        {
            let mut line = decimal_padded((i + 1) as u64, 4);
            line.append(" | ");
            line.append(lines[i].as_str());
            shown.push(line);
            i += 1;
        }
        assert(shown.deep_view() =~= numbered_lines(lines.deep_view(), start as int, end as int));
        Ok(join_all(&shown, "\n"))
    }
}

impl WriteFileTool {
    pub fn name(&self) -> (name: &'static str)
        ensures
            name@ == "write_file"@,
    {
        "write_file"
    }

    pub fn description(&self) -> (text: &'static str)
        ensures
            text@
                == "Write content to a file. Overwrites existing files. Creates directories if needed."@,
    {
        "Write content to a file. Overwrites existing files. Creates directories if needed."
    }

    /// What is said once `path` was written.
    pub fn written(path: &str) -> (message: String)
        ensures
            message@ == "Successfully wrote to "@ + path@,
    {
        join("Successfully wrote to ", path)
    }
}

impl EditFileTool {
    pub fn name(&self) -> (name: &'static str)
        ensures
            name@ == "edit_file"@,
    {
        "edit_file"
    }

    pub fn description(&self) -> (text: &'static str)
        ensures
            text@ == "Replace a string in a file with a new string. Use this for small edits."@,
    {
        "Replace a string in a file with a new string. Use this for small edits."
    }

    /// Applies an edit to the text of a file: the first occurrence of
    /// `old_string` becomes `new_string`. A text in which `old_string` does
    /// not occur is not edited.
    pub fn apply(content: &str, old_string: &str, new_string: &str) -> (edited: Result<
        String,
        String,
    >)
        ensures
            occurs_in(content@, old_string@) ==> (edited matches Ok(text) && text@
                == first_replaced(content@, old_string@, new_string@)),
            !occurs_in(content@, old_string@) ==> (edited matches Err(message) && message@
                == "old_string not found in file"@),
    {
        if !contains(content, old_string) {
            return Err("old_string not found in file".to_owned());
        }
        Ok(replace_first(content, old_string, new_string))
    }

    /// What is said once `path` was edited.
    pub fn edited(path: &str) -> (message: String)
        ensures
            message@ == "Successfully edited "@ + path@,
    {
        join("Successfully edited ", path)
    }
}

} // verus!
