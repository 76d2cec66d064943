//! The project overview: what kind of project a directory holds, which of
//! its entries are shown, and how.

use crate::strings::starts_with_char;
use crate::text::{join, same_text};
use vstd::prelude::*;

verus! {

/// Shows the layout of a project.
#[derive(Clone, Copy, Debug, PartialEq, Eq)]
pub struct ProjectStructureTool;

/// The kind of project that holds the given files: the first of Node.js
/// (`package.json`), Rust (`Cargo.toml`) and Python (`requirements.txt` or
/// `pyproject.toml`) that has its file, or unknown.
pub open spec fn detected_type(
    package_json: bool,
    cargo_toml: bool,
    requirements_txt: bool,
    pyproject_toml: bool,
) -> Seq<char> {
    if package_json {
        "nodejs"@
    } else if cargo_toml {
        "rust"@
    } else if requirements_txt || pyproject_toml {
        "python"@
    } else {
        "unknown"@
    }
}

/// Whether an entry named `name` is left out of the overview: hidden
/// entries, and the usual places of dependencies and build output.
pub open spec fn left_out(name: Seq<char>) -> bool {
    ||| name == "node_modules"@
    ||| name == "target"@
    ||| name == ".git"@
    ||| (name.len() > 0 && name[0] == '.')
}

/// Two spaces for every level below the first.
pub open spec fn indent(depth: nat) -> Seq<char>
    decreases depth,
{
    if depth <= 1 {
        Seq::empty()
    } else {
        indent((depth - 1) as nat) + "  "@
    }
}

/// The line of an entry: indented by its depth, and with a slash behind
/// the name of a directory.
pub open spec fn entry_text(depth: nat, name: Seq<char>, is_dir: bool) -> Seq<char> {
    indent(depth) + "├── "@ + name + (if is_dir {
        "/"@
    } else {
        ""@
    }) + "\n"@
}

impl ProjectStructureTool {
    /// How deep the overview goes unless told otherwise.
    pub const DEFAULT_DEPTH: u64 = 2;

    pub fn name(&self) -> (name: &'static str)
        ensures
            name@ == "project_structure"@,
    {
        "project_structure"
    }

    pub fn description(&self) -> (text: &'static str)
        ensures
            text@ == "Analyze project structure and identify key files."@,
    {
        "Analyze project structure and identify key files."
    }

    /// The kind of project, judged by which marker files its root holds.
    pub fn project_type(
        package_json: bool,
        cargo_toml: bool,
        requirements_txt: bool,
        pyproject_toml: bool,
    ) -> (kind: &'static str)
        ensures
            kind@ == detected_type(package_json, cargo_toml, requirements_txt, pyproject_toml),
    {
        if package_json {
            "nodejs"
        } else if cargo_toml {
            "rust"
        } else if requirements_txt || pyproject_toml {
            "python"
        } else {
            "unknown"
        }
    }

    /// The two lines that open the overview.
    pub fn header(kind: &str) -> (text: String)
        ensures
            text@ == "Project Type: "@ + kind@ + "\nStructure:\n"@,
    {
        let mut text = join("Project Type: ", kind);
        text.append("\nStructure:\n");
        text
    }

    /// Whether an entry named `name` is shown, and entered if it is a
    /// directory.
    pub fn shows(name: &str) -> (shown: bool)
        ensures
            shown == !left_out(name@),
    {
        !same_text(name, "node_modules") && !same_text(name, "target") && !same_text(
            name,
            ".git",
        ) && !starts_with_char(name, '.')
    }

    /// The line of an entry at `depth` levels below the root.
    pub fn entry_line(depth: usize, name: &str, is_dir: bool) -> (text: String)
        ensures
            text@ == entry_text(depth as nat, name@, is_dir),
    {
        let mut text = String::new();
        let mut level: usize = 1;
        assert(text@ =~= indent(1));
        while level < depth
            invariant
                1 <= level,
                level <= depth || (depth == 0 && level == 1),
                text@ == indent(level as nat),
            decreases depth - level,
        {
            text.append("  ");
            level += 1;
        }
        assert(text@ =~= indent(depth as nat));
        text.append("├── ");
        text.append(name);
        if is_dir {
            text.append("/");
        } else {
            text.append("");
        }
        text.append("\n");
        text
    }
}

} // verus!
