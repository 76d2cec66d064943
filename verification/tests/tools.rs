use codemaster::agent::run::{offers, prepare_history, result_text, retry_text, settle_call};
use codemaster::api::deepseek::{Message, Tool, ToolFunction};
use codemaster::text::{decimal, decimal_padded, join, join_all, same_text, signed_decimal};
use codemaster::tools::bash::BashTool;
use codemaster::tools::file::{EditFileTool, ReadFileTool, WriteFileTool, MAX_FILE_BYTES};
use codemaster::tools::project::ProjectStructureTool;
use codemaster::tools::search::{is_full, GlobTool, GrepTool, MAX_RESULTS};

fn lines(text: &[&str]) -> Vec<String> {
    text.iter().map(|s| s.to_string()).collect()
}

#[test]
fn decimal_renders_numbers() {
    assert_eq!(decimal(0), "0");
    assert_eq!(decimal(7), "7");
    assert_eq!(decimal(10), "10");
    assert_eq!(decimal(1234567890), "1234567890");
    assert_eq!(decimal(u64::MAX), u64::MAX.to_string());
    assert_eq!(signed_decimal(-1), "-1");
    assert_eq!(signed_decimal(0), "0");
    assert_eq!(signed_decimal(42), "42");
    assert_eq!(signed_decimal(i64::MIN), i64::MIN.to_string());
    assert_eq!(decimal_padded(7, 4), "   7");
    assert_eq!(decimal_padded(1234, 4), "1234");
    assert_eq!(decimal_padded(12345, 4), "12345");
}

#[test]
fn text_helpers_compare_and_join() {
    assert!(same_text("abc", "abc"));
    assert!(!same_text("abc", "abd"));
    assert!(!same_text("abc", "ab"));
    assert!(same_text("", ""));
    assert!(same_text("你好", "你好"));
    assert_eq!(join("ab", "cd"), "abcd");
    assert_eq!(join_all(&lines(&["a", "b", "c"]), ", "), "a, b, c");
    assert_eq!(join_all(&lines(&["a"]), ", "), "a");
    assert_eq!(join_all(&lines(&["", ""]), "-"), "-");
    assert_eq!(join_all(&lines(&[]), ", "), "");
}

#[test]
fn retry_text_counts_attempts() {
    assert_eq!(retry_text(1, 3), "Network error, retrying (1/3)...");
    assert_eq!(retry_text(12, 100), "Network error, retrying (12/100)...");
}

#[test]
fn settle_call_words_each_failure() {
    let value: serde_json::Value = serde_json::from_str("{\"a\":1}").unwrap();
    assert_eq!(settle_call(Ok(value.clone()), true, "bash"), Ok(value.clone()));
    assert_eq!(
        settle_call(Ok(value), false, "foo"),
        Err("Error: Tool not found: foo".to_string())
    );
    assert_eq!(
        settle_call(Err("expected value at line 1 column 1".to_string()), true, "bash"),
        Err("Error: Invalid JSON args: expected value at line 1 column 1".to_string())
    );
    assert_eq!(
        settle_call(Err("bad".to_string()), false, "foo"),
        Err("Error: Invalid JSON args: bad".to_string())
    );
}

#[test]
fn result_text_marks_failures() {
    assert_eq!(result_text(Ok("fine".to_string())), "fine");
    assert_eq!(result_text(Err("no".to_string())), "Error: no");
}

#[test]
fn offers_looks_up_names() {
    let tools = vec![Tool {
        kind: "function".to_string(),
        function: ToolFunction {
            name: "grep".to_string(),
            description: String::new(),
            parameters: serde_json::Value::Null,
        },
    }];
    assert!(offers(&tools, "grep"));
    assert!(!offers(&tools, "glob"));
    assert!(!offers(&vec![], "grep"));
}

#[test]
fn prepare_history_seeds_both_ends() {
    let seeded = prepare_history("task".to_string(), vec![]);
    assert_eq!(seeded.len(), 2);
    assert_eq!(seeded[0].role, "system");
    assert_eq!(seeded[1], Message::user("task".to_string()));
    let own = vec![Message::system("mine".to_string()), Message::user("q".to_string())];
    assert_eq!(prepare_history("task".to_string(), own.clone()), own);
}

#[test]
fn bash_refuses_destructive_commands() {
    assert_eq!(BashTool::screen("ls -la"), Ok(()));
    assert_eq!(
        BashTool::screen("sudo rm -rf / --no-preserve-root"),
        Err("Command blocked for security: rm -rf /".to_string())
    );
    assert_eq!(
        BashTool::screen("FORMAT C: /q"),
        Err("Command blocked for security: format c:".to_string())
    );
    assert_eq!(
        BashTool::screen("RD /S /Q C:\\"),
        Err("Command blocked for security: rd /s /q c:\\".to_string())
    );
    assert_eq!(
        BashTool::screen("format c: && rm -rf /"),
        Err("Command blocked for security: rm -rf /".to_string())
    );
    assert_eq!(BashTool::screen("rm -rf ./build"), Ok(()));
}

#[test]
fn bash_reports_outcomes() {
    assert_eq!(BashTool::report(true, Some(0), "out", ""), "out");
    assert_eq!(BashTool::report(true, Some(0), "out", " \n\t"), "out");
    assert_eq!(BashTool::report(true, Some(0), "out", "warn\n"), "out\nWARNINGS:\nwarn\n");
    assert_eq!(
        BashTool::report(false, Some(2), "o", "e"),
        "Exit Code: 2\nStderr: e\nStdout: o"
    );
    assert_eq!(BashTool::report(false, None, "", ""), "Exit Code: -1\nStderr: \nStdout: ");
    assert_eq!(BashTool::report(false, Some(-9), "", ""), "Exit Code: -9\nStderr: \nStdout: ");
    assert_eq!(BashTool::timed_out(120), "Command timed out after 120 seconds");
    assert_eq!(BashTool::DEFAULT_TIMEOUT_SECS, 120);
    assert_eq!(BashTool.name(), "bash");
    assert_eq!(BashTool.description(), "Execute a shell command. On Windows uses PowerShell.");
}

#[test]
fn read_file_shows_numbered_lines() {
    let file = lines(&["a", "b", "c"]);
    assert_eq!(ReadFileTool::show(&file, 0, None), Ok("   1 | a\n   2 | b\n   3 | c".to_string()));
    assert_eq!(ReadFileTool::show(&file, 1, Some(1)), Ok("   2 | b".to_string()));
    assert_eq!(ReadFileTool::show(&file, 1, Some(10)), Ok("   2 | b\n   3 | c".to_string()));
    assert_eq!(ReadFileTool::show(&file, 2, Some(0)), Ok(String::new()));
    assert_eq!(ReadFileTool::show(&file, 0, Some(u64::MAX)), Ok("   1 | a\n   2 | b\n   3 | c".to_string()));
}

#[test]
fn read_file_refuses_a_range_behind_the_end() {
    let file = lines(&["a", "b", "c"]);
    assert_eq!(
        ReadFileTool::show(&file, 3, None),
        Err("Offset 3 is out of bounds (file has 3 lines)".to_string())
    );
    assert_eq!(
        ReadFileTool::show(&file, u64::MAX, Some(1)),
        Err(format!("Offset {} is out of bounds (file has 3 lines)", u64::MAX))
    );
    assert_eq!(ReadFileTool::show(&vec![], 0, None), Ok(String::new()));
    assert_eq!(ReadFileTool::show(&vec![], 5, Some(2)), Ok(String::new()));
}

#[test]
fn read_file_refuses_large_files() {
    assert_eq!(MAX_FILE_BYTES, 5 * 1024 * 1024);
    assert_eq!(ReadFileTool::check_size(MAX_FILE_BYTES), Ok(()));
    assert_eq!(
        ReadFileTool::check_size(MAX_FILE_BYTES + 1),
        Err("File too large (>5MB). Use search or read specific lines.".to_string())
    );
    assert_eq!(ReadFileTool.name(), "read_file");
}

#[test]
fn edit_replaces_the_first_occurrence_only() {
    assert_eq!(EditFileTool::apply("a b a", "a", "x"), Ok("x b a".to_string()));
    assert_eq!(EditFileTool::apply("fn f() {}", "f()", "g()"), Ok("fn g() {}".to_string()));
    assert_eq!(
        EditFileTool::apply("abc", "d", "x"),
        Err("old_string not found in file".to_string())
    );
    assert_eq!(EditFileTool::apply("abc", "", "x"), Ok("xabc".to_string()));
    assert_eq!(EditFileTool::edited("/tmp/a"), "Successfully edited /tmp/a");
    assert_eq!(WriteFileTool::written("/tmp/a"), "Successfully wrote to /tmp/a");
    assert_eq!(EditFileTool.name(), "edit_file");
    assert_eq!(WriteFileTool.name(), "write_file");
}

#[test]
fn grep_passes_over_hidden_and_vendored_files() {
    assert!(!GrepTool::skips("src/main.rs"));
    assert!(GrepTool::skips("src/.hidden/a.rs"));
    assert!(GrepTool::skips("src\\.hidden\\a.rs"));
    assert!(GrepTool::skips("web/node_modules/x/index.js"));
    assert!(GrepTool::skips("target/debug/build.rs"));
    assert!(GrepTool::skips("repo.git/config"));
    assert!(!GrepTool::skips("./src/main.rs"));
}

#[test]
fn grep_words_matches() {
    assert_eq!(GrepTool::match_line("src/a.rs", 12, "   let x = 1;  \t"), "src/a.rs:12: let x = 1;");
    assert_eq!(GrepTool::render(&vec![]), "No matches found.");
    assert_eq!(GrepTool::render(&lines(&["a:1: x", "b:2: y"])), "a:1: x\nb:2: y");
    assert_eq!(MAX_RESULTS, 100);
    assert!(!is_full(99));
    assert!(is_full(100));
    assert_eq!(GrepTool.name(), "grep");
}

#[test]
fn glob_builds_its_pattern() {
    assert_eq!(GlobTool::full_pattern(".", "**/*.rs"), "**/*.rs");
    assert_eq!(GlobTool::full_pattern("src", "**/*.rs"), "src/**/*.rs");
    assert_eq!(GlobTool::full_pattern("./", "*.rs"), ".//*.rs");
    assert_eq!(GlobTool::render(&vec![]), "No files found.");
    assert_eq!(GlobTool::render(&lines(&["a.rs"])), "a.rs");
    assert_eq!(GlobTool.name(), "glob");
}

#[test]
fn project_type_goes_by_marker_files() {
    assert_eq!(ProjectStructureTool::project_type(true, true, true, true), "nodejs");
    assert_eq!(ProjectStructureTool::project_type(false, true, true, false), "rust");
    assert_eq!(ProjectStructureTool::project_type(false, false, true, false), "python");
    assert_eq!(ProjectStructureTool::project_type(false, false, false, true), "python");
    assert_eq!(ProjectStructureTool::project_type(false, false, false, false), "unknown");
    assert_eq!(ProjectStructureTool::header("rust"), "Project Type: rust\nStructure:\n");
    assert_eq!(ProjectStructureTool::DEFAULT_DEPTH, 2);
    assert_eq!(ProjectStructureTool.name(), "project_structure");
}

#[test]
fn project_overview_hides_and_indents() {
    assert!(ProjectStructureTool::shows("src"));
    assert!(!ProjectStructureTool::shows("node_modules"));
    assert!(!ProjectStructureTool::shows("target"));
    assert!(!ProjectStructureTool::shows(".git"));
    assert!(!ProjectStructureTool::shows(".env"));
    assert!(ProjectStructureTool::shows("targets"));
    assert!(ProjectStructureTool::shows(""));
    assert_eq!(ProjectStructureTool::entry_line(1, "src", true), "├── src/\n");
    assert_eq!(ProjectStructureTool::entry_line(2, "main.rs", false), "  ├── main.rs\n");
    assert_eq!(ProjectStructureTool::entry_line(3, "x", false), "    ├── x\n");
}
