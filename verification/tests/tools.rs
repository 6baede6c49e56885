use tech_writer::registry::ToolError;
use tech_writer::tools::{
    calculate, calculation_result, final_answer, find_all_matching_files, read_file_tool,
    sanitize, search_code, search_lines, select_files, Calculation, FileEntry, FileMetadata,
    FileProbe, SourceFile, MAX_RESULTS,
};
use tech_writer::types::{CalculationResult, CodeMatch, FileInfo, FileResult};

fn file(path: &str, size: u64) -> FileEntry {
    FileEntry {
        path: path.to_string(),
        binary: false,
        metadata: Some(FileMetadata { is_directory: false, is_file: true, size }),
    }
}

fn info(path: &str, size: u64) -> FileInfo {
    FileInfo { path: path.to_string(), is_directory: false, size: Some(size) }
}

fn source(path: &str, content: &str) -> SourceFile {
    SourceFile { path: path.to_string(), binary: false, content: Some(content.to_string()) }
}

fn found(file: &str, line: usize, content: &str) -> CodeMatch {
    CodeMatch { file: file.to_string(), line, content: content.to_string() }
}

#[test]
fn listing_without_pattern_keeps_text_files_in_order() {
    let files = vec![
        file("src/main.rs", 120),
        FileEntry { path: "logo.png".to_string(), binary: true, metadata: Some(FileMetadata { is_directory: false, is_file: true, size: 9 }) },
        FileEntry { path: "gone.txt".to_string(), binary: false, metadata: None },
        file("README.md", 0),
    ];
    assert_eq!(
        find_all_matching_files(&files, None),
        vec![info("src/main.rs", 120), info("README.md", 0)]
    );
}

#[test]
fn listing_filters_by_pattern_on_the_relative_path() {
    let files = vec![file("src/main.rs", 1), file("src/lib.rs", 2), file("docs/rs.md", 3), file("Cargo.toml", 4)];
    assert_eq!(
        find_all_matching_files(&files, Some("\\.rs$")),
        vec![info("src/main.rs", 1), info("src/lib.rs", 2)]
    );
    assert_eq!(
        find_all_matching_files(&files, Some("^src/")),
        vec![info("src/main.rs", 1), info("src/lib.rs", 2)]
    );
    assert_eq!(find_all_matching_files(&files, Some("rs")).len(), 3);
    assert_eq!(find_all_matching_files(&files, Some("nothing")), Vec::new());
}

#[test]
fn listing_with_invalid_pattern_filters_nothing() {
    let files = vec![file("a.rs", 1), file("b.txt", 2)];
    assert_eq!(
        find_all_matching_files(&files, Some("(unclosed")),
        vec![info("a.rs", 1), info("b.txt", 2)]
    );
}

#[test]
fn listing_gives_a_size_to_regular_files_only() {
    let files = vec![
        FileEntry {
            path: "odd".to_string(),
            binary: false,
            metadata: Some(FileMetadata { is_directory: false, is_file: false, size: 77 }),
        },
        FileEntry {
            path: "dir".to_string(),
            binary: false,
            metadata: Some(FileMetadata { is_directory: true, is_file: false, size: 4096 }),
        },
    ];
    assert_eq!(
        find_all_matching_files(&files, None),
        vec![
            FileInfo { path: "odd".to_string(), is_directory: false, size: None },
            FileInfo { path: "dir".to_string(), is_directory: true, size: None },
        ]
    );
}

#[test]
fn listing_is_capped_at_fifty() {
    let files: Vec<FileEntry> = (0..120).map(|n| file(&format!("f{:03}.rs", n), n)).collect();
    let listed = find_all_matching_files(&files, None);
    assert_eq!(listed.len(), 50);
    assert_eq!(MAX_RESULTS, 50);
    assert_eq!(listed[0], info("f000.rs", 0));
    assert_eq!(listed[49], info("f049.rs", 49));
    let odd = find_all_matching_files(&files, Some("[13579]\\.rs$"));
    assert_eq!(odd.len(), 50);
    assert_eq!(odd[49], info("f099.rs", 99));
    let exact: Vec<FileEntry> = (0..50).map(|n| file(&format!("f{}", n), n)).collect();
    assert_eq!(find_all_matching_files(&exact, None).len(), 50);
    let fewer: Vec<FileEntry> = (0..49).map(|n| file(&format!("f{}", n), n)).collect();
    assert_eq!(find_all_matching_files(&fewer, None).len(), 49);
}

#[test]
fn select_files_uses_the_compiled_filter() {
    let files = vec![file("a.rs", 1), file("b.txt", 2)];
    let re = regex::Regex::new("txt").unwrap();
    assert_eq!(select_files(&files, Some(&re)), vec![info("b.txt", 2)]);
    assert_eq!(select_files(&files, None).len(), 2);
    assert_eq!(select_files(&Vec::new(), Some(&re)), Vec::new());
}

#[test]
fn read_file_tool_reports_missing_path_as_data() {
    assert_eq!(
        read_file_tool("no/such/file", FileProbe::Missing),
        FileResult {
            file: Some("no/such/file".to_string()),
            content: None,
            error: Some("File not found: no/such/file".to_string()),
        }
    );
}

#[test]
fn read_file_tool_reports_directory_and_binary_as_data() {
    assert_eq!(
        read_file_tool("src", FileProbe::Directory),
        FileResult {
            file: Some("src".to_string()),
            content: None,
            error: Some("Path is a directory, not a file: src".to_string()),
        }
    );
    assert_eq!(
        read_file_tool("a.out", FileProbe::Binary),
        FileResult {
            file: Some("a.out".to_string()),
            content: None,
            error: Some("Cannot read binary file: a.out".to_string()),
        }
    );
}

#[test]
fn read_file_tool_returns_text_or_read_error() {
    assert_eq!(
        read_file_tool("a.txt", FileProbe::Text("hello\n".to_string())),
        FileResult { file: Some("a.txt".to_string()), content: Some("hello\n".to_string()), error: None }
    );
    assert_eq!(
        read_file_tool("a.txt", FileProbe::Unreadable("permission denied".to_string())),
        FileResult {
            file: Some("a.txt".to_string()),
            content: None,
            error: Some("Error reading file: permission denied".to_string()),
        }
    );
}

#[test]
fn search_finds_lines_with_numbers_from_one() {
    let files = vec![
        source("a.rs", "fn main() {\n    let x = 1;\n}\n"),
        source("b.rs", "// nothing here\nfn main() {}"),
    ];
    assert_eq!(
        search_code(&files, "fn main"),
        Ok(vec![found("a.rs", 1, "fn main() {"), found("b.rs", 2, "fn main() {}")])
    );
    assert_eq!(search_code(&files, "let"), Ok(vec![found("a.rs", 2, "    let x = 1;")]));
    assert_eq!(search_code(&files, "absent"), Ok(Vec::new()));
}

#[test]
fn search_takes_the_query_literally() {
    let files = vec![source("a.txt", "a.b\naxb\nf(x)*2\n[ab]\na\\b")];
    assert_eq!(search_code(&files, "a.b"), Ok(vec![found("a.txt", 1, "a.b")]));
    assert_eq!(search_code(&files, "f(x)*"), Ok(vec![found("a.txt", 3, "f(x)*2")]));
    assert_eq!(search_code(&files, "[ab]"), Ok(vec![found("a.txt", 4, "[ab]")]));
    assert_eq!(search_code(&files, "\\"), Ok(vec![found("a.txt", 5, "a\\b")]));
    assert_eq!(search_code(&files, "(").unwrap().len(), 1);
}

#[test]
fn search_skips_binary_and_unreadable_files() {
    let files = vec![
        SourceFile { path: "bin".to_string(), binary: true, content: Some("needle".to_string()) },
        SourceFile { path: "lost".to_string(), binary: false, content: None },
        source("ok", "needle"),
    ];
    assert_eq!(search_code(&files, "needle"), Ok(vec![found("ok", 1, "needle")]));
}

#[test]
fn search_splits_lines_like_the_standard_library() {
    let files = vec![source("w.txt", "one x\r\ntwo\n\nx four\r\nx five\r")];
    assert_eq!(
        search_code(&files, "x"),
        Ok(vec![found("w.txt", 1, "one x"), found("w.txt", 4, "x four"), found("w.txt", 5, "x five\r")])
    );
    assert_eq!(search_code(&files, ""), search_code(&files, "").map(|m| m));
    assert_eq!(search_code(&files, "").unwrap().len(), 5);
    assert_eq!(search_code(&vec![source("e", "")], "").unwrap().len(), 0);
    assert_eq!(search_code(&vec![source("e", "\n")], "").unwrap(), vec![found("e", 1, "")]);
}

#[test]
fn search_is_capped_at_fifty() {
    let many: String = (0..40).map(|n| format!("hit {}\n", n)).collect();
    let files = vec![source("a", &many), source("b", &many), source("c", &many)];
    let matches = search_code(&files, "hit").unwrap();
    assert_eq!(matches.len(), 50);
    assert_eq!(matches[39], found("a", 40, "hit 39"));
    assert_eq!(matches[40], found("b", 1, "hit 0"));
    assert_eq!(matches[49], found("b", 10, "hit 9"));
}

#[test]
fn search_lines_uses_the_compiled_expression() {
    let files = vec![source("a", "abc\nabd\nxyz")];
    let re = regex::Regex::new("^ab.$").unwrap();
    assert_eq!(search_lines(&files, &re), vec![found("a", 1, "abc"), found("a", 2, "abd")]);
}

#[test]
fn search_refuses_a_query_that_does_not_compile() {
    let huge = "a".repeat(12 * 1024 * 1024);
    let files = vec![source("a", "aaa")];
    match search_code(&files, &huge) {
        Err(ToolError::Failed(message)) => {
            assert!(message.starts_with("Invalid search query: "));
            assert!(message.len() > "Invalid search query: ".len());
        }
        other => panic!("unexpected result {:?}", other.map(|m| m.len())),
    }
}

#[test]
fn sanitize_keeps_only_safe_characters() {
    assert_eq!(sanitize("2+2; rm -rf"), "2+2  -");
    assert_eq!(sanitize("(1.5 - 2) * 3 / 4"), "(1.5 - 2) * 3 / 4");
    assert_eq!(sanitize("sqrt(2)"), "(2)");
    assert_eq!(sanitize("1e3"), "13");
    assert_eq!(sanitize("٣+١"), "+");
    assert_eq!(sanitize(""), "");
}

#[test]
fn calculate_rejects_unsafe_characters() {
    assert_eq!(
        calculate("2+2; rm -rf"),
        Calculation::Rejected(CalculationResult {
            expression: "2+2; rm -rf".to_string(),
            result: None,
            error: Some("Expression contains unsafe characters".to_string()),
        })
    );
    assert!(matches!(calculate("2^3"), Calculation::Rejected(_)));
    assert!(matches!(calculate("1\n+1"), Calculation::Rejected(_)));
}

#[test]
fn calculate_passes_safe_expressions_on() {
    assert_eq!(calculate("2+2*3"), Calculation::Evaluate("2+2*3".to_string()));
    assert_eq!(calculate(""), Calculation::Evaluate("".to_string()));
    assert_eq!(calculate("((1"), Calculation::Evaluate("((1".to_string()));
}

fn evaluate(expression: &str) -> CalculationResult {
    match calculate(expression) {
        Calculation::Rejected(result) => result,
        Calculation::Evaluate(safe) => calculation_result(
            expression,
            meval::eval_str(&safe).map(|value| value.to_string()).map_err(|error| error.to_string()),
        ),
    }
}

#[test]
fn calculate_then_evaluate_gives_the_value() {
    let result = evaluate("2+2*3");
    assert_eq!(result.expression, "2+2*3");
    assert_eq!(result.error, None);
    assert_eq!(result.result, Some("8".to_string()));
    let value: f64 = result.result.unwrap().parse().unwrap();
    assert_eq!(value, 8.0);
    assert_eq!(evaluate("(1.5 - 2) * 3 / 4").result, Some("-0.375".to_string()));
}

#[test]
fn evaluation_errors_are_data() {
    let result = evaluate("2+*");
    assert_eq!(result.expression, "2+*");
    assert_eq!(result.result, None);
    let error = result.error.unwrap();
    assert!(error.starts_with("Error evaluating expression: "));
    assert!(error.len() > "Error evaluating expression: ".len());
    assert_eq!(evaluate("2+2; rm -rf").error, Some("Expression contains unsafe characters".to_string()));
}

#[test]
fn calculation_result_wraps_the_outcome() {
    assert_eq!(
        calculation_result("1/3", Ok("0.3333333333333333".to_string())),
        CalculationResult {
            expression: "1/3".to_string(),
            result: Some("0.3333333333333333".to_string()),
            error: None,
        }
    );
    assert_eq!(
        calculation_result("(", Err("Parse error".to_string())),
        CalculationResult {
            expression: "(".to_string(),
            result: None,
            error: Some("Error evaluating expression: Parse error".to_string()),
        }
    );
}

#[test]
fn final_answer_is_the_identity() {
    assert_eq!(final_answer("# Title\n\nBody"), "# Title\n\nBody");
    assert_eq!(final_answer(""), "");
}
