use noir_metrics::{analyze_lines, count_braces, is_test_file, line_has_todo, FileMetrics};

fn lines_of(xs: &[&str]) -> Vec<String> {
    xs.iter().map(|s| s.to_string()).collect()
}

fn analyze(path: &str, xs: &[&str]) -> FileMetrics {
    analyze_lines(path.to_string(), &lines_of(xs))
}

#[test]
fn is_test_file_detects_tests_dir() {
    assert!(is_test_file("tests/main.nr"));
    assert!(is_test_file("src/tests/main.nr"));
    assert!(is_test_file("src/test/main.nr"));
}

#[test]
fn is_test_file_detects_suffix() {
    assert!(is_test_file("src/foo_test.nr"));
}

#[test]
fn is_test_file_false_for_regular_files() {
    assert!(!is_test_file("src/main.nr"));
    assert!(!is_test_file("src/lib.nr"));
}

#[test]
fn count_braces_counts_open_and_close() {
    assert_eq!(count_braces("{"), 1);
    assert_eq!(count_braces("}"), -1);
    assert_eq!(count_braces("{}"), 0);
    assert_eq!(count_braces("{{}}"), 0);
    assert_eq!(count_braces("{{}}}"), -1);
    assert_eq!(count_braces("fn x() { let y = 1; }"), 0);
}

#[test]
fn line_buckets_partition_the_file() {
    let m = analyze(
        "src/main.nr",
        &[
            "// a comment",
            "",
            "fn main() {",
            "    let x = 1;",
            "}",
            "/* block",
            "still block */",
            "   ",
        ],
    );
    assert_eq!(m.total_lines, 8);
    assert_eq!(m.blank_lines, 2);
    assert_eq!(m.comment_lines, 3);
    assert_eq!(m.code_lines, 3);
    assert_eq!(m.blank_lines + m.comment_lines + m.code_lines, m.total_lines);
    assert_eq!(m.test_lines + m.non_test_lines, m.code_lines);
}

#[test]
fn function_counts_partition() {
    let m = analyze(
        "src/lib.nr",
        &[
            "pub fn visible() {",
            "}",
            "fn hidden() {",
            "}",
            "#[test]",
            "fn checks() {",
            "}",
        ],
    );
    assert_eq!(m.functions, 3);
    assert_eq!(m.pub_functions, 1);
    assert_eq!(m.test_functions, 1);
    assert_eq!(m.non_test_functions, 2);
    assert_eq!(m.non_test_functions, m.functions - m.test_functions);
}

#[test]
fn empty_file_all_zero() {
    let m = analyze("src/empty.nr", &[]);
    assert_eq!(m.total_lines, 0);
    assert_eq!(m.blank_lines, 0);
    assert_eq!(m.comment_lines, 0);
    assert_eq!(m.code_lines, 0);
    assert_eq!(m.test_functions, 0);
    assert_eq!(m.test_lines, 0);
    assert_eq!(m.non_test_lines, 0);
    assert_eq!(m.functions, 0);
    assert_eq!(m.pub_functions, 0);
    assert_eq!(m.non_test_functions, 0);
    assert!(!m.has_main);
    assert_eq!(m.todo_count, 0);
    assert!(!m.is_test_file);

    let t = analyze("tests/empty.nr", &[]);
    assert_eq!(t.total_lines, 0);
    assert!(t.is_test_file);
}

#[test]
fn scanning_twice_is_identical() {
    let content = [
        "#[test]",
        "fn t() {",
        "    assert(true);",
        "}",
        "// TODO: more",
        "fn main() {}",
    ];
    let a = analyze("src/main.nr", &content);
    let b = analyze("src/main.nr", &content);
    assert_eq!(a.path, b.path);
    assert_eq!(a.is_test_file, b.is_test_file);
    assert_eq!(a.total_lines, b.total_lines);
    assert_eq!(a.blank_lines, b.blank_lines);
    assert_eq!(a.comment_lines, b.comment_lines);
    assert_eq!(a.code_lines, b.code_lines);
    assert_eq!(a.test_functions, b.test_functions);
    assert_eq!(a.test_lines, b.test_lines);
    assert_eq!(a.non_test_lines, b.non_test_lines);
    assert_eq!(a.functions, b.functions);
    assert_eq!(a.pub_functions, b.pub_functions);
    assert_eq!(a.non_test_functions, b.non_test_functions);
    assert_eq!(a.has_main, b.has_main);
    assert_eq!(a.todo_count, b.todo_count);
}

#[test]
fn test_function_lines_are_attributed() {
    let m = analyze(
        "src/metrics.nr",
        &["#[test]", "fn t() {", "}", "fn u() {", "}"],
    );
    assert_eq!(m.functions, 2);
    assert_eq!(m.test_functions, 1);
    assert_eq!(m.test_lines, 3);
    assert_eq!(m.non_test_lines, 2);
    assert_eq!(m.code_lines, 5);
}

#[test]
fn test_file_flag_follows_the_path() {
    let in_tests = analyze("src/tests/helper.nr", &["fn helper() {}"]);
    assert!(in_tests.is_test_file);
    let with_suffix = analyze("src/helper_test.nr", &["fn helper() {}"]);
    assert!(with_suffix.is_test_file);
    let sibling = analyze("src/helper.nr", &["fn helper() {}"]);
    assert!(!sibling.is_test_file);
}

#[test]
fn todo_counts_only_comment_lines() {
    let m = analyze(
        "src/main.nr",
        &[
            "/*",
            " TODO inside a block",
            "*/",
            "let todo_marker = 1;",
            "// fixme: lowercase works too",
        ],
    );
    assert_eq!(m.todo_count, 2);
}

#[test]
fn unterminated_block_comment_swallows_the_rest() {
    let m = analyze(
        "src/main.nr",
        &["fn f() {}", "/* opened and never closed", "fn g() {}", "let x = 1;"],
    );
    assert_eq!(m.total_lines, 4);
    assert_eq!(m.comment_lines, 3);
    assert_eq!(m.code_lines, 1);
    assert_eq!(m.functions, 1);
}

#[test]
fn single_line_block_comment_does_not_open_a_block() {
    let m = analyze("src/main.nr", &["/* one line */", "fn f() {}"]);
    assert_eq!(m.comment_lines, 1);
    assert_eq!(m.code_lines, 1);
    assert_eq!(m.functions, 1);
}

#[test]
fn main_detection_any_visibility() {
    let plain = analyze("src/main.nr", &["fn main() {", "}"]);
    assert!(plain.has_main);
    let public = analyze("src/main.nr", &["pub fn main() {", "}"]);
    assert!(public.has_main);
    let none = analyze("src/main.nr", &["fn maintain() {", "}"]);
    assert!(!none.has_main);
}

#[test]
fn line_has_todo_is_case_insensitive() {
    assert!(line_has_todo("TODO"));
    assert!(line_has_todo("ToDo: later"));
    assert!(line_has_todo("please FIXME"));
    assert!(line_has_todo("fixme"));
    assert!(!line_has_todo("all done here"));
}

#[test]
fn unbalanced_braces_are_tolerated() {
    let m = analyze(
        "src/main.nr",
        &["#[test]", "fn t() {", "}", "}", "fn u() {}"],
    );
    assert_eq!(m.functions, 2);
    assert_eq!(m.test_functions, 1);
    assert_eq!(m.code_lines, 5);
    assert_eq!(m.test_lines, 3);
    assert_eq!(m.non_test_lines, 2);
    assert_eq!(m.blank_lines + m.comment_lines + m.code_lines, m.total_lines);
}

#[test]
fn dangling_test_attribute_is_discarded() {
    let m = analyze("src/main.nr", &["fn f() {}", "#[test]"]);
    assert_eq!(m.test_functions, 0);
    assert_eq!(m.functions, 1);
    // The attribute line itself is still attributed to the test it announces.
    assert_eq!(m.test_lines, 1);
    assert_eq!(m.non_test_lines, 1);
}
