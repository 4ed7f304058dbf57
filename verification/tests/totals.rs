use noir_metrics::{analyze_lines, compute_totals, FileMetrics, MetricsReport, ProjectTotals};

fn lines_of(xs: &[&str]) -> Vec<String> {
    xs.iter().map(|s| s.to_string()).collect()
}

fn analyze(path: &str, xs: &[&str]) -> FileMetrics {
    analyze_lines(path.to_string(), &lines_of(xs))
}

fn sample_files() -> Vec<FileMetrics> {
    vec![
        analyze(
            "src/main.nr",
            &["fn main() {", "    let x = 1;", "}", "", "// TODO: tidy up"],
        ),
        analyze(
            "src/lib.nr",
            &["#[test]", "fn t() {", "}", "pub fn api() {", "}"],
        ),
        analyze("src/empty.nr", &[]),
    ]
}

#[test]
fn project_totals_match_sum_of_files() {
    let files = sample_files();
    let totals: ProjectTotals = compute_totals(&files);

    let mut count = 0usize;
    let mut total_lines = 0usize;
    let mut blank_lines = 0usize;
    let mut comment_lines = 0usize;
    let mut code_lines = 0usize;
    let mut test_functions = 0usize;
    let mut test_lines = 0usize;
    let mut non_test_lines = 0usize;
    let mut functions = 0usize;
    let mut pub_functions = 0usize;
    let mut non_test_functions = 0usize;
    let mut files_with_main = 0usize;
    let mut todo_count = 0usize;
    for fm in &files {
        count += 1;
        total_lines += fm.total_lines;
        blank_lines += fm.blank_lines;
        comment_lines += fm.comment_lines;
        code_lines += fm.code_lines;
        test_functions += fm.test_functions;
        test_lines += fm.test_lines;
        non_test_lines += fm.non_test_lines;
        functions += fm.functions;
        pub_functions += fm.pub_functions;
        non_test_functions += fm.non_test_functions;
        if fm.has_main {
            files_with_main += 1;
        }
        todo_count += fm.todo_count;
    }

    assert_eq!(totals.files, count);
    assert_eq!(totals.total_lines, total_lines);
    assert_eq!(totals.blank_lines, blank_lines);
    assert_eq!(totals.comment_lines, comment_lines);
    assert_eq!(totals.code_lines, code_lines);
    assert_eq!(totals.test_functions, test_functions);
    assert_eq!(totals.test_lines, test_lines);
    assert_eq!(totals.non_test_lines, non_test_lines);
    assert_eq!(totals.functions, functions);
    assert_eq!(totals.pub_functions, pub_functions);
    assert_eq!(totals.non_test_functions, non_test_functions);
    assert_eq!(totals.files_with_main, files_with_main);
    assert_eq!(totals.todo_count, todo_count);
}

#[test]
fn totals_exact_values() {
    let files = sample_files();
    let totals = compute_totals(&files);
    assert_eq!(totals.files, 3);
    assert_eq!(totals.total_lines, 10);
    assert_eq!(totals.blank_lines, 1);
    assert_eq!(totals.comment_lines, 1);
    assert_eq!(totals.code_lines, 8);
    assert_eq!(totals.test_functions, 1);
    assert_eq!(totals.test_lines, 3);
    assert_eq!(totals.non_test_lines, 5);
    assert_eq!(totals.functions, 3);
    assert_eq!(totals.pub_functions, 1);
    assert_eq!(totals.files_with_main, 1);
    assert_eq!(totals.todo_count, 1);
}

#[test]
fn empty_project_has_zero_totals() {
    let files: Vec<FileMetrics> = Vec::new();
    let totals = compute_totals(&files);
    assert_eq!(totals.files, 0);
    assert_eq!(totals.total_lines, 0);
    assert_eq!(totals.blank_lines, 0);
    assert_eq!(totals.comment_lines, 0);
    assert_eq!(totals.code_lines, 0);
    assert_eq!(totals.test_functions, 0);
    assert_eq!(totals.test_lines, 0);
    assert_eq!(totals.non_test_lines, 0);
    assert_eq!(totals.functions, 0);
    assert_eq!(totals.pub_functions, 0);
    assert_eq!(totals.non_test_functions, 0);
    assert_eq!(totals.files_with_main, 0);
    assert_eq!(totals.todo_count, 0);
}

#[test]
fn report_keeps_root_and_file_order() {
    let files = sample_files();
    let report: MetricsReport = noir_metrics::build_report("proj".to_string(), files);
    assert_eq!(report.project_root, "proj");
    assert_eq!(report.files.len(), 3);
    assert_eq!(report.files[0].path, "src/main.nr");
    assert_eq!(report.files[1].path, "src/lib.nr");
    assert_eq!(report.files[2].path, "src/empty.nr");
    assert_eq!(report.totals.files, 3);
}
