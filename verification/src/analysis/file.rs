//! The per-file classifier: a line-by-line scan deriving [`FileMetrics`].
//!
//! The scan is specified as a fold of [`scan_step`] over the file's
//! lines; [`analyze_lines`] is proved to compute exactly that fold.

use vstd::prelude::*;

use crate::text::{
    chars_of, contains_chars, contains_component, ends_with_chars, has_component, has_prefix,
    has_substring, has_suffix, line_has_todo_chars, spec_line_has_todo, starts_with_chars, trim,
    trim_chars,
};

verus! {

/// Metrics computed for a single `.nr` file.
///
/// Values are derived from a line-based scan and simple heuristics
/// (not an AST parse); see the field docs for the classification rules
/// and their limitations.
#[derive(Debug, Clone)]
pub struct FileMetrics {
    /// Path to the file, relative to the project root.
    pub path: String,
    /// Heuristic: is this file considered a "test" file?
    pub is_test_file: bool,
    /// Total number of lines in the file (including blank and comment lines).
    pub total_lines: usize,
    /// Lines that are empty or only whitespace.
    pub blank_lines: usize,
    /// Lines that are comments: starting with `//` after trimming, or
    /// inside `/* ... */` block comments.
    pub comment_lines: usize,
    /// Lines that are considered code (everything that's not blank or comment).
    pub code_lines: usize,
    /// Number of functions annotated with `#[test...]` (including
    /// `#[test(should_fail)]` variants).
    pub test_functions: usize,
    /// Number of code lines inside `#[test]` functions.
    pub test_lines: usize,
    /// Number of code lines outside tests: `code_lines - test_lines`.
    pub non_test_lines: usize,
    /// Total number of functions (`fn` and `pub fn`) in this file.
    pub functions: usize,
    /// Number of `pub fn` (public functions) in this file.
    pub pub_functions: usize,
    /// Number of non-test functions (functions that are not tests).
    pub non_test_functions: usize,
    /// Does this file define a `main` function?
    pub has_main: bool,
    /// Number of TODO/FIXME markers in comment lines.
    pub todo_count: usize,
}

/// The mathematical value of a [`FileMetrics`]: the same counters, as
/// unbounded naturals.
pub ghost struct FileModel {
    pub total_lines: nat,
    pub blank_lines: nat,
    pub comment_lines: nat,
    pub code_lines: nat,
    pub test_functions: nat,
    pub test_lines: nat,
    pub non_test_lines: nat,
    pub functions: nat,
    pub pub_functions: nat,
    pub non_test_functions: nat,
    pub has_main: bool,
    pub todo_count: nat,
}

/// The cross-line state of the scan.
pub ghost struct ScanState {
    /// Inside an unterminated `/* ... */` region.
    pub in_block_comment: bool,
    /// A `#[test...]` line was seen and no function has consumed it yet.
    pub pending_test_attr: bool,
    /// Inside the body of a function classified as a test.
    pub inside_test: bool,
    /// Net brace depth since the last test function header.
    pub brace_depth: i64,
}

/// The counters of `m`, as a [`FileModel`].
pub open spec fn model_of(m: FileMetrics) -> FileModel {
    FileModel {
        total_lines: m.total_lines as nat,
        blank_lines: m.blank_lines as nat,
        comment_lines: m.comment_lines as nat,
        code_lines: m.code_lines as nat,
        test_functions: m.test_functions as nat,
        test_lines: m.test_lines as nat,
        non_test_lines: m.non_test_lines as nat,
        functions: m.functions as nat,
        pub_functions: m.pub_functions as nat,
        non_test_functions: m.non_test_functions as nat,
        has_main: m.has_main,
        todo_count: m.todo_count as nat,
    }
}

/// The internal invariants of a file model: each line falls in exactly
/// one bucket, code lines split into test and non-test lines, and
/// functions split into test and non-test functions.
pub open spec fn model_wf(m: FileModel) -> bool {
    &&& m.total_lines == m.blank_lines + m.comment_lines + m.code_lines
    &&& m.code_lines == m.test_lines + m.non_test_lines
    &&& m.functions == m.test_functions + m.non_test_functions
    &&& m.pub_functions <= m.functions
    &&& m.functions <= m.code_lines
    &&& m.todo_count <= m.comment_lines
}

/// The characters of `/*`.
pub open spec fn block_open_marker() -> Seq<char> {
    seq!['/', '*']
}

/// The characters of `*/`.
pub open spec fn block_close_marker() -> Seq<char> {
    seq!['*', '/']
}

/// The characters of `//`.
pub open spec fn line_comment_marker() -> Seq<char> {
    seq!['/', '/']
}

/// The characters of `#[test`.
pub open spec fn test_attr_marker() -> Seq<char> {
    seq!['#', '[', 't', 'e', 's', 't']
}

/// The characters of `fn `.
pub open spec fn fn_marker() -> Seq<char> {
    seq!['f', 'n', ' ']
}

/// The characters of `pub fn `.
pub open spec fn pub_fn_marker() -> Seq<char> {
    seq!['p', 'u', 'b', ' ', 'f', 'n', ' ']
}

/// The characters of `fn main(`.
pub open spec fn fn_main_marker() -> Seq<char> {
    seq!['f', 'n', ' ', 'm', 'a', 'i', 'n', '(']
}

/// The characters of `pub fn main(`.
pub open spec fn pub_fn_main_marker() -> Seq<char> {
    seq!['p', 'u', 'b', ' ', 'f', 'n', ' ', 'm', 'a', 'i', 'n', '(']
}

/// `i64` addition clamped to the `i64` range.
pub open spec fn sat_add64(a: i64, b: int) -> i64 {
    if a + b > i64::MAX {
        i64::MAX
    } else if a + b < i64::MIN {
        i64::MIN
    } else {
        (a + b) as i64
    }
}

/// Net brace count of a line, as an unbounded integer:
/// `{` counts +1, `}` counts -1.
pub open spec fn brace_delta(s: Seq<char>) -> int
    decreases s.len(),
{
    if s.len() == 0 {
        0
    } else {
        brace_delta(s.drop_last()) + if s.last() == '{' {
            1int
        } else if s.last() == '}' {
            (-1) as int
        } else {
            0int
        }
    }
}

/// Net brace count of a line as computed by [`count_braces`]: the
/// running count is clamped to the `i64` range, so it equals
/// [`brace_delta`] on every line short enough for the count to fit.
pub open spec fn count_braces_spec(s: Seq<char>) -> i64
    decreases s.len(),
{
    if s.len() == 0 {
        0
    } else {
        let prev = count_braces_spec(s.drop_last());
        if s.last() == '{' {
            sat_add64(prev, 1)
        } else if s.last() == '}' {
            sat_add64(prev, -1)
        } else {
            prev
        }
    }
}

/// On a line whose length fits in an `i64`, the clamped count is exact.
pub proof fn lemma_count_braces_exact(s: Seq<char>)
    ensures
        -(s.len() as int) <= brace_delta(s) <= s.len() as int,
        s.len() <= i64::MAX ==> count_braces_spec(s) as int == brace_delta(s),
    decreases s.len(),
{
    if s.len() > 0 {
        lemma_count_braces_exact(s.drop_last());
    }
}

/// Count the net number of braces on a line: `{` as +1, `}` as -1,
/// clamped to the `i64` range.
pub fn count_braces(line: &str) -> (delta: i64)
    ensures
        delta == count_braces_spec(line@),
        line@.len() <= i64::MAX ==> delta as int == brace_delta(line@),
{
    let v = chars_of(line);
    let delta = count_braces_chars(&v);
    proof {
        lemma_count_braces_exact(line@);
    }
    delta
}

/// `count_braces` on an already-decoded line.
pub fn count_braces_chars(v: &Vec<char>) -> (delta: i64)
    ensures
        delta == count_braces_spec(v@),
{
    let n = v.len();
    let mut delta: i64 = 0;
    let mut i: usize = 0;
    while i < n
        invariant
            n == v@.len(),
            i <= n,
            delta == count_braces_spec(v@.subrange(0, i as int)),
        decreases n - i,
    {
        let c = v[i];
        assert(v@.subrange(0, i + 1 as int).drop_last() =~= v@.subrange(0, i as int));
        assert(v@.subrange(0, i + 1 as int).last() == v@[i as int]);
        if c == '{' {
            if delta < i64::MAX {
                delta = delta + 1;
            }
        } else if c == '}' {
            if delta > i64::MIN {
                delta = delta - 1;
            }
        }
        i = i + 1;
    }
    assert(v@.subrange(0, n as int) =~= v@);
    delta
}

/// The characters of the `tests` directory name.
pub open spec fn tests_dir_name() -> Seq<char> {
    seq!['t', 'e', 's', 't', 's']
}

/// The characters of the `test` directory name.
pub open spec fn test_dir_name() -> Seq<char> {
    seq!['t', 'e', 's', 't']
}

/// The characters of the test-file suffix `_test.nr`.
pub open spec fn test_file_suffix() -> Seq<char> {
    seq!['_', 't', 'e', 's', 't', '.', 'n', 'r']
}

/// A path names a test file: some `/`-separated component is exactly
/// `tests` or `test`, or the file name ends with `_test.nr`.
pub open spec fn spec_is_test_file(p: Seq<char>) -> bool {
    ||| has_component(p, tests_dir_name())
    ||| has_component(p, test_dir_name())
    ||| has_suffix(p, test_file_suffix())
}

/// The scan state at the top of a file.
pub open spec fn init_state() -> ScanState {
    ScanState {
        in_block_comment: false,
        pending_test_attr: false,
        inside_test: false,
        brace_depth: 0,
    }
}

/// The all-zero counters.
pub open spec fn zero_model() -> FileModel {
    FileModel {
        total_lines: 0,
        blank_lines: 0,
        comment_lines: 0,
        code_lines: 0,
        test_functions: 0,
        test_lines: 0,
        non_test_lines: 0,
        functions: 0,
        pub_functions: 0,
        non_test_functions: 0,
        has_main: false,
        todo_count: 0,
    }
}

/// One step of the scan: classify a single line and update the
/// cross-line state.
///
/// A line inside a block comment, or opening one, is a comment line;
/// the block ends on a line containing `*/`.  Any other line is
/// exactly one of blank, line comment, or code.  Independently, a
/// line whose trimmed text starts with `fn ` or `pub fn ` declares a
/// function, which is a test when a `#[test...]` line is pending; a
/// code line inside a test body (or the annotation line itself)
/// counts as a test line.  Brace depth is tracked on the raw line and
/// closes the test body when it returns to zero.
pub open spec fn scan_step(st: ScanState, m: FileModel, line: Seq<char>) -> (ScanState, FileModel) {
    let t = trim(line);
    if st.in_block_comment || has_prefix(t, block_open_marker()) {
        let st2 = ScanState {
            in_block_comment: !has_substring(t, block_close_marker()),
            pending_test_attr: st.pending_test_attr,
            inside_test: st.inside_test,
            brace_depth: st.brace_depth,
        };
        let m2 = FileModel {
            total_lines: m.total_lines + 1,
            blank_lines: m.blank_lines,
            comment_lines: m.comment_lines + 1,
            code_lines: m.code_lines,
            test_functions: m.test_functions,
            test_lines: m.test_lines,
            non_test_lines: m.non_test_lines,
            functions: m.functions,
            pub_functions: m.pub_functions,
            non_test_functions: m.non_test_functions,
            has_main: m.has_main,
            todo_count: m.todo_count + if spec_line_has_todo(t) {
                1nat
            } else {
                0nat
            },
        };
        (st2, m2)
    } else {
        let is_attr = has_prefix(t, test_attr_marker());
        let pending_a = st.pending_test_attr || is_attr;
        let is_pub_fn = has_prefix(t, pub_fn_marker());
        let is_fn = has_prefix(t, fn_marker()) || is_pub_fn;
        let is_test_fn = is_fn && pending_a;
        let inside_a = if is_test_fn {
            true
        } else {
            st.inside_test
        };
        let pending_b = if is_fn {
            false
        } else {
            pending_a
        };
        let depth_a = if is_test_fn {
            0i64
        } else {
            st.brace_depth
        };
        let main_line = has_prefix(t, fn_main_marker()) || has_prefix(t, pub_fn_main_marker());
        let is_blank = t.len() == 0;
        let is_line_comment = !is_blank && has_prefix(t, line_comment_marker());
        let is_code = !is_blank && !is_line_comment;
        let is_test_code = is_code && (inside_a || is_attr);
        let depth_b = sat_add64(depth_a, count_braces_spec(line) as int);
        let inside_b = if inside_a && depth_b == 0 {
            false
        } else {
            inside_a
        };
        let st2 = ScanState {
            in_block_comment: false,
            pending_test_attr: pending_b,
            inside_test: inside_b,
            brace_depth: depth_b,
        };
        let m2 = FileModel {
            total_lines: m.total_lines + 1,
            blank_lines: m.blank_lines + if is_blank {
                1nat
            } else {
                0nat
            },
            comment_lines: m.comment_lines + if is_line_comment {
                1nat
            } else {
                0nat
            },
            code_lines: m.code_lines + if is_code {
                1nat
            } else {
                0nat
            },
            test_functions: m.test_functions + if is_test_fn {
                1nat
            } else {
                0nat
            },
            test_lines: m.test_lines + if is_test_code {
                1nat
            } else {
                0nat
            },
            non_test_lines: m.non_test_lines + if is_code && !is_test_code {
                1nat
            } else {
                0nat
            },
            functions: m.functions + if is_fn {
                1nat
            } else {
                0nat
            },
            pub_functions: m.pub_functions + if is_pub_fn {
                1nat
            } else {
                0nat
            },
            non_test_functions: m.non_test_functions + if is_fn && !pending_a {
                1nat
            } else {
                0nat
            },
            has_main: m.has_main || (is_fn && main_line),
            todo_count: m.todo_count + if is_line_comment && spec_line_has_todo(t) {
                1nat
            } else {
                0nat
            },
        };
        (st2, m2)
    }
}

/// The scan of a whole file: [`scan_step`] folded over the lines in
/// order, from the initial state and all-zero counters.
pub open spec fn scan(lines: Seq<Seq<char>>) -> (ScanState, FileModel)
    decreases lines.len(),
{
    if lines.len() == 0 {
        (init_state(), zero_model())
    } else {
        let prev = scan(lines.drop_last());
        scan_step(prev.0, prev.1, lines.last())
    }
}

/// The counters that scanning a file's lines produces.
pub open spec fn file_model(lines: Seq<Seq<char>>) -> FileModel {
    scan(lines).1
}

/// The character sequences of a vector of lines.
pub open spec fn line_views(lines: Seq<String>) -> Seq<Seq<char>> {
    lines.map_values(|l: String| l@)
}

proof fn lemma_step_wf(st: ScanState, m: FileModel, line: Seq<char>)
    requires
        model_wf(m),
    ensures
        model_wf(scan_step(st, m, line).1),
        scan_step(st, m, line).1.total_lines == m.total_lines + 1,
{
    let t = trim(line);
    if !(st.in_block_comment || has_prefix(t, block_open_marker())) {
        if has_prefix(t, fn_marker()) {
            assert(t.subrange(0, 3)[0] == t[0]);
        }
        if has_prefix(t, pub_fn_marker()) {
            assert(t.subrange(0, 7)[0] == t[0]);
        }
        if has_prefix(t, line_comment_marker()) {
            assert(t.subrange(0, 2)[0] == t[0]);
        }
    }
}

/// Invariants of every scan result: the three line buckets partition
/// the lines, code lines split into test and non-test lines, and
/// functions split into test and non-test functions.
pub proof fn lemma_file_model_wf(lines: Seq<Seq<char>>)
    ensures
        model_wf(file_model(lines)),
        file_model(lines).total_lines == lines.len(),
    decreases lines.len(),
{
    if lines.len() > 0 {
        lemma_file_model_wf(lines.drop_last());
        let prev = scan(lines.drop_last());
        lemma_step_wf(prev.0, prev.1, lines.last());
    }
}

/// `m` is the metrics of a file at `path` whose content is `lines`:
/// the test-file flag is determined purely by the path, and every
/// counter by the scan of the lines.
pub open spec fn metrics_for(m: FileMetrics, path: Seq<char>, lines: Seq<Seq<char>>) -> bool {
    &&& m.path@ == path
    &&& m.is_test_file == spec_is_test_file(path)
    &&& model_of(m) == file_model(lines)
}

/// Scanning the same file content twice yields identical metrics: any
/// two results for the same path and lines agree in every field.
pub proof fn lemma_analysis_deterministic(
    m1: FileMetrics,
    m2: FileMetrics,
    path: Seq<char>,
    lines: Seq<Seq<char>>,
)
    requires
        metrics_for(m1, path, lines),
        metrics_for(m2, path, lines),
    ensures
        m1.path@ == m2.path@,
        m1.is_test_file == m2.is_test_file,
        m1.total_lines == m2.total_lines,
        m1.blank_lines == m2.blank_lines,
        m1.comment_lines == m2.comment_lines,
        m1.code_lines == m2.code_lines,
        m1.test_functions == m2.test_functions,
        m1.test_lines == m2.test_lines,
        m1.non_test_lines == m2.non_test_lines,
        m1.functions == m2.functions,
        m1.pub_functions == m2.pub_functions,
        m1.non_test_functions == m2.non_test_functions,
        m1.has_main == m2.has_main,
        m1.todo_count == m2.todo_count,
{
}

/// An empty file scans to all-zero counters: what a file's metrics
/// are before any line, and all a 0-line file ever gets.
pub proof fn lemma_empty_file_model()
    ensures
        file_model(Seq::<Seq<char>>::empty()) == zero_model(),
{
}

fn sat_add64_exec(a: i64, b: i64) -> (r: i64)
    ensures
        r == sat_add64(a, b as int),
{
    if b >= 0 {
        if a > i64::MAX - b {
            i64::MAX
        } else {
            a + b
        }
    } else {
        if a < i64::MIN - b {
            i64::MIN
        } else {
            a + b
        }
    }
}

/// Analyze the lines of a single `.nr` file, given its path relative
/// to the project root, and compute its line-based metrics.
///
/// Line classification:
/// - Blank lines: empty after trimming.
/// - Line comments: trimmed lines starting with `//`.
/// - Block comments: trimmed lines starting with `/*`, continuing
///   until a line containing `*/`.
/// - Code lines: all non-blank, non-comment lines.
///
/// Test detection:
/// - A function is treated as a test when a `#[test...]` attribute line
///   appears before a `fn`/`pub fn` line.
/// - Test line attribution uses a brace-depth heuristic: once a test
///   function is entered, lines are counted as test lines until the
///   brace depth returns to zero.
///
/// TODO/FIXME detection:
/// - `todo_count` increments when `TODO` or `FIXME` (in any ASCII case)
///   appears in comment lines.
///
/// Limitations:
/// - The analysis does not parse Noir syntax and may misclassify
///   complex cases (e.g. braces in strings, inline block comments, or
///   comment delimiters in unusual positions).
pub fn analyze_lines(path: String, lines: &Vec<String>) -> (m: FileMetrics)
    ensures
        m.path == path,
        m.is_test_file == spec_is_test_file(path@),
        metrics_for(m, path@, line_views(lines@)),
        model_wf(model_of(m)),
        m.total_lines == lines@.len(),
{
    let mut total_lines: usize = 0;
    let mut blank_lines: usize = 0;
    let mut comment_lines: usize = 0;
    let mut code_lines: usize = 0;
    let mut test_functions: usize = 0;
    let mut test_lines: usize = 0;
    let mut non_test_lines: usize = 0;
    let mut functions: usize = 0;
    let mut pub_functions: usize = 0;
    let mut non_test_functions: usize = 0;
    let mut has_main: bool = false;
    let mut todo_count: usize = 0;

    let mut pending_test_attr: bool = false;
    let mut inside_test: bool = false;
    let mut brace_depth: i64 = 0;
    let mut in_block_comment: bool = false;

    let p_open = chars_of("/*");
    let p_close = chars_of("*/");
    let p_line = chars_of("//");
    let p_attr = chars_of("#[test");
    let p_fn = chars_of("fn ");
    let p_pub_fn = chars_of("pub fn ");
    let p_fn_main = chars_of("fn main(");
    let p_pub_fn_main = chars_of("pub fn main(");
    proof {
        reveal_strlit("/*");
        reveal_strlit("*/");
        reveal_strlit("//");
        reveal_strlit("#[test");
        reveal_strlit("fn ");
        reveal_strlit("pub fn ");
        reveal_strlit("fn main(");
        reveal_strlit("pub fn main(");
        assert(p_open@ =~= block_open_marker());
        assert(p_close@ =~= block_close_marker());
        assert(p_line@ =~= line_comment_marker());
        assert(p_attr@ =~= test_attr_marker());
        assert(p_fn@ =~= fn_marker());
        assert(p_pub_fn@ =~= pub_fn_marker());
        assert(p_fn_main@ =~= fn_main_marker());
        assert(p_pub_fn_main@ =~= pub_fn_main_marker());
    }

    let ghost lv = line_views(lines@);
    let n = lines.len();
    let mut i: usize = 0;
    while i < n
        invariant
            n == lines@.len(),
            lv == line_views(lines@),
            i <= n,
            total_lines == i,
            blank_lines + comment_lines + code_lines == total_lines,
            test_lines + non_test_lines == code_lines,
            test_functions + non_test_functions == functions,
            pub_functions <= functions,
            functions <= code_lines,
            todo_count <= comment_lines,
            scan(lv.subrange(0, i as int)).0 == (ScanState {
                in_block_comment,
                pending_test_attr,
                inside_test,
                brace_depth,
            }),
            scan(lv.subrange(0, i as int)).1 == (FileModel {
                total_lines: total_lines as nat,
                blank_lines: blank_lines as nat,
                comment_lines: comment_lines as nat,
                code_lines: code_lines as nat,
                test_functions: test_functions as nat,
                test_lines: test_lines as nat,
                non_test_lines: non_test_lines as nat,
                functions: functions as nat,
                pub_functions: pub_functions as nat,
                non_test_functions: non_test_functions as nat,
                has_main,
                todo_count: todo_count as nat,
            }),
            p_open@ == block_open_marker(),
            p_close@ == block_close_marker(),
            p_line@ == line_comment_marker(),
            p_attr@ == test_attr_marker(),
            p_fn@ == fn_marker(),
            p_pub_fn@ == pub_fn_marker(),
            p_fn_main@ == fn_main_marker(),
            p_pub_fn_main@ == pub_fn_main_marker(),
        decreases n - i,
    {
        let line = &lines[i];
        let v = chars_of(line.as_str());
        let t = trim_chars(&v);
        proof {
            assert(lv[i as int] == lines@[i as int]@);
            assert(t@ == trim(lv[i as int]));
        }

        if in_block_comment || starts_with_chars(&t, &p_open) {
            total_lines = total_lines + 1;
            comment_lines = comment_lines + 1;
            if line_has_todo_chars(&t) {
                todo_count = todo_count + 1;
            }
            in_block_comment = !contains_chars(&t, &p_close);
        } else {
            let is_attr = starts_with_chars(&t, &p_attr);
            let pending_a = pending_test_attr || is_attr;
            let is_pub_fn = starts_with_chars(&t, &p_pub_fn);
            let is_fn = starts_with_chars(&t, &p_fn) || is_pub_fn;
            let is_test_fn = is_fn && pending_a;
            let inside_a = if is_test_fn {
                true
            } else {
                inside_test
            };
            let main_line = starts_with_chars(&t, &p_fn_main) || starts_with_chars(
                &t,
                &p_pub_fn_main,
            );
            let is_blank = t.len() == 0;
            let is_line_comment = !is_blank && starts_with_chars(&t, &p_line);
            let is_code = !is_blank && !is_line_comment;
            let is_test_code = is_code && (inside_a || is_attr);
            proof {
                if has_prefix(t@, fn_marker()) {
                    assert(t@.subrange(0, 3)[0] == t@[0]);
                }
                if has_prefix(t@, pub_fn_marker()) {
                    assert(t@.subrange(0, 7)[0] == t@[0]);
                }
                if has_prefix(t@, line_comment_marker()) {
                    assert(t@.subrange(0, 2)[0] == t@[0]);
                }
            }

            total_lines = total_lines + 1;
            if is_fn {
                functions = functions + 1;
                if is_pub_fn {
                    pub_functions = pub_functions + 1;
                }
                if pending_a {
                    test_functions = test_functions + 1;
                } else {
                    non_test_functions = non_test_functions + 1;
                }
                if main_line {
                    has_main = true;
                }
            }
            if is_blank {
                blank_lines = blank_lines + 1;
            } else if is_line_comment {
                comment_lines = comment_lines + 1;
                if line_has_todo_chars(&t) {
                    todo_count = todo_count + 1;
                }
            } else {
                code_lines = code_lines + 1;
                if is_test_code {
                    test_lines = test_lines + 1;
                } else {
                    non_test_lines = non_test_lines + 1;
                }
            }

            let depth_a: i64 = if is_test_fn {
                0
            } else {
                brace_depth
            };
            let delta = count_braces_chars(&v);
            let depth_b = sat_add64_exec(depth_a, delta);
            brace_depth = depth_b;
            inside_test = if inside_a && depth_b == 0 {
                false
            } else {
                inside_a
            };
            pending_test_attr = if is_fn {
                false
            } else {
                pending_a
            };
        }
        proof {
            assert(lv.subrange(0, i + 1 as int).drop_last() =~= lv.subrange(0, i as int));
            assert(lv.subrange(0, i + 1 as int).last() == lv[i as int]);
        }
        i = i + 1;
    }
    proof {
        assert(lv.subrange(0, n as int) =~= lv);
    }

    let path_chars = chars_of(path.as_str());
    let file_is_test = is_test_file_chars(&path_chars);

    FileMetrics {
        path,
        is_test_file: file_is_test,
        total_lines,
        blank_lines,
        comment_lines,
        code_lines,
        test_functions,
        test_lines,
        non_test_lines,
        functions,
        pub_functions,
        non_test_functions,
        has_main,
        todo_count,
    }
}

/// Heuristic to decide if a file is a "test file".
///
/// Rules:
/// - If any path component is exactly `tests` or `test`, return true.
/// - If the file name ends with `_test.nr`, return true.
pub fn is_test_file(rel_path: &str) -> (b: bool)
    ensures
        b == spec_is_test_file(rel_path@),
{
    let v = chars_of(rel_path);
    is_test_file_chars(&v)
}

/// `is_test_file` on an already-decoded path.
pub fn is_test_file_chars(v: &Vec<char>) -> (b: bool)
    ensures
        b == spec_is_test_file(v@),
{
    let tests_name = chars_of("tests");
    let test_name = chars_of("test");
    let suffix = chars_of("_test.nr");
    proof {
        reveal_strlit("tests");
        reveal_strlit("test");
        reveal_strlit("_test.nr");
        assert(tests_name@ =~= tests_dir_name());
        assert(test_name@ =~= test_dir_name());
        assert(suffix@ =~= test_file_suffix());
    }
    contains_component(v, &tests_name) || contains_component(v, &test_name) || ends_with_chars(
        v,
        &suffix,
    )
}

} // verus!
