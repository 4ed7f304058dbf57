//! The aggregator: fold per-file metrics into project-wide totals.

use vstd::prelude::*;

use crate::analysis::file::{model_of, model_wf, FileMetrics};

verus! {

/// Aggregated metrics for a whole Noir project.
///
/// Every numeric field is the element-wise sum of the corresponding
/// [`FileMetrics`] field over all files; `files` counts the files and
/// `files_with_main` the files that define a `main` function.  The
/// derived test-code percentage (`100 * test_lines / code_lines`, and
/// `0.0` when there is no code) is left to the reporter, which owns
/// all floating-point formatting.
#[derive(Debug, Clone)]
pub struct ProjectTotals {
    /// Number of `.nr` files in the project.
    pub files: usize,
    /// Total number of lines across all `.nr` files.
    pub total_lines: usize,
    /// Total blank lines across all `.nr` files.
    pub blank_lines: usize,
    /// Total comment lines across all `.nr` files.
    pub comment_lines: usize,
    /// Total code lines across all `.nr` files.
    pub code_lines: usize,
    /// Total number of `#[test]` functions across all files.
    pub test_functions: usize,
    /// Total code lines inside `#[test]` functions.
    pub test_lines: usize,
    /// Total code lines outside `#[test]` functions.
    pub non_test_lines: usize,
    /// Total number of functions across all files.
    pub functions: usize,
    /// Total number of `pub fn` across all files.
    pub pub_functions: usize,
    /// Total number of non-test functions across all files.
    pub non_test_functions: usize,
    /// Number of files that define a `main` function.
    pub files_with_main: usize,
    /// Total TODO/FIXME markers in comment lines across all files.
    pub todo_count: usize,
}

/// Full metrics report for a project.
#[derive(Debug, Clone)]
pub struct MetricsReport {
    /// Path to the project root.
    pub project_root: String,
    /// Aggregated totals over all `.nr` files in the project.
    pub totals: ProjectTotals,
    /// Per-file metrics for each discovered `.nr` file.
    pub files: Vec<FileMetrics>,
}

/// The mathematical value of a [`ProjectTotals`]: the same counters,
/// as unbounded naturals.
pub ghost struct TotalsModel {
    pub files: nat,
    pub total_lines: nat,
    pub blank_lines: nat,
    pub comment_lines: nat,
    pub code_lines: nat,
    pub test_functions: nat,
    pub test_lines: nat,
    pub non_test_lines: nat,
    pub functions: nat,
    pub pub_functions: nat,
    pub non_test_functions: nat,
    pub files_with_main: nat,
    pub todo_count: nat,
}

/// The counters of `t`, as a [`TotalsModel`].
pub open spec fn totals_of(t: ProjectTotals) -> TotalsModel {
    TotalsModel {
        files: t.files as nat,
        total_lines: t.total_lines as nat,
        blank_lines: t.blank_lines as nat,
        comment_lines: t.comment_lines as nat,
        code_lines: t.code_lines as nat,
        test_functions: t.test_functions as nat,
        test_lines: t.test_lines as nat,
        non_test_lines: t.non_test_lines as nat,
        functions: t.functions as nat,
        pub_functions: t.pub_functions as nat,
        non_test_functions: t.non_test_functions as nat,
        files_with_main: t.files_with_main as nat,
        todo_count: t.todo_count as nat,
    }
}

/// The all-zero totals.
pub open spec fn zero_totals() -> TotalsModel {
    TotalsModel {
        files: 0,
        total_lines: 0,
        blank_lines: 0,
        comment_lines: 0,
        code_lines: 0,
        test_functions: 0,
        test_lines: 0,
        non_test_lines: 0,
        functions: 0,
        pub_functions: 0,
        non_test_functions: 0,
        files_with_main: 0,
        todo_count: 0,
    }
}

/// The element-wise sum of the counters of `files`: `files` counts the
/// entries and `files_with_main` those with `has_main`.
pub open spec fn totals_model(files: Seq<FileMetrics>) -> TotalsModel
    decreases files.len(),
{
    if files.len() == 0 {
        zero_totals()
    } else {
        let prev = totals_model(files.drop_last());
        let fm = model_of(files.last());
        TotalsModel {
            files: prev.files + 1,
            total_lines: prev.total_lines + fm.total_lines,
            blank_lines: prev.blank_lines + fm.blank_lines,
            comment_lines: prev.comment_lines + fm.comment_lines,
            code_lines: prev.code_lines + fm.code_lines,
            test_functions: prev.test_functions + fm.test_functions,
            test_lines: prev.test_lines + fm.test_lines,
            non_test_lines: prev.non_test_lines + fm.non_test_lines,
            functions: prev.functions + fm.functions,
            pub_functions: prev.pub_functions + fm.pub_functions,
            non_test_functions: prev.non_test_functions + fm.non_test_functions,
            files_with_main: prev.files_with_main + if files.last().has_main {
                1nat
            } else {
                0nat
            },
            todo_count: prev.todo_count + fm.todo_count,
        }
    }
}

/// All entries satisfy the per-file counter invariants.
pub open spec fn all_wf(files: Seq<FileMetrics>) -> bool {
    forall|i: int| 0 <= i < files.len() ==> model_wf(model_of(#[trigger] files[i]))
}

/// The line total of a prefix never exceeds the line total of the
/// whole sequence.
proof fn lemma_prefix_total_le(files: Seq<FileMetrics>, i: int)
    requires
        0 <= i <= files.len(),
    ensures
        totals_model(files.subrange(0, i)).total_lines <= totals_model(files).total_lines,
    decreases files.len() - i,
{
    if i == files.len() {
        assert(files.subrange(0, i) =~= files);
    } else {
        lemma_prefix_total_le(files, i + 1);
        assert(files.subrange(0, i + 1).drop_last() =~= files.subrange(0, i));
        assert(files.subrange(0, i + 1).last() == files[i]);
    }
}

/// A project with no source files totals to all zeros; in particular
/// it has no code lines, so the reporter's derived test-code
/// percentage is defined as zero rather than by a division.
pub proof fn lemma_empty_project_totals()
    ensures
        totals_model(Seq::<FileMetrics>::empty()) == zero_totals(),
{
}

/// Compute project-level totals from per-file metrics.
///
/// The entries must satisfy the per-file counter invariants, and the
/// summed line count must fit in `usize`.
pub fn compute_totals(files: &Vec<FileMetrics>) -> (t: ProjectTotals)
    requires
        all_wf(files@),
        totals_model(files@).total_lines <= usize::MAX,
    ensures
        totals_of(t) == totals_model(files@),
        t.files == files@.len(),
        t.total_lines == t.blank_lines + t.comment_lines + t.code_lines,
        t.code_lines == t.test_lines + t.non_test_lines,
        t.functions == t.test_functions + t.non_test_functions,
{
    let mut files_count: usize = 0;
    let mut total_lines: usize = 0;
    let mut blank_lines: usize = 0;
    let mut comment_lines: usize = 0;
    let mut code_lines: usize = 0;
    let mut test_functions: usize = 0;
    let mut test_lines: usize = 0;
    let mut non_test_lines: usize = 0;
    let mut functions: usize = 0;
    let mut pub_functions: usize = 0;
    let mut non_test_functions: usize = 0;
    let mut files_with_main: usize = 0;
    let mut todo_count: usize = 0;

    let n = files.len();
    let mut i: usize = 0;
    while i < n
        invariant
            n == files@.len(),
            i <= n,
            all_wf(files@),
            totals_model(files@).total_lines <= usize::MAX,
            files_count == i,
            blank_lines + comment_lines + code_lines == total_lines,
            test_lines + non_test_lines == code_lines,
            test_functions + non_test_functions == functions,
            pub_functions <= functions,
            functions <= code_lines,
            todo_count <= comment_lines,
            files_with_main <= i,
            totals_model(files@.subrange(0, i as int)) == (TotalsModel {
                files: files_count as nat,
                total_lines: total_lines as nat,
                blank_lines: blank_lines as nat,
                comment_lines: comment_lines as nat,
                code_lines: code_lines as nat,
                test_functions: test_functions as nat,
                test_lines: test_lines as nat,
                non_test_lines: non_test_lines as nat,
                functions: functions as nat,
                pub_functions: pub_functions as nat,
                non_test_functions: non_test_functions as nat,
                files_with_main: files_with_main as nat,
                todo_count: todo_count as nat,
            }),
        decreases n - i,
    {
        proof {
            lemma_prefix_total_le(files@, i + 1);
            assert(files@.subrange(0, i + 1 as int).drop_last() =~= files@.subrange(0, i as int));
            assert(files@.subrange(0, i + 1 as int).last() == files@[i as int]);
            assert(model_wf(model_of(files@[i as int])));
        }
        let fm = &files[i];
        files_count = files_count + 1;
        total_lines = total_lines + fm.total_lines;
        blank_lines = blank_lines + fm.blank_lines;
        comment_lines = comment_lines + fm.comment_lines;
        code_lines = code_lines + fm.code_lines;
        test_functions = test_functions + fm.test_functions;
        test_lines = test_lines + fm.test_lines;
        non_test_lines = non_test_lines + fm.non_test_lines;
        functions = functions + fm.functions;
        pub_functions = pub_functions + fm.pub_functions;
        non_test_functions = non_test_functions + fm.non_test_functions;
        if fm.has_main {
            files_with_main = files_with_main + 1;
        }
        todo_count = todo_count + fm.todo_count;
        i = i + 1;
    }
    proof {
        assert(files@.subrange(0, n as int) =~= files@);
    }

    ProjectTotals {
        files: files_count,
        total_lines,
        blank_lines,
        comment_lines,
        code_lines,
        test_functions,
        test_lines,
        non_test_lines,
        functions,
        pub_functions,
        non_test_functions,
        files_with_main,
        todo_count,
    }
}

/// Assemble the full report for a project: the root, the per-file
/// metrics in their given (path-sorted) order, and their totals.
pub fn build_report(project_root: String, files: Vec<FileMetrics>) -> (r: MetricsReport)
    requires
        all_wf(files@),
        totals_model(files@).total_lines <= usize::MAX,
    ensures
        r.project_root == project_root,
        r.files == files,
        totals_of(r.totals) == totals_model(files@),
        r.totals.files == files@.len(),
{
    let totals = compute_totals(&files);
    MetricsReport { project_root, totals, files }
}

} // verus!
