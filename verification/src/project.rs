//! Project handling: validating a project root and selecting the
//! `.nr` source files beneath it, in deterministic path order.
//!
//! Walking the directory tree is I/O and is done by the caller; the
//! library validates the root's shape, recognizes `.nr` paths, and
//! produces the path-sorted file list.

use vstd::prelude::*;

use crate::text::{chars_of, ends_with_chars, has_suffix};

verus! {

/// Represents a Noir project on disk.
#[derive(Debug, Clone)]
pub struct Project {
    /// Path to the project root directory.
    pub root: String,
    /// Path to `Nargo.toml` inside the project root.
    pub manifest_path: String,
}

/// Why a directory is not a valid project root.
#[derive(Debug, Clone, Copy, PartialEq, Eq, Structural)]
pub enum ProjectError {
    /// The root path does not resolve to a directory.
    NotADirectory,
    /// The root directory holds no `Nargo.toml` file.
    NoManifest,
}

/// The characters of `/Nargo.toml`.
pub open spec fn manifest_suffix() -> Seq<char> {
    seq!['/', 'N', 'a', 'r', 'g', 'o', '.', 't', 'o', 'm', 'l']
}

impl Project {
    /// Construct a project handle from a root directory.
    ///
    /// The caller reports what it found on disk: whether `root`
    /// resolves to a directory, and whether `Nargo.toml` exists as a
    /// file in it.  The handle is built exactly when both hold, with
    /// the manifest path `<root>/Nargo.toml`.
    pub fn from_root(root: String, root_is_dir: bool, manifest_is_file: bool) -> (r: Result<
        Project,
        ProjectError,
    >)
        ensures
            r is Ok <==> root_is_dir && manifest_is_file,
            !root_is_dir ==> r == Result::<Project, ProjectError>::Err(ProjectError::NotADirectory),
            root_is_dir && !manifest_is_file ==> r == Result::<Project, ProjectError>::Err(
                ProjectError::NoManifest,
            ),
            r is Ok ==> r->Ok_0.root == root && r->Ok_0.manifest_path@ == root@
                + manifest_suffix(),
    {
        if !root_is_dir {
            return Err(ProjectError::NotADirectory);
        }
        if !manifest_is_file {
            return Err(ProjectError::NoManifest);
        }
        let mut manifest_path = root.clone();
        let suffix = "/Nargo.toml";
        proof {
            reveal_strlit("/Nargo.toml");
            assert(suffix@ =~= manifest_suffix());
        }
        manifest_path.append(suffix);
        Ok(Project { root, manifest_path })
    }
}

/// A path names a `.nr` file: the file name (the part after the last
/// `/`) has the extension `nr`, so it ends in `.nr` with a non-empty
/// stem before the dot.
pub open spec fn spec_is_nr_file(p: Seq<char>) -> bool {
    &&& p.len() >= 4
    &&& has_suffix(p, nr_suffix())
    &&& p[p.len() - 4] != '/'
}

/// The characters of `.nr`.
pub open spec fn nr_suffix() -> Seq<char> {
    seq!['.', 'n', 'r']
}

/// Does the path name a `.nr` file?
pub fn is_nr_file(path: &str) -> (b: bool)
    ensures
        b == spec_is_nr_file(path@),
{
    let v = chars_of(path);
    is_nr_file_chars(&v)
}

/// `is_nr_file` on an already-decoded path.
pub fn is_nr_file_chars(v: &Vec<char>) -> (b: bool)
    ensures
        b == spec_is_nr_file(v@),
{
    if v.len() < 4 {
        return false;
    }
    let n = v.len();
    let suffix = chars_of(".nr");
    proof {
        reveal_strlit(".nr");
        assert(suffix@ =~= nr_suffix());
    }
    let ends = ends_with_chars(v, &suffix);
    ends && v[n - 4] != '/'
}

/// Lexicographic order on character sequences, by Unicode scalar
/// value.  On UTF-8 strings this is the same order as the byte-wise
/// order that `str` comparison uses.
pub open spec fn lex_le(a: Seq<char>, b: Seq<char>) -> bool
    decreases a.len(),
{
    if a.len() == 0 {
        true
    } else if b.len() == 0 {
        false
    } else if (a[0] as u32) < (b[0] as u32) {
        true
    } else if (a[0] as u32) == (b[0] as u32) {
        lex_le(a.drop_first(), b.drop_first())
    } else {
        false
    }
}

/// `lex_le` is total: of any two sequences, one is below the other.
pub proof fn lemma_lex_total(a: Seq<char>, b: Seq<char>)
    ensures
        lex_le(a, b) || lex_le(b, a),
    decreases a.len(),
{
    if a.len() > 0 && b.len() > 0 && (a[0] as u32) == (b[0] as u32) {
        lemma_lex_total(a.drop_first(), b.drop_first());
    }
}

/// `lex_le` is transitive.
pub proof fn lemma_lex_trans(a: Seq<char>, b: Seq<char>, c: Seq<char>)
    requires
        lex_le(a, b),
        lex_le(b, c),
    ensures
        lex_le(a, c),
    decreases a.len(),
{
    if a.len() > 0 && b.len() > 0 && c.len() > 0 && (a[0] as u32) == (b[0] as u32) && (b[0] as u32) == (c[0] as u32) {
        lemma_lex_trans(a.drop_first(), b.drop_first(), c.drop_first());
    }
}

proof fn lemma_lex_skip(a: Seq<char>, b: Seq<char>, i: int)
    requires
        0 <= i <= a.len(),
        i <= b.len(),
        forall|j: int| 0 <= j < i ==> (a[j] as u32) == (b[j] as u32),
    ensures
        lex_le(a, b) == lex_le(a.skip(i), b.skip(i)),
    decreases i,
{
    if i > 0 {
        lemma_lex_skip(a.drop_first(), b.drop_first(), i - 1);
        assert(a.drop_first().skip(i - 1) =~= a.skip(i));
        assert(b.drop_first().skip(i - 1) =~= b.skip(i));
    } else {
        assert(a.skip(0) =~= a);
        assert(b.skip(0) =~= b);
    }
}

/// Compare two paths in lexicographic order.
pub fn path_le(a: &String, b: &String) -> (r: bool)
    ensures
        r == lex_le(a@, b@),
{
    let av = chars_of(a.as_str());
    let bv = chars_of(b.as_str());
    let alen = av.len();
    let blen = bv.len();
    let mut i: usize = 0;
    while i < alen && i < blen
        invariant
            av@ == a@,
            bv@ == b@,
            alen == a@.len(),
            blen == b@.len(),
            i <= alen,
            i <= blen,
            forall|j: int| 0 <= j < i ==> (a@[j] as u32) == (b@[j] as u32),
        decreases alen - i,
    {
        let ca = av[i] as u32;
        let cb = bv[i] as u32;
        proof {
            lemma_lex_skip(a@, b@, i as int);
            assert(a@.skip(i as int)[0] == a@[i as int]);
            assert(b@.skip(i as int)[0] == b@[i as int]);
        }
        if ca < cb {
            return true;
        }
        if ca > cb {
            return false;
        }
        i = i + 1;
    }
    proof {
        lemma_lex_skip(a@, b@, i as int);
    }
    if i >= alen {
        proof {
            assert(a@.skip(i as int).len() == 0);
        }
        true
    } else {
        proof {
            assert(b@.skip(i as int).len() == 0);
            assert(a@.skip(i as int).len() > 0);
        }
        false
    }
}

/// The character sequences of a vector of paths.
pub open spec fn path_views(paths: Seq<String>) -> Seq<Seq<char>> {
    paths.map_values(|p: String| p@)
}

/// The paths are in lexicographic order.
pub open spec fn sorted_paths(vs: Seq<Seq<char>>) -> bool {
    forall|i: int, j: int| 0 <= i < j < vs.len() ==> lex_le(vs[i], vs[j])
}

/// The subsequence of `.nr` paths, in their original order.
pub open spec fn nr_filter(vs: Seq<Seq<char>>) -> Seq<Seq<char>>
    decreases vs.len(),
{
    if vs.len() == 0 {
        Seq::empty()
    } else if spec_is_nr_file(vs.last()) {
        nr_filter(vs.drop_last()).push(vs.last())
    } else {
        nr_filter(vs.drop_last())
    }
}

fn filter_nr(paths: &Vec<String>) -> (r: Vec<String>)
    ensures
        path_views(r@) == nr_filter(path_views(paths@)),
{
    let mut r: Vec<String> = Vec::new();
    let n = paths.len();
    let mut i: usize = 0;
    while i < n
        invariant
            n == paths@.len(),
            i <= n,
            path_views(r@) == nr_filter(path_views(paths@).subrange(0, i as int)),
        decreases n - i,
    {
        let ghost prefix = path_views(paths@).subrange(0, i as int);
        let ghost prefix2 = path_views(paths@).subrange(0, i + 1 as int);
        proof {
            assert(prefix2.drop_last() =~= prefix);
            assert(prefix2.last() == paths@[i as int]@);
        }
        let ghost old_r = r@;
        let p = &paths[i];
        let keep = is_nr_file(p.as_str());
        if keep {
            let c = p.clone();
            r.push(c);
        }
        proof {
            let xv = paths@[i as int]@;
            assert(prefix2.len() > 0);
            if keep {
                assert(path_views(r@) =~= path_views(old_r).push(xv));
                assert(nr_filter(prefix2) == nr_filter(prefix).push(xv));
            } else {
                assert(nr_filter(prefix2) == nr_filter(prefix));
            }
        }
        i = i + 1;
    }
    proof {
        assert(path_views(paths@).subrange(0, n as int) =~= path_views(paths@));
    }
    r
}

fn insertion_point(r: &Vec<String>, x: &String) -> (pos: usize)
    ensures
        pos <= r@.len(),
        forall|k: int| 0 <= k < pos ==> lex_le(r@[k]@, x@),
        pos < r@.len() ==> !lex_le(r@[pos as int]@, x@),
{
    let n = r.len();
    let mut pos: usize = 0;
    while pos < n
        invariant
            n == r@.len(),
            pos <= n,
            forall|k: int| 0 <= k < pos ==> lex_le(r@[k]@, x@),
        decreases n - pos,
    {
        if !path_le(&r[pos], x) {
            return pos;
        }
        pos = pos + 1;
    }
    pos
}

proof fn lemma_insert_multiset(s: Seq<Seq<char>>, pos: int, x: Seq<char>)
    requires
        0 <= pos <= s.len(),
    ensures
        s.insert(pos, x).to_multiset() == s.to_multiset().insert(x),
{
    broadcast use vstd::seq_lib::group_to_multiset_ensures;
    broadcast use vstd::multiset::group_multiset_axioms;

    let a = s.subrange(0, pos);
    let b = s.subrange(pos, s.len() as int);
    assert(s =~= a + b);
    assert(s.insert(pos, x) == a.push(x) + b);
    vstd::seq_lib::lemma_multiset_commutative(a.push(x), b);
    vstd::seq_lib::lemma_multiset_commutative(a, b);
    assert(a.push(x).to_multiset() =~= a.to_multiset().insert(x));
    assert(a.to_multiset().insert(x).add(b.to_multiset()) =~= a.to_multiset().add(
        b.to_multiset(),
    ).insert(x));
}

proof fn lemma_sorted_insert(vs: Seq<Seq<char>>, pos: int, x: Seq<char>)
    requires
        sorted_paths(vs),
        0 <= pos <= vs.len(),
        forall|k: int| 0 <= k < pos ==> lex_le(vs[k], x),
        pos < vs.len() ==> !lex_le(vs[pos], x),
    ensures
        sorted_paths(vs.insert(pos, x)),
{
    let vs2 = vs.insert(pos, x);
    vs.insert_ensures(pos, x);
    if pos < vs.len() {
        lemma_lex_total(vs[pos], x);
    }
    assert forall|p: int, q: int| 0 <= p < q < vs2.len() implies lex_le(vs2[p], vs2[q]) by {
        if q > pos && pos < q - 1 {
            lemma_lex_trans(x, vs[pos], vs[q - 1]);
        }
        if p < pos && q > pos {
            lemma_lex_trans(vs[p], x, vs[q - 1]);
        }
    }
}

fn sort_paths(paths: Vec<String>) -> (r: Vec<String>)
    ensures
        sorted_paths(path_views(r@)),
        path_views(r@).to_multiset() == path_views(paths@).to_multiset(),
{
    let mut r: Vec<String> = Vec::new();
    let n = paths.len();
    proof {
        assert(paths@.subrange(0, 0) =~= Seq::<String>::empty());
        assert(path_views(r@) =~= path_views(paths@.subrange(0, 0)));
    }
    let mut i: usize = 0;
    while i < n
        invariant
            n == paths@.len(),
            i <= n,
            sorted_paths(path_views(r@)),
            path_views(r@).to_multiset() == path_views(paths@.subrange(0, i as int)).to_multiset(),
        decreases n - i,
    {
        let ghost old_r = r@;
        let x = paths[i].clone();
        let pos = insertion_point(&r, &x);
        r.insert(pos, x);
        proof {
            broadcast use vstd::seq_lib::group_to_multiset_ensures;

            let vs_old = path_views(old_r);
            let vs_new = path_views(r@);
            let xv = paths@[i as int]@;
            assert(vs_new =~= vs_old.insert(pos as int, xv)) by {
                vs_old.insert_ensures(pos as int, xv);
                old_r.insert_ensures(pos as int, paths@[i as int]);
            }
            lemma_sorted_insert(vs_old, pos as int, xv);
            lemma_insert_multiset(vs_old, pos as int, xv);
            assert(path_views(paths@.subrange(0, i + 1 as int)) =~= path_views(
                paths@.subrange(0, i as int),
            ).push(xv));
        }
        i = i + 1;
    }
    proof {
        assert(paths@.subrange(0, n as int) =~= paths@);
    }
    r
}

/// Select the `.nr` files among `paths` and return them in
/// lexicographic path order: the same paths that satisfy
/// [`spec_is_nr_file`], sorted for stable output.
pub fn nr_files_sorted(paths: &Vec<String>) -> (r: Vec<String>)
    ensures
        sorted_paths(path_views(r@)),
        path_views(r@).to_multiset() == nr_filter(path_views(paths@)).to_multiset(),
{
    let filtered = filter_nr(paths);
    sort_paths(filtered)
}

} // verus!
