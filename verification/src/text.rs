//! Character-level text helpers: trimming, prefix/substring tests,
//! case-insensitive marker search, and lexicographic comparison.
//!
//! All heuristics in this crate work on the character sequence of a
//! line or a path.  Executable code walks a `Vec<char>`; the contracts
//! speak of `Seq<char>`.

use vstd::prelude::*;

verus! {

/// ASCII whitespace, as used when trimming a line before classifying it.
pub open spec fn is_space(c: char) -> bool {
    c == ' ' || c == '\t' || c == '\r' || c == '\n' || c == '\x0b' || c == '\x0c'
}

/// `p` is a prefix of `s`.
pub open spec fn has_prefix(s: Seq<char>, p: Seq<char>) -> bool {
    p.len() <= s.len() && s.subrange(0, p.len() as int) == p
}

/// `p` is a suffix of `s`.
pub open spec fn has_suffix(s: Seq<char>, p: Seq<char>) -> bool {
    p.len() <= s.len() && s.subrange(s.len() - p.len(), s.len() as int) == p
}

/// `p` occurs in `s` starting at position `i`.
pub open spec fn matches_at(s: Seq<char>, p: Seq<char>, i: int) -> bool {
    0 <= i && i + p.len() <= s.len() && s.subrange(i, i + p.len()) == p
}

/// `p` occurs somewhere in `s`.
pub open spec fn has_substring(s: Seq<char>, p: Seq<char>) -> bool {
    exists|i: int| matches_at(s, p, i)
}

/// `a` equals the lower-case ASCII letter `b`, ignoring ASCII case.
pub open spec fn eq_ci(a: char, b: char) -> bool {
    a == b || (97 <= b as u32 <= 122 && a as u32 + 32 == b as u32)
}

/// `p` (lower-case ASCII) occurs in `s` at position `i`, ignoring ASCII case.
pub open spec fn matches_ci_at(s: Seq<char>, p: Seq<char>, i: int) -> bool {
    0 <= i && i + p.len() <= s.len() && forall|j: int|
        0 <= j < p.len() ==> eq_ci(s[i + j], p[j])
}

/// `p` (lower-case ASCII) occurs somewhere in `s`, ignoring ASCII case.
pub open spec fn has_ci_substring(s: Seq<char>, p: Seq<char>) -> bool {
    exists|i: int| matches_ci_at(s, p, i)
}

/// Drop leading whitespace.
pub open spec fn trim_start(s: Seq<char>) -> Seq<char>
    decreases s.len(),
{
    if s.len() > 0 && is_space(s[0]) {
        trim_start(s.drop_first())
    } else {
        s
    }
}

/// Drop trailing whitespace.
pub open spec fn trim_end(s: Seq<char>) -> Seq<char>
    decreases s.len(),
{
    if s.len() > 0 && is_space(s[s.len() - 1]) {
        trim_end(s.drop_last())
    } else {
        s
    }
}

/// Drop leading and trailing whitespace.
pub open spec fn trim(s: Seq<char>) -> Seq<char> {
    trim_end(trim_start(s))
}

/// The characters of `s`, as a vector.
pub fn chars_of(s: &str) -> (v: Vec<char>)
    ensures
        v@ == s@,
{
    let n = s.unicode_len();
    let mut v: Vec<char> = Vec::new();
    let mut i: usize = 0;
    while i < n
        invariant
            n == s@.len(),
            i <= n,
            v@ == s@.subrange(0, i as int),
        decreases n - i,
    {
        v.push(s.get_char(i));
        assert(v@ =~= s@.subrange(0, i + 1 as int));
        i = i + 1;
    }
    assert(v@ =~= s@);
    v
}

/// Is `c` ASCII whitespace?
pub fn is_space_char(c: char) -> (b: bool)
    ensures
        b == is_space(c),
{
    c == ' ' || c == '\t' || c == '\r' || c == '\n' || c == '\x0b' || c == '\x0c'
}

proof fn lemma_trim_start_at(s: Seq<char>, k: int)
    requires
        0 <= k <= s.len(),
        forall|j: int| 0 <= j < k ==> is_space(s[j]),
        k < s.len() ==> !is_space(s[k]),
    ensures
        trim_start(s) == s.subrange(k, s.len() as int),
    decreases k,
{
    if k == 0 {
        assert(s.subrange(0, s.len() as int) =~= s);
    } else {
        lemma_trim_start_at(s.drop_first(), k - 1);
        assert(s.drop_first().subrange(k - 1, s.drop_first().len() as int) =~= s.subrange(
            k,
            s.len() as int,
        ));
    }
}

proof fn lemma_trim_end_at(s: Seq<char>, k: int)
    requires
        0 <= k <= s.len(),
        forall|j: int| k <= j < s.len() ==> is_space(s[j]),
        k > 0 ==> !is_space(s[k - 1]),
    ensures
        trim_end(s) == s.subrange(0, k),
    decreases s.len() - k,
{
    if k == s.len() {
        assert(s.subrange(0, s.len() as int) =~= s);
    } else {
        lemma_trim_end_at(s.drop_last(), k);
        assert(s.drop_last().subrange(0, k) =~= s.subrange(0, k));
    }
}

/// Trim ASCII whitespace from both ends of `v`.
pub fn trim_chars(v: &Vec<char>) -> (t: Vec<char>)
    ensures
        t@ == trim(v@),
{
    let n = v.len();
    let mut a: usize = 0;
    while a < n && is_space_char(v[a])
        invariant
            n == v@.len(),
            a <= n,
            forall|j: int| 0 <= j < a ==> is_space(v@[j]),
        decreases n - a,
    {
        a = a + 1;
    }
    proof {
        lemma_trim_start_at(v@, a as int);
    }
    let ghost st = trim_start(v@);
    let mut b: usize = n;
    while b > a && is_space_char(v[b - 1])
        invariant
            n == v@.len(),
            a <= b <= n,
            forall|j: int| b <= j < n ==> is_space(v@[j]),
        decreases b,
    {
        b = b - 1;
    }
    proof {
        lemma_trim_end_at(st, b - a);
        assert(st.subrange(0, b - a) =~= v@.subrange(a as int, b as int));
    }
    let mut t: Vec<char> = Vec::new();
    let mut i: usize = a;
    while i < b
        invariant
            a <= i <= b <= n,
            n == v@.len(),
            t@ == v@.subrange(a as int, i as int),
        decreases b - i,
    {
        t.push(v[i]);
        assert(t@ =~= v@.subrange(a as int, i + 1 as int));
        i = i + 1;
    }
    t
}

/// Does `s` start with `p`?
pub fn starts_with_chars(s: &Vec<char>, p: &Vec<char>) -> (b: bool)
    ensures
        b == has_prefix(s@, p@),
{
    if p.len() > s.len() {
        return false;
    }
    let mut j: usize = 0;
    while j < p.len()
        invariant
            p@.len() <= s@.len(),
            j <= p@.len(),
            forall|k: int| 0 <= k < j ==> s@[k] == p@[k],
        decreases p@.len() - j,
    {
        if s[j] != p[j] {
            assert(s@.subrange(0, p@.len() as int)[j as int] != p@[j as int]);
            return false;
        }
        j = j + 1;
    }
    assert(s@.subrange(0, p@.len() as int) =~= p@);
    true
}

/// Does `s` end with `p`?
pub fn ends_with_chars(s: &Vec<char>, p: &Vec<char>) -> (b: bool)
    ensures
        b == has_suffix(s@, p@),
{
    if p.len() > s.len() {
        return false;
    }
    let n = s.len();
    let off: usize = n - p.len();
    let mut j: usize = 0;
    while j < p.len()
        invariant
            n == s@.len(),
            p@.len() <= s@.len(),
            off == s@.len() - p@.len(),
            j <= p@.len(),
            forall|k: int| 0 <= k < j ==> s@[off + k] == p@[k],
        decreases p@.len() - j,
    {
        if s[off + j] != p[j] {
            assert(s@.subrange(off as int, s@.len() as int)[j as int] != p@[j as int]);
            return false;
        }
        j = j + 1;
    }
    assert(s@.subrange(off as int, s@.len() as int) =~= p@);
    true
}

fn matches_at_exec(s: &Vec<char>, p: &Vec<char>, i: usize) -> (b: bool)
    requires
        i + p@.len() <= s@.len(),
    ensures
        b == matches_at(s@, p@, i as int),
{
    let n = s.len();
    let mut j: usize = 0;
    while j < p.len()
        invariant
            n == s@.len(),
            i + p@.len() <= s@.len(),
            j <= p@.len(),
            forall|k: int| 0 <= k < j ==> s@[i + k] == p@[k],
        decreases p@.len() - j,
    {
        if s[i + j] != p[j] {
            assert(s@.subrange(i as int, i + p@.len())[j as int] != p@[j as int]);
            return false;
        }
        j = j + 1;
    }
    assert(s@.subrange(i as int, i + p@.len()) =~= p@);
    true
}

/// Does `p` occur anywhere in `s`?
pub fn contains_chars(s: &Vec<char>, p: &Vec<char>) -> (b: bool)
    ensures
        b == has_substring(s@, p@),
{
    if p.len() > s.len() {
        assert(forall|i: int| !matches_at(s@, p@, i));
        return false;
    }
    if p.len() == 0 {
        assert(s@.subrange(0, 0) =~= p@);
        assert(matches_at(s@, p@, 0));
        return true;
    }
    let count: usize = s.len() - p.len() + 1;
    let mut i: usize = 0;
    while i < count
        invariant
            0 < p@.len() <= s@.len(),
            count == s@.len() - p@.len() + 1,
            i <= count,
            forall|k: int| 0 <= k < i ==> !matches_at(s@, p@, k),
        decreases count - i,
    {
        if matches_at_exec(s, p, i) {
            return true;
        }
        i = i + 1;
    }
    assert(forall|k: int| matches_at(s@, p@, k) ==> 0 <= k < count as int);
    false
}

fn eq_ci_char(a: char, b: char) -> (r: bool)
    ensures
        r == eq_ci(a, b),
{
    if a == b {
        return true;
    }
    let au = a as u32;
    let bu = b as u32;
    97 <= bu && bu <= 122 && au + 32 == bu
}

fn matches_ci_at_exec(s: &Vec<char>, p: &Vec<char>, i: usize) -> (b: bool)
    requires
        i + p@.len() <= s@.len(),
    ensures
        b == matches_ci_at(s@, p@, i as int),
{
    let n = s.len();
    let mut j: usize = 0;
    while j < p.len()
        invariant
            n == s@.len(),
            i + p@.len() <= s@.len(),
            j <= p@.len(),
            forall|k: int| 0 <= k < j ==> eq_ci(s@[i + k], p@[k]),
        decreases p@.len() - j,
    {
        if !eq_ci_char(s[i + j], p[j]) {
            return false;
        }
        j = j + 1;
    }
    true
}

/// Does `p` (lower-case ASCII) occur anywhere in `s`, ignoring ASCII case?
pub fn contains_ci_chars(s: &Vec<char>, p: &Vec<char>) -> (b: bool)
    ensures
        b == has_ci_substring(s@, p@),
{
    if p.len() > s.len() {
        assert(forall|i: int| !matches_ci_at(s@, p@, i));
        return false;
    }
    if p.len() == 0 {
        assert(matches_ci_at(s@, p@, 0));
        return true;
    }
    let count: usize = s.len() - p.len() + 1;
    let mut i: usize = 0;
    while i < count
        invariant
            0 < p@.len() <= s@.len(),
            count == s@.len() - p@.len() + 1,
            i <= count,
            forall|k: int| 0 <= k < i ==> !matches_ci_at(s@, p@, k),
        decreases count - i,
    {
        if matches_ci_at_exec(s, p, i) {
            return true;
        }
        i = i + 1;
    }
    assert(forall|k: int| matches_ci_at(s@, p@, k) ==> 0 <= k < count as int);
    false
}

/// `c` is a whole `/`-separated component of the path `p`, starting at `i`.
pub open spec fn component_at(p: Seq<char>, c: Seq<char>, i: int) -> bool {
    &&& matches_at(p, c, i)
    &&& (i == 0 || p[i - 1] == '/')
    &&& (i + c.len() == p.len() || p[i + c.len()] == '/')
}

/// Some `/`-separated component of the path `p` is exactly `c`.
pub open spec fn has_component(p: Seq<char>, c: Seq<char>) -> bool {
    exists|i: int| component_at(p, c, i)
}

/// Does the path `p` have `c` as a whole `/`-separated component?
pub fn contains_component(p: &Vec<char>, c: &Vec<char>) -> (b: bool)
    requires
        c@.len() > 0,
    ensures
        b == has_component(p@, c@),
{
    if c.len() > p.len() {
        assert(forall|i: int| !matches_at(p@, c@, i));
        return false;
    }
    let n = p.len();
    let count: usize = n - c.len() + 1;
    let mut i: usize = 0;
    while i < count
        invariant
            n == p@.len(),
            0 < c@.len() <= p@.len(),
            count == p@.len() - c@.len() + 1,
            i <= count,
            forall|k: int| 0 <= k < i ==> !component_at(p@, c@, k),
        decreases count - i,
    {
        let left_ok = i == 0 || p[i - 1] == '/';
        let right_ok = i + c.len() == n || p[i + c.len()] == '/';
        if left_ok && right_ok {
            if matches_at_exec(p, c, i) {
                assert(component_at(p@, c@, i as int));
                return true;
            }
        }
        assert(!component_at(p@, c@, i as int));
        i = i + 1;
    }
    assert(forall|k: int| component_at(p@, c@, k) ==> 0 <= k < count as int);
    false
}

/// The characters of the marker `todo`.
pub open spec fn todo_marker() -> Seq<char> {
    seq!['t', 'o', 'd', 'o']
}

/// The characters of the marker `fixme`.
pub open spec fn fixme_marker() -> Seq<char> {
    seq!['f', 'i', 'x', 'm', 'e']
}

/// A line holds a TODO/FIXME marker, in any ASCII case.
pub open spec fn spec_line_has_todo(s: Seq<char>) -> bool {
    has_ci_substring(s, todo_marker()) || has_ci_substring(s, fixme_marker())
}

fn todo_marker_chars() -> (v: Vec<char>)
    ensures
        v@ == todo_marker(),
{
    let mut v: Vec<char> = Vec::new();
    v.push('t');
    v.push('o');
    v.push('d');
    v.push('o');
    assert(v@ =~= todo_marker());
    v
}

fn fixme_marker_chars() -> (v: Vec<char>)
    ensures
        v@ == fixme_marker(),
{
    let mut v: Vec<char> = Vec::new();
    v.push('f');
    v.push('i');
    v.push('x');
    v.push('m');
    v.push('e');
    assert(v@ =~= fixme_marker());
    v
}

/// Does the line contain `TODO` or `FIXME` in any ASCII case?
pub fn line_has_todo(s: &str) -> (b: bool)
    ensures
        b == spec_line_has_todo(s@),
{
    let v = chars_of(s);
    line_has_todo_chars(&v)
}

/// `line_has_todo` on an already-decoded line.
pub fn line_has_todo_chars(v: &Vec<char>) -> (b: bool)
    ensures
        b == spec_line_has_todo(v@),
{
    let todo = todo_marker_chars();
    let fixme = fixme_marker_chars();
    contains_ci_chars(v, &todo) || contains_ci_chars(v, &fixme)
}

} // verus!
