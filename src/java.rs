use vstd::prelude::*;
use crate::text::{chars_of, push_str, string_of};
use crate::java_version::format_version;
use crate::java_version::{parse_version_text, version_lt, InvalidVersion, ParsedJavaVersion, VersionModel};

verus! {

broadcast use vstd::seq_lib::group_to_multiset_ensures;

/// A Java executable found on this machine, with its version.
#[derive(Debug, Clone)]
pub struct JavaCandidate {
    pub path: String,
    pub version: ParsedJavaVersion,
}

/// Whether `a` goes strictly before `b` when choosing a Java for a game that
/// needs major version `required`: compatible ones first, then by major
/// version ascending, then by full version descending.
pub open spec fn sorts_before(a: VersionModel, b: VersionModel, required: u32) -> bool {
    let a_old = a.major < required;
    let b_old = b.major < required;
    if a_old != b_old {
        !a_old
    } else if a.major != b.major {
        a.major < b.major
    } else {
        version_lt(b, a)
    }
}

pub open spec fn candidates_sorted(s: Seq<JavaCandidate>, required: u32) -> bool {
    forall|i: int, j: int|
        0 <= i < j < s.len() ==> !sorts_before(
            #[trigger] s[j].version.model(),
            #[trigger] s[i].version.model(),
            required,
        )
}

/// The candidates that are kept: all of them when the check is skipped, else
/// those whose major version reaches `required`, in their order.
pub open spec fn kept_candidates(s: Seq<JavaCandidate>, required: u32, skip_check: bool) -> Seq<
    JavaCandidate,
>
    decreases s.len(),
{
    if s.len() == 0 {
        s
    } else {
        let rest = kept_candidates(s.drop_last(), required, skip_check);
        if skip_check || s.last().version.major >= required {
            rest.push(s.last())
        } else {
            rest
        }
    }
}

/// Neither of the two goes before the other.
pub open spec fn same_rank(a: VersionModel, b: VersionModel, required: u32) -> bool {
    !sorts_before(a, b, required) && !sorts_before(b, a, required)
}

/// The candidates that rank like `c`, in their order in `s`.
pub open spec fn rank_class(s: Seq<JavaCandidate>, c: VersionModel, required: u32) -> Seq<JavaCandidate>
    decreases s.len(),
{
    if s.len() == 0 {
        s
    } else {
        let r = rank_class(s.drop_last(), c, required);
        if same_rank(s.last().version.model(), c, required) {
            r.push(s.last())
        } else {
            r
        }
    }
}

proof fn lemma_rank_class_concat(a: Seq<JavaCandidate>, b: Seq<JavaCandidate>, c: VersionModel, required: u32)
    ensures
        rank_class(a + b, c, required) == rank_class(a, c, required) + rank_class(b, c, required),
    decreases b.len(),
{
    if b.len() == 0 {
        assert(a + b =~= a);
        assert(rank_class(a, c, required) + rank_class(b, c, required) =~= rank_class(a, c, required));
    } else {
        lemma_rank_class_concat(a, b.drop_last(), c, required);
        assert((a + b).drop_last() =~= a + b.drop_last());
        assert((a + b).last() == b.last());
        assert(rank_class(a, c, required) + rank_class(b.drop_last(), c, required).push(b.last()) =~= (
        rank_class(a, c, required) + rank_class(b.drop_last(), c, required)).push(b.last()));
    }
}

proof fn lemma_rank_class_none(b: Seq<JavaCandidate>, c: VersionModel, required: u32)
    requires
        forall|j: int| 0 <= j < b.len() ==> !same_rank(#[trigger] b[j].version.model(), c, required),
    ensures
        rank_class(b, c, required) == Seq::<JavaCandidate>::empty(),
    decreases b.len(),
{
    if b.len() > 0 {
        assert forall|j: int| 0 <= j < b.drop_last().len() implies !same_rank(#[trigger] b.drop_last()[j].version.model(), c, required) by {
            assert(b.drop_last()[j] == b[j]);
        }
        lemma_rank_class_none(b.drop_last(), c, required);
        assert(!same_rank(b[b.len() - 1].version.model(), c, required));
    }
}

/// Inserting `x` after every candidate that ranks like it keeps each rank
/// class in order, with `x` last in its own.
proof fn lemma_rank_class_insert(out: Seq<JavaCandidate>, k: int, x: JavaCandidate, c: VersionModel, required: u32)
    requires
        0 <= k <= out.len(),
        forall|j: int| k <= j < out.len() ==> !same_rank(#[trigger] out[j].version.model(), x.version.model(), required),
    ensures
        rank_class(out.insert(k, x), c, required) == if same_rank(x.version.model(), c, required) {
            rank_class(out, c, required).push(x)
        } else {
            rank_class(out, c, required)
        },
{
    let pre = out.subrange(0, k);
    let suf = out.subrange(k, out.len() as int);
    assert(out =~= pre + suf);
    assert(out.insert(k, x) =~= pre + seq![x] + suf);
    lemma_rank_class_concat(pre, suf, c, required);
    lemma_rank_class_concat(pre + seq![x], suf, c, required);
    lemma_rank_class_concat(pre, seq![x], c, required);
    assert(seq![x].drop_last() =~= Seq::<JavaCandidate>::empty());
    assert(seq![x].last() == x);
    assert(rank_class(Seq::<JavaCandidate>::empty(), c, required) == Seq::<JavaCandidate>::empty());
    assert(rank_class(seq![x], c, required) == rank_class(Seq::<JavaCandidate>::empty(), c, required) + if same_rank(x.version.model(), c, required) {
        seq![x]
    } else {
        Seq::<JavaCandidate>::empty()
    });
    if same_rank(x.version.model(), c, required) {
        assert forall|j: int| 0 <= j < suf.len() implies !same_rank(#[trigger] suf[j].version.model(), c, required) by {
            assert(suf[j] == out[k + j]);
            assert(!same_rank(out[k + j].version.model(), x.version.model(), required));
        }
        lemma_rank_class_none(suf, c, required);
        assert(rank_class(seq![x], c, required) =~= seq![x]);
        assert(rank_class(pre + seq![x], c, required) =~= rank_class(pre, c, required).push(x));
        assert(rank_class(pre, c, required) + rank_class(suf, c, required) =~= rank_class(pre, c, required));
        assert(rank_class(pre + seq![x], c, required) + rank_class(suf, c, required) =~= rank_class(pre, c, required).push(x));
    } else {
        assert(rank_class(seq![x], c, required) =~= Seq::<JavaCandidate>::empty());
        assert(rank_class(pre, c, required) + Seq::<JavaCandidate>::empty() =~= rank_class(pre, c, required));
    }
}

fn sorts_before_exec(a: &ParsedJavaVersion, b: &ParsedJavaVersion, required: u32) -> (r: bool)
    ensures
        r == sorts_before(a.model(), b.model(), required),
{
    let a_old = a.major < required;
    let b_old = b.major < required;
    if a_old != b_old {
        !a_old
    } else if a.major != b.major {
        a.major < b.major
    } else {
        b.major < a.major || (b.major == a.major && (b.minor < a.minor || (b.minor == a.minor
            && b.security < a.security)))
    }
}

/// Orders the candidates for choosing: drops those below `required` unless
/// the check is skipped, then puts compatible ones first, each group by major
/// version ascending and, within a major version, newest first.
pub fn sort_java_candidates(candidates: Vec<JavaCandidate>, required: u32, skip_check: bool) -> (r:
    Vec<JavaCandidate>)
    ensures
        r@.to_multiset() == kept_candidates(candidates@, required, skip_check).to_multiset(),
        candidates_sorted(r@, required),
        forall|c: VersionModel| #[trigger] rank_class(r@, c, required) == rank_class(
            kept_candidates(candidates@, required, skip_check),
            c,
            required,
        ),
{
    let mut rest = candidates;
    let ghost all = rest@;
    let n = rest.len();
    let mut out: Vec<JavaCandidate> = Vec::new();
    let mut i: usize = 0;
    while rest.len() > 0
        invariant
            n == all.len(),
            i <= all.len(),
            rest@ == all.subrange(i as int, all.len() as int),
            out@.to_multiset() == kept_candidates(all.subrange(0, i as int), required, skip_check).to_multiset(),
            candidates_sorted(out@, required),
            forall|c: VersionModel| #[trigger] rank_class(out@, c, required) == rank_class(
                kept_candidates(all.subrange(0, i as int), required, skip_check),
                c,
                required,
            ),
        decreases rest@.len(),
    {
        assert(i < all.len());
        let x = rest.remove(0);
        proof {
            assert(rest@ =~= all.subrange(i + 1, all.len() as int));
            assert(all.subrange(0, i + 1).drop_last() =~= all.subrange(0, i as int));
            assert(all.subrange(0, i + 1).last() == x);
        }
        i = i + 1;
        if skip_check || x.version.major >= required {
            let mut k: usize = 0;
            while k < out.len() && !sorts_before_exec(&x.version, &out[k].version, required)
                invariant
                    k <= out@.len(),
                    forall|j: int| 0 <= j < k ==> !sorts_before(x.version.model(), #[trigger] out@[j].version.model(), required),
                decreases out@.len() - k,
            {
                k = k + 1;
            }
            let ghost old_out = out@;
            out.insert(k, x);
            proof {
                assert forall|a: int, b: int| 0 <= a < b < out@.len() implies !sorts_before(
                    #[trigger] out@[b].version.model(),
                    #[trigger] out@[a].version.model(),
                    required,
                ) by {
                    if b < k {
                        assert(out@[a] == old_out[a] && out@[b] == old_out[b]);
                    } else if b == k {
                        assert(out@[a] == old_out[a]);
                    } else if a == k {
                        assert(out@[b] == old_out[b - 1]);
                        assert(sorts_before(x.version.model(), old_out[k as int].version.model(), required));
                        if b - 1 > k {
                            assert(!sorts_before(old_out[b - 1].version.model(), old_out[k as int].version.model(), required));
                        }
                    } else if a < k {
                        assert(out@[a] == old_out[a] && out@[b] == old_out[b - 1]);
                    } else {
                        assert(out@[a] == old_out[a - 1] && out@[b] == old_out[b - 1]);
                    }
                }
                vstd::seq_lib::to_multiset_insert(old_out, k as int, x);
                assert forall|j: int| k <= j < old_out.len() implies !same_rank(#[trigger] old_out[j].version.model(), x.version.model(), required) by {
                    if j > k {
                        assert(!sorts_before(old_out[j].version.model(), old_out[k as int].version.model(), required));
                    }
                }
                let ghost prev = kept_candidates(all.subrange(0, i - 1), required, skip_check);
                assert(all.subrange(0, i as int).drop_last() =~= all.subrange(0, i - 1));
                assert(kept_candidates(all.subrange(0, i as int), required, skip_check) == prev.push(x));
                assert(prev.push(x).drop_last() =~= prev);
                assert forall|c: VersionModel| #[trigger] rank_class(out@, c, required) == rank_class(
                    kept_candidates(all.subrange(0, i as int), required, skip_check),
                    c,
                    required,
                ) by {
                    lemma_rank_class_insert(old_out, k as int, x, c, required);
                    assert(rank_class(old_out, c, required) == rank_class(prev, c, required));
                    assert(prev.push(x).last() == x);
                }
            }
        }
    }
    proof {
        assert(all.subrange(0, all.len() as int) =~= all);
    }
    out
}


pub open spec fn path_views(s: Seq<String>) -> Seq<Seq<char>> {
    s.map_values(|p: String| p@)
}

/// The paths in order of first appearance, each once.
pub open spec fn dedup_seq(s: Seq<Seq<char>>) -> Seq<Seq<char>>
    decreases s.len(),
{
    if s.len() == 0 {
        s
    } else {
        let d = dedup_seq(s.drop_last());
        if d.contains(s.last()) {
            d
        } else {
            d.push(s.last())
        }
    }
}

fn contains_string(v: &Vec<String>, x: &String) -> (r: bool)
    ensures
        r == path_views(v@).contains(x@),
{
    let mut i: usize = 0;
    while i < v.len()
        invariant
            i <= v@.len(),
            forall|j: int| 0 <= j < i ==> v@[j]@ != x@,
        decreases v@.len() - i,
    {
        if v[i] == *x {
            assert(path_views(v@)[i as int] == x@);
            return true;
        }
        i = i + 1;
    }
    proof {
        if path_views(v@).contains(x@) {
            let j = choose|j: int| 0 <= j < path_views(v@).len() && path_views(v@)[j] == x@;
            assert(v@[j]@ == x@);
        }
    }
    false
}

/// Drops repeated paths, keeping the first of each.
pub fn dedup_paths(paths: Vec<String>) -> (r: Vec<String>)
    ensures
        path_views(r@) == dedup_seq(path_views(paths@)),
{
    let mut out: Vec<String> = Vec::new();
    let mut i: usize = 0;
    while i < paths.len()
        invariant
            i <= paths@.len(),
            path_views(out@) == dedup_seq(path_views(paths@.subrange(0, i as int))),
        decreases paths@.len() - i,
    {
        let p = paths[i].clone();
        proof {
            let s = path_views(paths@.subrange(0, i + 1));
            assert(s.drop_last() =~= path_views(paths@.subrange(0, i as int)));
            assert(s.last() == p@);
        }
        if !contains_string(&out, &p) {
            let ghost before = out@;
            out.push(p);
            assert(path_views(out@) =~= path_views(before).push(p@));
        }
        i = i + 1;
    }
    assert(paths@.subrange(0, paths@.len() as int) =~= paths@);
    out
}

/// What became of one candidate path when it was made canonical.
#[derive(Debug, Clone)]
pub enum PathProbe {
    /// The canonical path.
    Found(String),
    /// The path does not exist.
    Missing,
    /// Another failure, described.
    Failed(String),
}

/// The description of the first failed probe, if any.
pub open spec fn first_failure(s: Seq<PathProbe>) -> Option<Seq<char>>
    decreases s.len(),
{
    if s.len() == 0 {
        None
    } else {
        match s[0] {
            PathProbe::Failed(m) => Some(m@),
            _ => first_failure(s.drop_first()),
        }
    }
}

/// The canonical paths that were found, in order.
pub open spec fn found_paths(s: Seq<PathProbe>) -> Seq<Seq<char>>
    decreases s.len(),
{
    if s.len() == 0 {
        Seq::empty()
    } else {
        let rest = found_paths(s.drop_last());
        match s.last() {
            PathProbe::Found(p) => rest.push(p@),
            _ => rest,
        }
    }
}

proof fn lemma_first_failure_push(s: Seq<PathProbe>, x: PathProbe)
    requires
        first_failure(s) is None,
    ensures
        first_failure(s.push(x)) == (match x {
            PathProbe::Failed(m) => Some(m@),
            _ => None,
        }),
    decreases s.len(),
{
    if s.len() == 0 {
        assert(s.push(x)[0] == x);
        assert(s.push(x).drop_first() =~= Seq::<PathProbe>::empty());
    } else {
        assert(s.push(x)[0] == s[0]);
        assert(s.push(x).drop_first() =~= s.drop_first().push(x));
        lemma_first_failure_push(s.drop_first(), x);
    }
}

proof fn lemma_first_failure_prefix(s: Seq<PathProbe>, i: int)
    requires
        0 <= i <= s.len(),
        first_failure(s.subrange(0, i)) is Some,
    ensures
        first_failure(s) == first_failure(s.subrange(0, i)),
    decreases i,
{
    let t = s.subrange(0, i);
    match s[0] {
        PathProbe::Failed(m) => {
            assert(t[0] == s[0]);
        },
        _ => {
            assert(t[0] == s[0]);
            assert(t.drop_first() =~= s.drop_first().subrange(0, i - 1));
            lemma_first_failure_prefix(s.drop_first(), i - 1);
        },
    }
}

/// The candidate paths that exist, made canonical and each listed once in
/// order of first appearance; or the first failure other than a missing path.
pub fn select_java_paths(probes: Vec<PathProbe>) -> (r: Result<Vec<String>, String>)
    ensures
        match first_failure(probes@) {
            Some(m) => r matches Err(e) && e@ == m,
            None => r matches Ok(v) && path_views(v@) == dedup_seq(found_paths(probes@)),
        },
{
    let mut found: Vec<String> = Vec::new();
    let mut i: usize = 0;
    while i < probes.len()
        invariant
            i <= probes@.len(),
            first_failure(probes@.subrange(0, i as int)) is None,
            path_views(found@) == found_paths(probes@.subrange(0, i as int)),
        decreases probes@.len() - i,
    {
        let ghost pre = probes@.subrange(0, i as int);
        proof {
            assert(probes@.subrange(0, i + 1) =~= pre.push(probes@[i as int]));
            assert(probes@.subrange(0, i + 1).drop_last() =~= pre);
            lemma_first_failure_push(pre, probes@[i as int]);
        }
        match &probes[i] {
            PathProbe::Found(p) => {
                let ghost before = found@;
                found.push(p.clone());
                assert(path_views(found@) =~= path_views(before).push(p@));
            },
            PathProbe::Missing => {},
            PathProbe::Failed(m) => {
                proof {
                    lemma_first_failure_prefix(probes@, i + 1);
                }
                return Err(m.clone());
            },
        }
        i = i + 1;
    }
    assert(probes@.subrange(0, probes@.len() as int) =~= probes@);
    Ok(dedup_paths(found))
}

/// A Java executable whose version text was read.
pub open spec fn parsed_candidates(s: Seq<(String, String)>) -> Seq<(Seq<char>, VersionModel)>
    decreases s.len(),
{
    if s.len() == 0 {
        Seq::empty()
    } else {
        let rest = parsed_candidates(s.drop_last());
        match parse_version_text(s.last().1@) {
            Some(v) => rest.push((s.last().0@, v)),
            None => rest,
        }
    }
}

pub open spec fn candidate_views(s: Seq<JavaCandidate>) -> Seq<(Seq<char>, VersionModel)> {
    s.map_values(|c: JavaCandidate| (c.path@, c.version.model()))
}

/// A candidate for `path` whose version text is `version`.
pub fn create_java_candidate_for_path(path: String, version: &str) -> (r: Result<
    JavaCandidate,
    InvalidVersion,
>)
    ensures
        match parse_version_text(version@) {
            Some(v) => r matches Ok(c) && c.path@ == path@ && c.version.model() == v,
            None => r matches Err(e) && e.text@ == version@,
        },
{
    match ParsedJavaVersion::parse(version) {
        Ok(v) => Ok(JavaCandidate { path, version: v }),
        Err(e) => Err(e),
    }
}

/// The candidates among `(path, version text)` pairs whose version text
/// reads; a path whose version cannot be read is left out and does not stop
/// the others.
pub fn find_java_candidates(found: Vec<(String, String)>) -> (r: Vec<JavaCandidate>)
    ensures
        candidate_views(r@) == parsed_candidates(found@),
{
    let mut out: Vec<JavaCandidate> = Vec::new();
    let mut i: usize = 0;
    while i < found.len()
        invariant
            i <= found@.len(),
            candidate_views(out@) == parsed_candidates(found@.subrange(0, i as int)),
        decreases found@.len() - i,
    {
        proof {
            assert(found@.subrange(0, i + 1).drop_last() =~= found@.subrange(0, i as int));
        }
        let (path, text) = &found[i];
        match create_java_candidate_for_path(path.clone(), text.as_str()) {
            Ok(c) => {
                let ghost before = out@;
                out.push(c);
                assert(candidate_views(out@) =~= candidate_views(before).push((path@, c.version.model())));
            },
            Err(_) => {},
        }
        i = i + 1;
    }
    assert(found@.subrange(0, found@.len() as int) =~= found@);
    out
}


/// The end of the line that starts at `i`: the next newline, or the end.
pub open spec fn line_end(s: Seq<char>, i: int) -> int
    decreases s.len() - i,
{
    if 0 <= i < s.len() && s[i] != '\n' {
        line_end(s, i + 1)
    } else {
        i
    }
}

pub open spec fn release_key() -> Seq<char> {
    "JAVA_VERSION=\""@
}

/// The version that one line of a runtime's `release` file names:
/// `JAVA_VERSION="<version>"`.
pub open spec fn release_line_version(l: Seq<char>) -> Option<Seq<char>> {
    let k = release_key();
    if l.len() >= k.len() + 1 && l.subrange(0, k.len() as int) == k && l.last() == '"' {
        Some(l.subrange(k.len() as int, l.len() - 1))
    } else {
        None
    }
}

/// The line from `i` to `e`, without the carriage return of a CRLF ending.
pub open spec fn line_text(s: Seq<char>, i: int, e: int) -> Seq<char> {
    if e < s.len() && e > i && s[e - 1] == '\r' {
        s.subrange(i, e - 1)
    } else {
        s.subrange(i, e)
    }
}

/// The version named by the first line from `i` on that names one.
pub open spec fn release_version_from(s: Seq<char>, i: int) -> Option<Seq<char>>
    decreases s.len() - i,
{
    if i < 0 || i >= s.len() {
        None
    } else {
        let e = line_end(s, i);
        match release_line_version(line_text(s, i, e)) {
            Some(v) => Some(v),
            None => if i <= e < s.len() {
                release_version_from(s, e + 1)
            } else {
                None
            },
        }
    }
}

proof fn lemma_line_end_bounds(s: Seq<char>, i: int)
    requires
        0 <= i <= s.len(),
    ensures
        i <= line_end(s, i) <= s.len(),
        line_end(s, i) < s.len() ==> s[line_end(s, i)] == '\n',
    decreases s.len() - i,
{
    if i < s.len() && s[i] != '\n' {
        lemma_line_end_bounds(s, i + 1);
    }
}

fn scan_line(v: &Vec<char>, start: usize) -> (e: usize)
    requires
        start <= v@.len(),
    ensures
        e == line_end(v@, start as int),
{
    let mut i = start;
    while i < v.len() && v[i] != '\n'
        invariant
            start <= i <= v@.len(),
            line_end(v@, start as int) == line_end(v@, i as int),
        decreases v@.len() - i,
    {
        i = i + 1;
    }
    i
}

fn line_version(v: &Vec<char>, from: usize, to: usize) -> (r: Option<String>)
    requires
        from <= to <= v@.len(),
    ensures
        match release_line_version(v@.subrange(from as int, to as int)) {
            Some(x) => r matches Some(s) && s@ == x,
            None => r is None,
        },
{
    let key = "JAVA_VERSION=\"";
    proof {
        reveal_strlit("JAVA_VERSION=\"");
    }
    let k: usize = 14;
    let ghost l = v@.subrange(from as int, to as int);
    if to - from < k + 1 || v[to - 1] != '"' {
        return None;
    }
    let mut j: usize = 0;
    while j < k
        invariant
            from + k < to <= v@.len(),
            l == v@.subrange(from as int, to as int),
            key@ == release_key(),
            release_key().len() == k,
            j <= k,
            forall|m: int| 0 <= m < j ==> l[m] == key@[m],
        decreases k - j,
    {
        if v[from + j] != key.get_char(j) {
            assert(l.subrange(0, k as int)[j as int] != release_key()[j as int]);
            return None;
        }
        j = j + 1;
    }
    assert(l.subrange(0, k as int) =~= release_key());
    let r = string_of(v, from + k, to - 1);
    assert(r@ =~= l.subrange(k as int, l.len() - 1));
    Some(r)
}

/// The Java version that the text of a runtime's `release` file names.
pub fn java_version_from_release_file(contents: &str) -> (r: Option<String>)
    ensures
        match release_version_from(contents@, 0) {
            Some(x) => r matches Some(s) && s@ == x,
            None => r is None,
        },
{
    let v = chars_of(contents);
    let n = v.len();
    let mut i: usize = 0;
    while i < n
        invariant
            n == v@.len(),
            v@ == contents@,
            i <= n,
            release_version_from(contents@, 0) == release_version_from(contents@, i as int),
        decreases n - i,
    {
        let e = scan_line(&v, i);
        proof {
            lemma_line_end_bounds(v@, i as int);
        }
        let end = if e < n && e > i && v[e - 1] == '\r' { e - 1 } else { e };
        assert(line_text(v@, i as int, e as int) =~= v@.subrange(i as int, end as int));
        match line_version(&v, i, end) {
            Some(x) => {
                return Some(x);
            },
            None => {},
        }
        if e >= n {
            assert(release_version_from(contents@, e + 1) is None);
            return None;
        }
        i = e + 1;
    }
    None
}


impl JavaCandidate {
    /// The path and the version, as shown when choosing: `<path> (<version>)`.
    pub fn describe(&self) -> (r: String)
        ensures
            r@ == self.path@ + " ("@ + format_version(self.version.model()) + ")"@,
    {
        let mut r = self.path.clone();
        push_str(&mut r, " (");
        let v = self.version.to_string();
        push_str(&mut r, v.as_str());
        push_str(&mut r, ")");
        r
    }
}

} // verus!
