use std::path::Path;
use vstd::prelude::*;

verus! {

/// Whether `std::path::Path::starts_with` holds of the paths with these
/// texts: `base` is a prefix of `p` in whole components.
pub uninterp spec fn spec_starts_with(p: Seq<char>, base: Seq<char>) -> bool;

/// Whether the paths with these texts are equal as `std::path::Path`s
/// (component by component).
pub uninterp spec fn spec_same_path(a: Seq<char>, b: Seq<char>) -> bool;

/// Asks `std::path::Path::starts_with`: whether `base` is a prefix of `p`
/// in whole components. A path starts with itself, and with any non-empty
/// path that does not end in `/` and is followed in it by `/`.
#[verifier::external_body]
pub fn starts_with(p: &str, base: &str) -> (b: bool)
    ensures
        b == spec_starts_with(p@, base@),
        p@ == base@ ==> b,
        base@.len() > 0 && base@.last() != '/' && p@.len() > base@.len() && p@.subrange(
            0,
            base@.len() as int,
        ) == base@ && p@[base@.len() as int] == '/' ==> b,
{
    Path::new(p).starts_with(Path::new(base))
}

/// Compares two paths with `std::path::Path`'s `==`, which compares them
/// component by component; as `Path` is `Eq`, a path equals itself.
#[verifier::external_body]
pub fn same_path(a: &str, b: &str) -> (r: bool)
    ensures
        r == spec_same_path(a@, b@),
        a@ == b@ ==> r,
{
    Path::new(a) == Path::new(b)
}

/// Whether the path text `p` is absolute: it starts at the root, `/`
pub open spec fn spec_is_absolute(p: Seq<char>) -> bool {
    p.len() > 0 && p[0] == '/'
}

/// Whether the path text `p` is absolute
pub fn is_absolute(p: &str) -> (b: bool)
    ensures
        b == spec_is_absolute(p@),
{
    let n = p.unicode_len();
    n > 0 && p.get_char(0) == '/'
}

/// `p` joined onto `base`, as `std::path::Path::join` does where paths are
/// separated by `/`: an absolute `p` replaces `base`; a relative one is
/// added after a `/` (none is added after an empty base or one that ends
/// with `/`)
pub open spec fn spec_join(base: Seq<char>, p: Seq<char>) -> Seq<char> {
    if spec_is_absolute(p) {
        p
    } else if base.len() == 0 || base.last() == '/' {
        base + p
    } else {
        base + seq!['/'] + p
    }
}

/// Joins `p` onto `base` (see `spec_join`)
pub fn join(base: &str, p: &str) -> (r: String)
    ensures
        r@ == spec_join(base@, p@),
{
    if is_absolute(p) {
        return p.to_owned();
    }
    let n = base.unicode_len();
    if n == 0 || base.get_char(n - 1) == '/' {
        base.to_owned().concat(p)
    } else {
        proof {
            reveal_strlit("/");
        }
        base.to_owned().concat("/").concat(p)
    }
}

/// The text of `s` from `r.0` up to `r.1`
pub open spec fn spec_segment(s: Seq<char>, r: (int, int)) -> Seq<char> {
    s.subrange(r.0, r.1)
}

/// The segments of a path met so far, resolved, after meeting the segment
/// `r` of `s`: an empty segment or `.` changes nothing; `..` takes back the
/// last segment, stays at the root of an absolute path, and is kept at the
/// start of a relative one; any other segment is added
pub open spec fn spec_push_segment(
    s: Seq<char>,
    abs: bool,
    st: Seq<(int, int)>,
    r: (int, int),
) -> Seq<(int, int)> {
    let t = spec_segment(s, r);
    if t.len() == 0 || t == seq!['.'] {
        st
    } else if t == seq!['.', '.'] {
        if st.len() > 0 && spec_segment(s, st.last()) != seq!['.', '.'] {
            st.drop_last()
        } else if abs {
            st
        } else {
            st.push(r)
        }
    } else {
        st.push(r)
    }
}

/// The resolved segments and the start of the current segment after the
/// first `n` characters of `s`
pub open spec fn spec_scan(s: Seq<char>, n: nat) -> (Seq<(int, int)>, int)
    decreases n,
{
    if n == 0 {
        (Seq::empty(), 0)
    } else {
        let prev = spec_scan(s, (n - 1) as nat);
        if s[n - 1] == '/' {
            (spec_push_segment(s, spec_is_absolute(s), prev.0, (prev.1, n - 1)), n as int)
        } else {
            prev
        }
    }
}

/// The segments of `s` that remain once `.` and `..` are resolved
pub open spec fn spec_normal_segments(s: Seq<char>) -> Seq<(int, int)> {
    let last = spec_scan(s, s.len());
    spec_push_segment(s, spec_is_absolute(s), last.0, (last.1, s.len() as int))
}

/// The segments `st` of `s`, separated by `/`
pub open spec fn spec_segments_text(s: Seq<char>, st: Seq<(int, int)>) -> Seq<char>
    decreases st.len(),
{
    if st.len() == 0 {
        Seq::empty()
    } else if st.len() == 1 {
        spec_segment(s, st[0])
    } else {
        spec_segments_text(s, st.drop_last()) + seq!['/'] + spec_segment(s, st.last())
    }
}

/// The path text `s` with `.` and `..` resolved by its text alone: what it
/// names, short of following links
pub open spec fn spec_normalize(s: Seq<char>) -> Seq<char> {
    let t = spec_segments_text(s, spec_normal_segments(s));
    if spec_is_absolute(s) {
        seq!['/'] + t
    } else {
        t
    }
}

/// Whether the path text `s` begins with a `..` segment
pub open spec fn spec_leading_parent(s: Seq<char>) -> bool {
    s.len() >= 2 && s[0] == '.' && s[1] == '.' && (s.len() == 2 || s[2] == '/')
}

/// Resolving changes only segments whose text is empty or exactly `.` or
/// `..`: any other segment, one that merely begins with a dot (such as
/// `.gitignore`) among them, is kept
pub proof fn lemma_ordinary_segment_is_kept(
    s: Seq<char>,
    abs: bool,
    st: Seq<(int, int)>,
    r: (int, int),
)
    requires
        spec_segment(s, r).len() > 0,
        spec_segment(s, r) != seq!['.'],
        spec_segment(s, r) != seq!['.', '.'],
    ensures
        spec_push_segment(s, abs, st, r) == st.push(r),
{
}

/// Whether a segment of `t` (read from `b` on) starts at `k`: at `b`, or
/// just after a `/`
pub open spec fn spec_segment_starts(t: Seq<char>, b: int, k: int) -> bool {
    k == b || (k > b && t[k - 1] == '/')
}

/// Whether the segment of `t` that starts at `k` is an ordinary name: not
/// empty, not `.` and not `..` (a name that begins with a dot is ordinary)
pub open spec fn spec_name_at(t: Seq<char>, k: int) -> bool {
    &&& 0 <= k < t.len()
    &&& t[k] != '/'
    &&& !(t[k] == '.' && (k + 1 == t.len() || t[k + 1] == '/'))
    &&& !(t[k] == '.' && k + 1 < t.len() && t[k + 1] == '.' && (k + 2 == t.len() || t[k + 2]
        == '/'))
}

/// Whether `t`, from `b` on, is ordinary names separated by single `/`s
pub open spec fn spec_names_from(t: Seq<char>, b: int) -> bool {
    &&& 0 <= b < t.len()
    &&& t.last() != '/'
    &&& forall|k: int| b <= k < t.len() && #[trigger] spec_segment_starts(t, b, k) ==> spec_name_at(t, k)
}

/// Whether the path text `t` is made only of ordinary names, such as
/// `a/.b/c` or `/srv/root`: no empty segment, no `.` and no `..`
pub open spec fn spec_plain_path(t: Seq<char>) -> bool {
    if spec_is_absolute(t) {
        spec_names_from(t, 1)
    } else {
        spec_names_from(t, 0)
    }
}

/// A segment of a plain path ends before the next `/`, and meeting it keeps it
proof fn lemma_plain_segment_kept(t: Seq<char>, b: int, st: Seq<(int, int)>, start: int, e: int)
    requires
        spec_names_from(t, b),
        b <= start < e <= t.len(),
        spec_segment_starts(t, b, start),
        forall|i: int| start <= i < e ==> t[i] != '/',
        e == t.len() || t[e] == '/',
    ensures
        spec_push_segment(t, spec_is_absolute(t), st, (start, e)) == st.push((start, e)),
{
    assert(spec_name_at(t, start));
    let seg = spec_segment(t, (start, e));
    assert(seg.len() == e - start);
    assert(seg[0] == t[start]);
    if seg == seq!['.'] {
        assert(seq!['.'][0] == '.');
        assert(false);
    }
    if seg == seq!['.', '.'] {
        assert(seq!['.', '.'][0] == '.' && seq!['.', '.'][1] == '.');
        assert(seg[1] == t[start + 1]);
        assert(false);
    }
    lemma_ordinary_segment_is_kept(t, spec_is_absolute(t), st, (start, e));
}

/// Adding a segment after the ones met so far adds its text after a `/`
proof fn lemma_text_grows(t: Seq<char>, b: int, st: Seq<(int, int)>, start: int, e: int)
    requires
        0 <= b < start <= e <= t.len(),
        t[start - 1] == '/',
        st.len() > 0,
        spec_segments_text(t, st) == t.subrange(b, start - 1),
    ensures
        spec_segments_text(t, st.push((start, e))) == t.subrange(b, e),
{
    assert(st.push((start, e)).drop_last() =~= st);
    assert(t.subrange(b, start - 1) + seq!['/'] + t.subrange(start, e) =~= t.subrange(b, e));
}

/// Scanning a plain path: after the first `n` characters, the segments met
/// so far are all kept, and their text is the path up to the last `/`
proof fn lemma_scan_plain(t: Seq<char>, b: int, n: nat)
    requires
        spec_names_from(t, b),
        b == 0 || (b == 1 && t[0] == '/'),
        b <= n <= t.len(),
    ensures
        ({
            let (st, start) = spec_scan(t, n);
            &&& b <= start <= n
            &&& spec_segment_starts(t, b, start)
            &&& forall|i: int| start <= i < n ==> t[i] != '/'
            &&& start == b ==> st.len() == 0
            &&& start > b ==> st.len() > 0 && spec_segments_text(t, st) == t.subrange(
                b,
                start - 1,
            )
        }),
    decreases n,
{
    if n == b {
        if b == 1 {
            assert(spec_scan(t, 0) == (Seq::<(int, int)>::empty(), 0int));
            assert(spec_segment(t, (0, 0)).len() == 0);
        }
    } else {
        lemma_scan_plain(t, b, (n - 1) as nat);
        let prev = spec_scan(t, (n - 1) as nat);
        let st = prev.0;
        let start = prev.1;
        if t[n - 1] == '/' {
            assert(start < n - 1) by {
                assert(spec_name_at(t, start));
            }
            lemma_plain_segment_kept(t, b, st, start, n - 1);
            let next = st.push((start, n - 1));
            assert(spec_scan(t, n).0 == next);
            if start == b {
                assert(next =~= seq![(start, n - 1)]);
            } else {
                lemma_text_grows(t, b, st, start, n - 1);
            }
        }
    }
}

/// Resolving `.` and `..` leaves a path made only of ordinary names (hidden
/// names among them) as it is
pub proof fn lemma_plain_path_is_normal(t: Seq<char>)
    requires
        spec_plain_path(t),
    ensures
        spec_normalize(t) == t,
{
    let b: int = if spec_is_absolute(t) {
        1
    } else {
        0
    };
    lemma_scan_plain(t, b, t.len());
    let last = spec_scan(t, t.len());
    let st = last.0;
    let start = last.1;
    assert(start < t.len()) by {
        if start == t.len() {
            assert(t[t.len() - 1] == t.last());
        }
    }
    lemma_plain_segment_kept(t, b, st, start, t.len() as int);
    let segs = spec_normal_segments(t);
    assert(segs == st.push((start, t.len() as int)));
    if start == b {
        assert(segs =~= seq![(start, t.len() as int)]);
    } else {
        lemma_text_grows(t, b, st, start, t.len() as int);
    }
    assert(spec_segments_text(t, segs) == t.subrange(b, t.len() as int));
    if b == 1 {
        assert(seq!['/'] + t.subrange(1, t.len() as int) =~= t);
    } else {
        assert(t.subrange(0, t.len() as int) =~= t);
    }
}

/// Joining a relative path of ordinary names onto an absolute one places it
/// after a `/`, and gives a path of ordinary names again
pub proof fn lemma_plain_join(base: Seq<char>, p: Seq<char>)
    requires
        spec_is_absolute(base),
        spec_plain_path(base),
        !spec_is_absolute(p),
        spec_plain_path(p),
    ensures
        spec_join(base, p) == base + seq!['/'] + p,
        spec_plain_path(base + seq!['/'] + p),
{
    let n = base.len() as int;
    let j = base + seq!['/'] + p;
    assert(j.len() == n + 1 + p.len());
    assert forall|i: int| 0 <= i < n implies j[i] == base[i] by {}
    assert(j[n] == '/');
    assert forall|i: int| 0 <= i < p.len() implies j[n + 1 + i] == p[i] by {}
    assert(j[0] == '/');
    assert(j.last() == p.last());
    assert forall|k: int| 1 <= k < j.len() && #[trigger] spec_segment_starts(j, 1, k) implies spec_name_at(
        j,
        k,
    ) by {
        if k < n {
            assert(spec_segment_starts(base, 1, k));
            assert(spec_name_at(base, k));
            if k + 1 < n {
                assert(j[k + 1] == base[k + 1]);
            }
            if k + 2 < n {
                assert(j[k + 2] == base[k + 2]);
            }
        } else if k == n {
            assert(base[n - 1] == base.last());
            assert(false);
        } else {
            let k2 = k - n - 1;
            assert(spec_segment_starts(p, 0, k2));
            assert(spec_name_at(p, k2));
            assert(j[k] == p[k2]);
            if k2 + 1 < p.len() {
                assert(j[k + 1] == p[k2 + 1]);
            }
            if k2 + 2 < p.len() {
                assert(j[k + 2] == p[k2 + 2]);
            }
        }
    }
}

/// The pairs of a stack of segments, as integers
pub open spec fn spec_pairs(v: Seq<(usize, usize)>) -> Seq<(int, int)> {
    v.map_values(|x: (usize, usize)| (x.0 as int, x.1 as int))
}

/// Every pair of `v` bounds a piece of a text of length `n`
pub open spec fn spec_pairs_fit(v: Seq<(usize, usize)>, n: nat) -> bool {
    forall|k: int| 0 <= k < v.len() ==> (#[trigger] v[k]).0 <= v[k].1 <= n
}

/// Whether the text of `p` from `a` to `b` is `..`
fn is_dot_dot(p: &str, a: usize, b: usize) -> (r: bool)
    requires
        a <= b <= p@.len(),
    ensures
        r == (p@.subrange(a as int, b as int) == seq!['.', '.']),
{
    let ghost t = p@.subrange(a as int, b as int);
    if b - a != 2 {
        assert(t.len() != 2);
        return false;
    }
    let c0 = p.get_char(a);
    let c1 = p.get_char(a + 1);
    assert(t[0] == c0 && t[1] == c1);
    if c0 == '.' && c1 == '.' {
        assert(t =~= seq!['.', '.']);
        true
    } else {
        assert(t != seq!['.', '.']) by {
            if t == seq!['.', '.'] {
                assert(seq!['.', '.'][0] == '.' && seq!['.', '.'][1] == '.');
            }
        }
        false
    }
}

/// Whether the text of `p` from `a` to `b` is `.`
fn is_dot(p: &str, a: usize, b: usize) -> (r: bool)
    requires
        a <= b <= p@.len(),
    ensures
        r == (p@.subrange(a as int, b as int) == seq!['.']),
{
    let ghost t = p@.subrange(a as int, b as int);
    if b - a != 1 {
        assert(t.len() != 1);
        return false;
    }
    let c0 = p.get_char(a);
    assert(t[0] == c0);
    if c0 == '.' {
        assert(t =~= seq!['.']);
        true
    } else {
        assert(t != seq!['.']) by {
            if t == seq!['.'] {
                assert(seq!['.'][0] == '.');
            }
        }
        false
    }
}

/// Meets the segment of `p` from `a` to `b` (see `spec_push_segment`)
fn push_segment(p: &str, abs: bool, st: &mut Vec<(usize, usize)>, a: usize, b: usize)
    requires
        a <= b <= p@.len(),
        spec_pairs_fit(old(st)@, p@.len()),
    ensures
        spec_pairs_fit(final(st)@, p@.len()),
        spec_pairs(final(st)@) == spec_push_segment(
            p@,
            abs,
            spec_pairs(old(st)@),
            (a as int, b as int),
        ),
{
    let ghost before = st@;
    if b == a || is_dot(p, a, b) {
        proof {
            assert(spec_segment(p@, (a as int, b as int)).len() == b - a);
        }
        return;
    }
    assert(spec_segment(p@, (a as int, b as int)).len() != 0);
    if is_dot_dot(p, a, b) {
        let n = st.len();
        if n > 0 {
            let (la, lb) = st[n - 1];
            if !is_dot_dot(p, la, lb) {
                st.pop();
                assert(spec_pairs(st@) =~= spec_pairs(before).drop_last());
                return;
            }
        }
        if abs {
            return;
        }
        st.push((a, b));
        assert(spec_pairs(st@) =~= spec_pairs(before).push((a as int, b as int)));
    } else {
        st.push((a, b));
        assert(spec_pairs(st@) =~= spec_pairs(before).push((a as int, b as int)));
    }
}

/// The path text `p` with `.` and `..` resolved by its text alone (see
/// `spec_normalize`)
pub fn normalize(p: &str) -> (r: String)
    ensures
        r@ == spec_normalize(p@),
{
    let n = p.unicode_len();
    let abs = is_absolute(p);
    let mut st: Vec<(usize, usize)> = Vec::new();
    let mut start: usize = 0;
    let mut i: usize = 0;
    assert(spec_pairs(st@) =~= Seq::<(int, int)>::empty());
    while i < n
        invariant
            n == p@.len(),
            i <= n,
            start <= i,
            abs == spec_is_absolute(p@),
            spec_pairs_fit(st@, p@.len()),
            spec_pairs(st@) == spec_scan(p@, i as nat).0,
            start == spec_scan(p@, i as nat).1,
        decreases n - i,
    {
        if p.get_char(i) == '/' {
            push_segment(p, abs, &mut st, start, i);
            start = i + 1;
        }
        i += 1;
    }
    push_segment(p, abs, &mut st, start, n);
    let ghost segs = spec_pairs(st@);
    assert(segs == spec_normal_segments(p@));
    let mut out: String = if abs {
        proof {
            reveal_strlit("/");
        }
        "/".to_owned()
    } else {
        String::new()
    };
    let ghost lead: Seq<char> = if abs {
        seq!['/']
    } else {
        Seq::empty()
    };
    assert(out@ == lead) by {
        reveal_strlit("/");
    }
    let mut j: usize = 0;
    while j < st.len()
        invariant
            j <= st@.len(),
            segs == spec_pairs(st@),
            spec_pairs_fit(st@, p@.len()),
            out@ == lead + spec_segments_text(p@, segs.take(j as int)),
        decreases st@.len() - j,
    {
        let (a, b) = st[j];
        let piece = p.substring_char(a, b);
        proof {
            reveal_strlit("/");
            assert(segs[j as int] == (a as int, b as int));
            assert(segs.take(j + 1).drop_last() =~= segs.take(j as int));
        }
        if j > 0 {
            out = out.concat("/");
        }
        out = out.concat(piece);
        j += 1;
        proof {
            if j == 1 {
                assert(segs.take(j as int) =~= seq![segs[0]]);
                assert(spec_segments_text(p@, segs.take(j as int)) == spec_segment(p@, segs[0]));
                assert(out@ =~= lead + spec_segments_text(p@, segs.take(j as int)));
            } else {
                assert(out@ =~= lead + spec_segments_text(p@, segs.take(j as int)));
            }
        }
    }
    assert(segs.take(st@.len() as int) =~= segs);
    out
}

/// Whether the path text `p` begins with a `..` segment
pub fn leading_parent(p: &str) -> (b: bool)
    ensures
        b == spec_leading_parent(p@),
{
    let n = p.unicode_len();
    n >= 2 && p.get_char(0) == '.' && p.get_char(1) == '.' && (n == 2 || p.get_char(2) == '/')
}

} // verus!
