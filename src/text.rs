//! Verified text primitives over the character view of strings.
use vstd::prelude::*;

verus! {

/// `p` occurs in `s` starting at character index `i`.
pub open spec fn matches_at(s: Seq<char>, p: Seq<char>, i: int) -> bool {
    0 <= i && i + p.len() <= s.len() && s.subrange(i, i + p.len()) == p
}

/// `p` occurs somewhere in `s`.
pub open spec fn contains(s: Seq<char>, p: Seq<char>) -> bool {
    exists|i: int| matches_at(s, p, i)
}

/// Character views of a sequence of strings.
pub open spec fn views(v: Seq<String>) -> Seq<Seq<char>> {
    v.map_values(|x: String| x@)
}

/// The part of `s` after its last occurrence of `sep` (all of `s` when there is none).
pub open spec fn after_last(s: Seq<char>, sep: char) -> Seq<char>
    decreases s.len(),
{
    if s.len() == 0 {
        s
    } else if s.last() == sep {
        Seq::empty()
    } else {
        after_last(s.drop_last(), sep).push(s.last())
    }
}

/// `s` cut at every `sep`, keeping empty pieces.
pub open spec fn split_on(s: Seq<char>, sep: char) -> Seq<Seq<char>>
    decreases s.len(),
{
    if s.len() == 0 {
        seq![Seq::empty()]
    } else {
        let parts = split_on(s.drop_last(), sep);
        if s.last() == sep {
            parts.push(Seq::empty())
        } else {
            parts.update(parts.len() - 1, parts.last().push(s.last()))
        }
    }
}

/// The non-empty pieces of `s` between occurrences of `sep`, in order.
pub open spec fn segments(s: Seq<char>, sep: char) -> Seq<Seq<char>> {
    split_on(s, sep).filter(|seg: Seq<char>| seg.len() > 0)
}

/// `parts` joined with `sep` between consecutive parts.
pub open spec fn join(parts: Seq<Seq<char>>, sep: Seq<char>) -> Seq<char>
    decreases parts.len(),
{
    if parts.len() == 0 {
        Seq::empty()
    } else if parts.len() == 1 {
        parts[0]
    } else {
        join(parts.drop_last(), sep) + sep + parts.last()
    }
}

/// Scans `t` left to right for non-overlapping occurrences of `p`; `acc` is what
/// followed the latest occurrence seen so far.
pub open spec fn tail_after_matches(t: Seq<char>, p: Seq<char>, acc: Seq<char>) -> Seq<char>
    decreases t.len(),
{
    if t.len() == 0 || p.len() == 0 {
        acc
    } else if matches_at(t, p, 0) {
        tail_after_matches(t.skip(p.len() as int), p, t.skip(p.len() as int))
    } else {
        tail_after_matches(t.skip(1), p, acc)
    }
}

/// The last piece of `s` when it is split at the non-overlapping occurrences of `p`
/// found left to right; empty for an empty `p`.
pub open spec fn last_piece(s: Seq<char>, p: Seq<char>) -> Seq<char> {
    if p.len() == 0 {
        Seq::empty()
    } else {
        tail_after_matches(s, p, s)
    }
}

/// A sequence occurs in any concatenation that has it in the middle.
pub proof fn lemma_contains_middle(a: Seq<char>, x: Seq<char>, b: Seq<char>)
    ensures
        contains(a + x + b, x),
{
    assert((a + x + b).subrange(a.len() as int, (a.len() + x.len()) as int) =~= x);
    assert(matches_at(a + x + b, x, a.len() as int));
}

/// `p` occurs in `s` at `i`, and at no later index.
pub open spec fn is_last_match(s: Seq<char>, p: Seq<char>, i: int) -> bool {
    matches_at(s, p, i) && forall|j: int| matches_at(s, p, j) ==> j <= i
}

pub proof fn lemma_after_last_at(s: Seq<char>, sep: char, i: int)
    requires
        0 <= i <= s.len(),
        forall|j: int| i <= j < s.len() ==> s[j] != sep,
        i == 0 || s[i - 1] == sep,
    ensures
        after_last(s, sep) == s.subrange(i, s.len() as int),
    decreases s.len(),
{
    if s.len() == i {
        if i > 0 {
            assert(s.last() == sep);
        }
        assert(s.subrange(i, s.len() as int) =~= Seq::<char>::empty());
    } else {
        let d = s.drop_last();
        assert forall|j: int| i <= j < d.len() implies d[j] != sep by {
            assert(s[j] != sep);
        }
        if i > 0 {
            assert(d[i - 1] == sep);
        }
        lemma_after_last_at(d, sep, i);
        assert(s.subrange(i, s.len() as int) =~= d.subrange(i, d.len() as int).push(s.last()));
    }
}

/// The piece that `after_last` keeps never holds `sep`.
pub proof fn lemma_after_last_free_of(s: Seq<char>, sep: char)
    ensures
        !after_last(s, sep).contains(sep),
    decreases s.len(),
{
    if s.len() > 0 && s.last() != sep {
        lemma_after_last_free_of(s.drop_last(), sep);
        let a = after_last(s.drop_last(), sep);
        assert forall|j: int| 0 <= j < a.push(s.last()).len() implies a.push(s.last())[j]
            != sep by {
            if j < a.len() {
                assert(a.push(s.last())[j] == a[j]);
            }
        }
    }
}

/// Whether `p` occurs in `s` at character index `i`.
pub fn occurs_at(s: &str, p: &str, i: usize) -> (r: bool)
    ensures
        r == matches_at(s@, p@, i as int),
{
    let n = s.unicode_len();
    let m = p.unicode_len();
    if i > n || m > n - i {
        return false;
    }
    let mut k: usize = 0;
    while k < m
        invariant
            k <= m,
            m == p@.len(),
            n == s@.len(),
            i + m <= n,
            forall|j: int| 0 <= j < k ==> s@[i + j] == p@[j],
        decreases m - k,
    {
        if s.get_char(i + k) != p.get_char(k) {
            assert(s@.subrange(i as int, i + m)[k as int] != p@[k as int]);
            return false;
        }
        k += 1;
    }
    assert(s@.subrange(i as int, i + m) =~= p@);
    true
}

/// Whether `p` occurs anywhere in `s`.
pub fn contains_str(s: &str, p: &str) -> (r: bool)
    ensures
        r == contains(s@, p@),
{
    let n = s.unicode_len();
    let m = p.unicode_len();
    if m > n {
        assert forall|i: int| !matches_at(s@, p@, i) by {}
        return false;
    }
    if m == 0 {
        assert(s@.subrange(0, 0) =~= p@);
        assert(matches_at(s@, p@, 0));
        return true;
    }
    let mut i: usize = 0;
    while m <= n - i
        invariant
            n == s@.len(),
            m == p@.len(),
            1 <= m <= n,
            i <= n,
            forall|j: int| 0 <= j < i ==> !matches_at(s@, p@, j),
        decreases n - i,
    {
        if occurs_at(s, p, i) {
            return true;
        }
        i += 1;
    }
    assert forall|j: int| !matches_at(s@, p@, j) by {
        if 0 <= j < i {
        }
    }
    false
}

/// What follows the last `sep` in `s` (all of `s` when `sep` does not occur).
pub fn after_last_char(s: &str, sep: char) -> (r: String)
    ensures
        r@ == after_last(s@, sep),
{
    let n = s.unicode_len();
    let mut i: usize = n;
    while i > 0 && s.get_char(i - 1) != sep
        invariant
            i <= n,
            n == s@.len(),
            forall|j: int| i <= j < n ==> s@[j] != sep,
        decreases i,
    {
        i -= 1;
    }
    proof {
        lemma_after_last_at(s@, sep, i as int);
    }
    String::from_str(s.substring_char(i, n))
}

/// The non-empty pieces of `s` between occurrences of `sep`.
pub fn split_segments(s: &str, sep: char) -> (r: Vec<String>)
    ensures
        views(r@) == segments(s@, sep),
{
    let n = s.unicode_len();
    let mut out: Vec<String> = Vec::new();
    let mut start: usize = 0;
    let mut i: usize = 0;
    proof {
        reveal(Seq::filter);
        assert(s@.subrange(0, 0) =~= Seq::<char>::empty());
        assert(split_on(Seq::<char>::empty(), sep).drop_last() =~= Seq::<Seq<char>>::empty());
        assert(views(out@) =~= Seq::<Seq<char>>::empty());
    }
    while i < n
        invariant
            n == s@.len(),
            start <= i <= n,
            views(out@) == split_on(s@.subrange(0, i as int), sep).drop_last().filter(
                |seg: Seq<char>| seg.len() > 0,
            ),
            split_on(s@.subrange(0, i as int), sep).len() >= 1,
            split_on(s@.subrange(0, i as int), sep).last() == s@.subrange(
                start as int,
                i as int,
            ),
        decreases n - i,
    {
        let c = s.get_char(i);
        let ghost pre = s@.subrange(0, i as int);
        let ghost parts = split_on(pre, sep);
        let ghost next = s@.subrange(0, i + 1);
        proof {
            assert(next.drop_last() =~= pre);
            assert(next.last() == c);
            assert(parts =~= parts.drop_last().push(parts.last()));
        }
        if c == sep {
            if start < i {
                let seg = String::from_str(s.substring_char(start, i));
                out.push(seg);
            }
            proof {
                assert(split_on(next, sep) == parts.push(Seq::empty()));
                assert(split_on(next, sep).drop_last() =~= parts);
                parts.drop_last().lemma_filter_push(parts.last(), |seg: Seq<char>| seg.len() > 0);
                assert(views(out@) =~= parts.filter(|seg: Seq<char>| seg.len() > 0));
                assert(s@.subrange(i + 1, i + 1) =~= Seq::<char>::empty());
            }
            start = i + 1;
        } else {
            proof {
                assert(split_on(next, sep).drop_last() =~= parts.drop_last());
                assert(s@.subrange(start as int, i + 1) =~= parts.last().push(c));
            }
        }
        i += 1;
    }
    let ghost parts = split_on(s@.subrange(0, n as int), sep);
    proof {
        assert(s@.subrange(0, n as int) =~= s@);
        assert(parts =~= parts.drop_last().push(parts.last()));
        parts.drop_last().lemma_filter_push(parts.last(), |seg: Seq<char>| seg.len() > 0);
    }
    if start < n {
        out.push(String::from_str(s.substring_char(start, n)));
    }
    proof {
        assert(views(out@) =~= parts.filter(|seg: Seq<char>| seg.len() > 0));
    }
    out
}

/// The strings of `parts` joined with `sep` between consecutive ones.
pub fn join_with(parts: &Vec<String>, sep: &str) -> (r: String)
    ensures
        r@ == join(views(parts@), sep@),
{
    let mut out = String::new();
    let mut i: usize = 0;
    proof {
        assert(views(parts@).subrange(0, 0) =~= Seq::<Seq<char>>::empty());
    }
    while i < parts.len()
        invariant
            i <= parts@.len(),
            out@ == join(views(parts@).subrange(0, i as int), sep@),
        decreases parts@.len() - i,
    {
        if i > 0 {
            out.append(sep);
        }
        out.append(parts[i].as_str());
        proof {
            let v = views(parts@);
            let next = v.subrange(0, i + 1);
            assert(next.drop_last() =~= v.subrange(0, i as int));
            assert(next.last() == parts@[i as int]@);
            if i == 0 {
                assert(out@ =~= next[0]);
            } else {
                assert(out@ =~= join(next.drop_last(), sep@) + sep@ + next.last());
            }
        }
        i += 1;
    }
    proof {
        assert(views(parts@).subrange(0, parts@.len() as int) =~= views(parts@));
    }
    out
}

/// The last piece of `s` when it is split at the occurrences of `p`, as `last_piece`
/// describes it.
pub fn last_piece_of(s: &str, p: &str) -> (r: String)
    ensures
        r@ == last_piece(s@, p@),
{
    let n = s.unicode_len();
    let m = p.unicode_len();
    if m == 0 {
        return String::new();
    }
    let mut i: usize = 0;
    let mut start: usize = 0;
    proof {
        assert(s@.subrange(0, n as int) =~= s@);
    }
    while i < n
        invariant
            n == s@.len(),
            m == p@.len(),
            m >= 1,
            start <= i <= n,
            last_piece(s@, p@) == tail_after_matches(
                s@.subrange(i as int, n as int),
                p@,
                s@.subrange(start as int, n as int),
            ),
        decreases n - i,
    {
        let ghost t = s@.subrange(i as int, n as int);
        if occurs_at(s, p, i) {
            proof {
                assert(t.subrange(0, m as int) =~= s@.subrange(i as int, i + m));
                assert(matches_at(t, p@, 0));
                assert(t.skip(m as int) =~= s@.subrange(i + m, n as int));
            }
            i = i + m;
            start = i;
        } else {
            proof {
                if t.len() >= m {
                    assert(t.subrange(0, m as int) =~= s@.subrange(i as int, i + m));
                }
                assert(!matches_at(t, p@, 0));
                assert(t.skip(1) =~= s@.subrange(i + 1, n as int));
            }
            i = i + 1;
        }
    }
    String::from_str(s.substring_char(start, n))
}

/// The index of the last occurrence of `p` in `s`, if any.
pub fn last_occurrence(s: &str, p: &str) -> (r: Option<usize>)
    ensures
        r matches Some(i) ==> is_last_match(s@, p@, i as int),
        r is None <==> !contains(s@, p@),
{
    let n = s.unicode_len();
    let m = p.unicode_len();
    if m == 0 {
        assert(s@.subrange(n as int, n as int) =~= p@);
        assert(matches_at(s@, p@, n as int));
        return Some(n);
    }
    if m > n {
        return None;
    }
    let mut k: usize = n - m + 1;
    while k > 0
        invariant
            n == s@.len(),
            m == p@.len(),
            1 <= m <= n,
            k <= n - m + 1,
            forall|j: int| j >= k ==> !matches_at(s@, p@, j),
        decreases k,
    {
        k -= 1;
        if occurs_at(s, p, k) {
            return Some(k);
        }
    }
    None
}

} // verus!
