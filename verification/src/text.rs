//! Character-level string helpers with exact specifications.
use vstd::prelude::*;

verus! {

/// `p` occurs in `s` starting at position `i`.
pub open spec fn occurs_at(s: Seq<char>, p: Seq<char>, i: int) -> bool {
    0 <= i && i + p.len() <= s.len() && s.subrange(i, i + p.len()) == p
}

/// `p` occurs somewhere in `s`.
pub open spec fn occurs_in(s: Seq<char>, p: Seq<char>) -> bool {
    exists|i: int| occurs_at(s, p, i)
}

/// `s` ends with `t`.
pub open spec fn ends_with(s: Seq<char>, t: Seq<char>) -> bool {
    t.len() <= s.len() && s.skip(s.len() - t.len()) == t
}

/// `s` starts with `t`.
pub open spec fn starts_with(s: Seq<char>, t: Seq<char>) -> bool {
    t.len() <= s.len() && s.take(t.len() as int) == t
}

/// Left-to-right, non-overlapping replacement of every occurrence of `p`
/// in `s` by `t`.  An empty pattern matches before every character and at
/// the end of `s`.
pub open spec fn replaced(s: Seq<char>, p: Seq<char>, t: Seq<char>) -> Seq<char>
    decreases s.len(),
{
    if p.len() == 0 {
        if s.len() == 0 {
            t
        } else {
            t + seq![s[0]] + replaced(s.drop_first(), p, t)
        }
    } else if s.len() < p.len() {
        s
    } else if s.take(p.len() as int) == p {
        t + replaced(s.skip(p.len() as int), p, t)
    } else {
        seq![s[0]] + replaced(s.drop_first(), p, t)
    }
}

/// `s` with every leading and trailing `c` removed.
pub open spec fn trimmed(s: Seq<char>, c: char) -> Seq<char>
    decreases s.len(),
{
    if s.len() == 0 {
        s
    } else if s[0] == c {
        trimmed(s.drop_first(), c)
    } else if s.last() == c {
        trimmed(s.drop_last(), c)
    } else {
        s
    }
}

/// Whether two strings hold the same characters.
pub fn str_eq(a: &str, b: &str) -> (r: bool)
    ensures
        r == (a@ == b@),
{
    let n = a.unicode_len();
    if n != b.unicode_len() {
        return false;
    }
    let mut i: usize = 0;
    while i < n
        invariant
            n == a@.len(),
            n == b@.len(),
            i <= n,
            forall|k: int| 0 <= k < i ==> a@[k] == b@[k],
        decreases n - i,
    {
        if a.get_char(i) != b.get_char(i) {
            return false;
        }
        i = i + 1;
    }
    assert(a@ =~= b@);
    true
}

/// Whether `p` occurs in `s` at character position `i`.
fn matches_at(s: &str, n: usize, p: &str, m: usize, i: usize) -> (r: bool)
    requires
        n == s@.len(),
        m == p@.len(),
        i <= n,
    ensures
        r == occurs_at(s@, p@, i as int),
{
    if m > n - i {
        return false;
    }
    let mut k: usize = 0;
    while k < m
        invariant
            n == s@.len(),
            m == p@.len(),
            i + m <= n,
            k <= m,
            forall|j: int| 0 <= j < k ==> s@[i + j] == p@[j],
        decreases m - k,
    {
        if s.get_char(i + k) != p.get_char(k) {
            assert(s@.subrange(i as int, i + m)[k as int] != p@[k as int]);
            return false;
        }
        k = k + 1;
    }
    assert(s@.subrange(i as int, i + m) =~= p@);
    true
}

/// Whether `p` occurs anywhere in `s`.
pub fn contains_str(s: &str, p: &str) -> (r: bool)
    ensures
        r == occurs_in(s@, p@),
{
    let n = s.unicode_len();
    let m = p.unicode_len();
    if m == 0 {
        assert(s@.subrange(0, 0) =~= p@);
        assert(occurs_at(s@, p@, 0));
        return true;
    }
    let mut i: usize = 0;
    while i <= n && m <= n - i
        invariant
            n == s@.len(),
            m == p@.len(),
            m > 0,
            i <= n,
            forall|j: int| 0 <= j < i ==> !occurs_at(s@, p@, j),
        decreases n + 1 - i,
    {
        if matches_at(s, n, p, m, i) {
            return true;
        }
        i = i + 1;
    }
    assert forall|j: int| !occurs_at(s@, p@, j) by {
        if 0 <= j && j + m <= n {
            assert(j < i);
        }
    }
    false
}

proof fn lemma_skip_facts(s: Seq<char>, i: int, m: int)
    requires
        0 <= i <= s.len(),
        0 <= m,
    ensures
        i < s.len() ==> s.skip(i)[0] == s[i],
        i < s.len() ==> s.skip(i).drop_first() =~= s.skip(i + 1),
        i + m <= s.len() ==> s.skip(i).take(m) =~= s.subrange(i, i + m),
        i + m <= s.len() ==> s.skip(i).skip(m) =~= s.skip(i + m),
        s.skip(i).len() == s.len() - i,
{
}

/// One step of `replaced` on the suffix of `s` that starts at `i`.
proof fn lemma_replaced_step(s: Seq<char>, p: Seq<char>, t: Seq<char>, i: int)
    requires
        0 <= i <= s.len(),
    ensures
        p.len() == 0 && i == s.len() ==> replaced(s.skip(i), p, t) == t,
        p.len() == 0 && i < s.len() ==> replaced(s.skip(i), p, t) == t + seq![s[i]] + replaced(
            s.skip(i + 1),
            p,
            t,
        ),
        p.len() > 0 && i + p.len() > s.len() ==> replaced(s.skip(i), p, t) == s.skip(i),
        p.len() > 0 && occurs_at(s, p, i) ==> replaced(s.skip(i), p, t) == t + replaced(
            s.skip(i + p.len()),
            p,
            t,
        ),
        p.len() > 0 && i + p.len() <= s.len() && !occurs_at(s, p, i) ==> replaced(s.skip(i), p, t)
            == seq![s[i]] + replaced(s.skip(i + 1), p, t),
{
    lemma_skip_facts(s, i, p.len() as int);
    lemma_skip_facts(s, i, 0);
}

fn replace_empty_pattern(s: &str, n: usize, from: &str, to: &str) -> (r: String)
    requires
        n == s@.len(),
        from@.len() == 0,
    ensures
        r@ == replaced(s@, from@, to@),
{
    let mut out = String::new();
    let mut i: usize = 0;
    assert(s@.skip(0) =~= s@);
    while i < n
        invariant
            n == s@.len(),
            from@.len() == 0,
            i <= n,
            out@ + replaced(s@.skip(i as int), from@, to@) == replaced(s@, from@, to@),
        decreases n - i,
    {
        proof {
            lemma_replaced_step(s@, from@, to@, i as int);
        }
        let ghost before = out@;
        out.append(to);
        out.append(s.substring_char(i, i + 1));
        assert(s@.subrange(i as int, i + 1) =~= seq![s@[i as int]]);
        assert(out@ =~= before + to@ + seq![s@[i as int]]);
        i = i + 1;
    }
    proof {
        lemma_replaced_step(s@, from@, to@, i as int);
    }
    out.append(to);
    out
}

/// Replaces every occurrence of `from` in `s` by `to`, left to right and
/// without overlaps, as `str::replace` does.
pub fn replace_all(s: &str, from: &str, to: &str) -> (r: String)
    ensures
        r@ == replaced(s@, from@, to@),
{
    let n = s.unicode_len();
    let m = from.unicode_len();
    if m == 0 {
        return replace_empty_pattern(s, n, from, to);
    }
    let mut out = String::new();
    let mut start: usize = 0;
    let mut i: usize = 0;
    assert(s@.skip(0) =~= s@);
    assert(s@.subrange(0, 0) =~= Seq::<char>::empty());
    while i < n && m <= n - i
        invariant
            n == s@.len(),
            m == from@.len(),
            m > 0,
            start <= i <= n,
            out@ + s@.subrange(start as int, i as int) + replaced(s@.skip(i as int), from@, to@)
                == replaced(s@, from@, to@),
        decreases n - i,
    {
        proof {
            lemma_replaced_step(s@, from@, to@, i as int);
        }
        if matches_at(s, n, from, m, i) {
            let ghost before = out@;
            out.append(s.substring_char(start, i));
            out.append(to);
            assert(s@.subrange((i + m) as int, (i + m) as int) =~= Seq::<char>::empty());
            assert(out@ =~= before + s@.subrange(start as int, i as int) + to@);
            i = i + m;
            start = i;
        } else {
            assert(s@.subrange(start as int, i + 1) =~= s@.subrange(start as int, i as int)
                + seq![s@[i as int]]);
            i = i + 1;
        }
    }
    proof {
        lemma_replaced_step(s@, from@, to@, i as int);
        lemma_skip_facts(s@, i as int, 0);
        assert(s@.subrange(start as int, i as int) + s@.skip(i as int) =~= s@.subrange(
            start as int,
            n as int,
        ));
    }
    out.append(s.substring_char(start, n));
    out
}

/// `s` with every leading and trailing `c` removed, as `str::trim_matches`
/// does with a single character.
pub fn trim_char(s: &str, c: char) -> (r: String)
    ensures
        r@ == trimmed(s@, c),
{
    let n = s.unicode_len();
    let mut lo: usize = 0;
    let mut hi: usize = n;
    assert(s@.subrange(0, n as int) =~= s@);
    while lo < hi && (s.get_char(lo) == c || s.get_char(hi - 1) == c)
        invariant
            n == s@.len(),
            lo <= hi <= n,
            trimmed(s@.subrange(lo as int, hi as int), c) == trimmed(s@, c),
        decreases hi - lo,
    {
        let ghost cur = s@.subrange(lo as int, hi as int);
        if s.get_char(lo) == c {
            assert(cur.drop_first() =~= s@.subrange(lo + 1, hi as int));
            lo = lo + 1;
        } else {
            assert(cur.drop_last() =~= s@.subrange(lo as int, hi - 1));
            hi = hi - 1;
        }
    }
    let ghost cur = s@.subrange(lo as int, hi as int);
    assert(trimmed(cur, c) == cur);
    let mut out = String::new();
    out.append(s.substring_char(lo, hi));
    out
}

/// A text that starts with the pattern has the replacement in its place,
/// followed by the replacement of the rest.
pub proof fn replacement_of_leading_pattern(p: Seq<char>, s: Seq<char>, t: Seq<char>)
    requires
        p.len() > 0,
    ensures
        replaced(p + s, p, t) == t + replaced(s, p, t),
{
    assert((p + s).take(p.len() as int) =~= p);
    assert((p + s).skip(p.len() as int) =~= s);
}

/// `p` written `k` times.
pub open spec fn repeated(p: Seq<char>, k: nat) -> Seq<char>
    decreases k,
{
    if k == 0 {
        Seq::empty()
    } else {
        p + repeated(p, (k - 1) as nat)
    }
}

/// Every occurrence is replaced, not only the first: a text made of the
/// pattern `k` times becomes the replacement `k` times.
pub proof fn every_occurrence_replaced(p: Seq<char>, t: Seq<char>, k: nat)
    requires
        p.len() > 0,
    ensures
        replaced(repeated(p, k), p, t) == repeated(t, k),
    decreases k,
{
    if k > 0 {
        every_occurrence_replaced(p, t, (k - 1) as nat);
        replacement_of_leading_pattern(p, repeated(p, (k - 1) as nat), t);
    } else {
        assert(replaced(Seq::<char>::empty(), p, t) == Seq::<char>::empty());
    }
}

/// A pattern written in the middle of a text occurs in it.
pub proof fn pattern_occurs_where_written(a: Seq<char>, p: Seq<char>, b: Seq<char>)
    ensures
        occurs_in(a + p + b, p),
{
    assert((a + p + b).subrange(a.len() as int, (a.len() + p.len()) as int) =~= p);
    assert(occurs_at(a + p + b, p, a.len() as int));
}

/// The text holds the pattern's characters one after the other from
/// position `i` on.
pub open spec fn holds_from(s: Seq<char>, p: Seq<char>, i: int) -> bool {
    0 <= i && i + p.len() <= s.len() && forall|k: int| 0 <= k < p.len() ==> s[i + k] == p[k]
}

/// A pattern occurs in a text exactly where the text holds the pattern's
/// characters, one after the other, from some position on.
pub proof fn occurrence_is_a_match(s: Seq<char>, p: Seq<char>)
    ensures
        occurs_in(s, p) <==> exists|i: int| holds_from(s, p, i),
{
    if occurs_in(s, p) {
        let i = choose|i: int| occurs_at(s, p, i);
        assert forall|k: int| 0 <= k < p.len() implies s[i + k] == p[k] by {
            assert(s.subrange(i, i + p.len())[k] == s[i + k]);
        }
        assert(holds_from(s, p, i));
    }
    if exists|i: int| holds_from(s, p, i) {
        let i = choose|i: int| holds_from(s, p, i);
        assert(s.subrange(i, i + p.len()) =~= p);
        assert(occurs_at(s, p, i));
    }
}

#[verifier::spinoff_prover]
#[verifier::rlimit(80)]
proof fn trim_bounds(s: Seq<char>, c: char) -> (r: (int, int))
    ensures
        0 <= r.0 <= r.1 <= s.len(),
        trimmed(s, c) == s.subrange(r.0, r.1),
        forall|k: int| 0 <= k < r.0 ==> s[k] == c,
        forall|k: int| r.1 <= k < s.len() ==> s[k] == c,
        r.0 < r.1 ==> s[r.0] != c && s[r.1 - 1] != c,
    decreases s.len(),
{
    if s.len() == 0 {
        assert(s.subrange(0, 0) =~= s);
        (0, 0)
    } else if s[0] == c {
        let rest = s.drop_first();
        let (a, b) = trim_bounds(rest, c);
        assert(s.subrange(a + 1, b + 1) =~= rest.subrange(a, b));
        assert forall|k: int| 0 <= k < a + 1 implies s[k] == c by {
            if k > 0 {
                assert(s[k] == rest[k - 1]);
            }
        }
        assert forall|k: int| b + 1 <= k < s.len() implies s[k] == c by {
            assert(s[k] == rest[k - 1]);
        }
        if a < b {
            assert(s[a + 1] == rest[a]);
            assert(s[b] == rest[b - 1]);
        }
        (a + 1, b + 1)
    } else if s.last() == c {
        let rest = s.drop_last();
        let (a, b) = trim_bounds(rest, c);
        assert(s.subrange(a, b) =~= rest.subrange(a, b));
        assert forall|k: int| b <= k < s.len() implies s[k] == c by {
            if k < rest.len() {
                assert(s[k] == rest[k]);
            }
        }
        assert forall|k: int| 0 <= k < a implies s[k] == c by {
            assert(s[k] == rest[k]);
        }
        if a < b {
            assert(s[a] == rest[a]);
            assert(s[b - 1] == rest[b - 1]);
        }
        (a, b)
    } else {
        assert(s.subrange(0, s.len() as int) =~= s);
        (0, s.len() as int)
    }
}

/// Trimming removes only the character `c`, and all of it at both ends:
/// the result is what lies between some leading and trailing runs of `c`,
/// and it neither starts nor ends with `c`.
pub proof fn trimming_removes_only_the_ends(s: Seq<char>, c: char)
    ensures
        exists|a: int, b: int|
            #![trigger s.subrange(a, b)]
            0 <= a <= b <= s.len() && trimmed(s, c) == s.subrange(a, b) && (forall|k: int|
                0 <= k < a ==> s[k] == c) && (forall|k: int| b <= k < s.len() ==> s[k] == c),
        trimmed(s, c).len() > 0 ==> trimmed(s, c)[0] != c && trimmed(s, c).last() != c,
{
    let (a, b) = trim_bounds(s, c);
    assert(s.subrange(a, b) == trimmed(s, c));
    if a < b {
        assert(trimmed(s, c)[0] == s[a]);
        assert(trimmed(s, c).last() == s[b - 1]);
    }
}

/// Replacing a pattern that does not occur leaves the text as it was.
pub proof fn absent_pattern_keeps_text(s: Seq<char>, p: Seq<char>, t: Seq<char>)
    requires
        p.len() > 0,
        !occurs_in(s, p),
    ensures
        replaced(s, p, t) == s,
    decreases s.len(),
{
    if s.len() >= p.len() {
        assert(s.subrange(0, p.len() as int) =~= s.take(p.len() as int));
        assert(!occurs_at(s, p, 0));
        let r = s.drop_first();
        assert forall|i: int| !occurs_at(r, p, i) by {
            if occurs_at(r, p, i) {
                assert(s.subrange(i + 1, i + 1 + p.len()) =~= r.subrange(i, i + p.len()));
                assert(occurs_at(s, p, i + 1));
            }
        }
        absent_pattern_keeps_text(r, p, t);
        assert(s =~= seq![s[0]] + r);
    }
}

} // verus!
