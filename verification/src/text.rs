//! Character-level helpers shared by the identifier parsers.
//!
//! Identifiers are read as sequences of characters (`Seq<char>`, the view of
//! a `str`). Splitting follows `str::split` / `str::splitn` with a single
//! character as the pattern.
use vstd::prelude::*;

verus! {

/// Index of the first occurrence of `c` in `s`, or -1 when `c` does not occur.
pub open spec fn index_of(s: Seq<char>, c: char) -> int
    decreases s.len(),
{
    if s.len() == 0 {
        -1
    } else if s[0] == c {
        0
    } else {
        let r = index_of(s.drop_first(), c);
        if r < 0 {
            -1
        } else {
            r + 1
        }
    }
}

/// The pieces of `s` between occurrences of `c`, at most `n` of them: the
/// last piece holds the rest of the text (`str::splitn` with `n >= 1`).
pub open spec fn splitn(s: Seq<char>, c: char, n: nat) -> Seq<Seq<char>>
    decreases n,
{
    if n <= 1 {
        seq![s]
    } else {
        let k = index_of(s, c);
        if k < 0 {
            seq![s]
        } else {
            seq![s.take(k)] + splitn(s.skip(k + 1), c, (n - 1) as nat)
        }
    }
}

/// All pieces of `s` between occurrences of `c` (`str::split`).
pub open spec fn split(s: Seq<char>, c: char) -> Seq<Seq<char>>
    decreases s.len(),
{
    let k = index_of(s, c);
    if k < 0 {
        seq![s]
    } else {
        proof {
            lemma_index_of(s, c);
        }
        seq![s.take(k)] + split(s.skip(k + 1), c)
    }
}

/// The characteristic facts of `index_of`: it is the first position that
/// holds `c`, and -1 exactly when no position does.
pub proof fn lemma_index_of(s: Seq<char>, c: char)
    ensures
        -1 <= index_of(s, c) < s.len(),
        index_of(s, c) == -1 <==> (forall|i: int| 0 <= i < s.len() ==> s[i] != c),
        index_of(s, c) >= 0 ==> s[index_of(s, c)] == c,
        forall|j: int| 0 <= j < index_of(s, c) ==> s[j] != c,
        forall|k: int|
            0 <= k < s.len() && s[k] == c && (forall|j: int| 0 <= j < k ==> s[j] != c) ==> index_of(
                s,
                c,
            ) == k,
    decreases s.len(),
{
    if s.len() > 0 && s[0] != c {
        lemma_index_of(s.drop_first(), c);
        assert forall|j: int| 0 < j < s.len() implies s[j] == s.drop_first()[j - 1] by {}
        assert forall|k: int|
            0 <= k < s.len() && s[k] == c && (forall|j: int| 0 <= j < k ==> s[j] != c) implies index_of(
            s,
            c,
        ) == k by {
            assert(k > 0);
            assert(s.drop_first()[k - 1] == c);
            assert forall|j: int| 0 <= j < k - 1 implies s.drop_first()[j] != c by {
                assert(s.drop_first()[j] == s[j + 1]);
            }
        }
        if index_of(s.drop_first(), c) == -1 {
            assert forall|i: int| 0 <= i < s.len() implies s[i] != c by {
                if i > 0 {
                    assert(s[i] == s.drop_first()[i - 1]);
                }
            }
        }
    }
}

/// Searching a concatenation whose first part lacks `c` finds the first `c`
/// of the second part, shifted by the length of the first.
pub proof fn lemma_index_of_concat(a: Seq<char>, b: Seq<char>, c: char)
    requires
        forall|i: int| 0 <= i < a.len() ==> a[i] != c,
    ensures
        index_of(a + b, c) == (if index_of(b, c) < 0 {
            -1
        } else {
            a.len() + index_of(b, c)
        }),
{
    lemma_index_of(b, c);
    lemma_index_of(a + b, c);
    let k = index_of(b, c);
    if k >= 0 {
        assert((a + b)[a.len() + k] == c);
        assert forall|j: int| 0 <= j < a.len() + k implies (a + b)[j] != c by {
            if j >= a.len() {
                assert((a + b)[j] == b[j - a.len()]);
            }
        }
    } else {
        assert forall|i: int| 0 <= i < (a + b).len() implies (a + b)[i] != c by {
            if i >= a.len() {
                assert((a + b)[i] == b[i - a.len()]);
            }
        }
    }
}

/// Splitting always gives at least one piece.
pub proof fn lemma_split_nonempty(s: Seq<char>, c: char)
    ensures
        split(s, c).len() >= 1,
{
}

/// Where `index_of` finds `c`, `c` stands.
pub proof fn lemma_index_of_hit(s: Seq<char>, c: char)
    ensures
        -1 <= index_of(s, c) < s.len(),
        index_of(s, c) >= 0 ==> s[index_of(s, c)] == c,
    decreases s.len(),
{
    if s.len() > 0 && s[0] != c {
        lemma_index_of_hit(s.drop_first(), c);
    }
}

/// A text that splits into three pieces is those pieces joined by `c`.
pub proof fn lemma_splitn3_join(s: Seq<char>, c: char)
    requires
        splitn(s, c, 3).len() == 3,
    ensures
        s == splitn(s, c, 3)[0] + seq![c] + splitn(s, c, 3)[1] + seq![c] + splitn(s, c, 3)[2],
        index_of(s, c) == splitn(s, c, 3)[0].len(),
{
    let k = index_of(s, c);
    assert(k >= 0);
    lemma_index_of_hit(s, c);
    let r = s.skip(k + 1);
    let p = splitn(r, c, 2);
    assert(splitn(s, c, 3) == seq![s.take(k)] + p);
    let j = index_of(r, c);
    assert(j >= 0);
    lemma_index_of_hit(r, c);
    let t = r.skip(j + 1);
    assert(p == seq![r.take(j)] + splitn(t, c, 1));
    assert(splitn(t, c, 1) == seq![t]);
    assert(r =~= r.take(j) + seq![c] + t);
    assert(s =~= s.take(k) + seq![c] + r);
}

/// Splitting `<a><sep><rest>`, where `a` lacks `sep`, gives `a` and then
/// the pieces of `rest`.
pub proof fn lemma_split_head(a: Seq<char>, rest: Seq<char>, sep: char)
    requires
        forall|i: int| 0 <= i < a.len() ==> a[i] != sep,
    ensures
        split(a + seq![sep] + rest, sep) == seq![a] + split(rest, sep),
{
    let s = a + seq![sep] + rest;
    assert(s =~= a + (seq![sep] + rest));
    lemma_index_of(seq![sep] + rest, sep);
    assert((seq![sep] + rest)[0] == sep);
    lemma_index_of_concat(a, seq![sep] + rest, sep);
    assert(s.take(a.len() as int) =~= a);
    assert(s.skip(a.len() + 1int) =~= rest);
}

/// Three pieces that lack `sep`, joined by `sep`, split back into themselves.
pub proof fn lemma_split3(a: Seq<char>, b: Seq<char>, c: Seq<char>, sep: char)
    requires
        forall|i: int| 0 <= i < a.len() ==> a[i] != sep,
        forall|i: int| 0 <= i < b.len() ==> b[i] != sep,
        forall|i: int| 0 <= i < c.len() ==> c[i] != sep,
    ensures
        split(a + seq![sep] + b + seq![sep] + c, sep) == seq![a, b, c],
{
    let rest = b + seq![sep] + c;
    assert(a + seq![sep] + b + seq![sep] + c =~= a + seq![sep] + rest);
    lemma_split_head(a, rest, sep);
    lemma_split_head(b, c, sep);
    lemma_index_of(c, sep);
    assert(split(c, sep) == seq![c]);
    assert(seq![a] + (seq![b] + seq![c]) =~= seq![a, b, c]);
}

/// Reads the characters of a string slice into a vector.
pub fn chars_of(s: &str) -> (v: Vec<char>)
    ensures
        v@ == s@,
{
    let mut v: Vec<char> = Vec::new();
    for c in it: s.chars()
        invariant
            v@ == it.seq().take(it.index() as int),
    {
        v.push(c);
    }
    assert(v@ =~= s@);
    v
}

/// Whether the characters of `w` stand in `v` from position `from` on.
pub fn occurs_at(v: &Vec<char>, from: usize, w: &str) -> (r: bool)
    requires
        from <= v.len(),
    ensures
        r == w@.is_prefix_of(v@.skip(from as int)),
{
    let wc = chars_of(w);
    if wc.len() > v.len() - from {
        return false;
    }
    let mut i: usize = 0;
    while i < wc.len()
        invariant
            i <= wc.len(),
            from + wc.len() <= v.len(),
            wc@ == w@,
            forall|j: int| 0 <= j < i ==> v@[from + j] == wc@[j],
        decreases wc.len() - i,
    {
        if v[from + i] != wc[i] {
            assert(v@.skip(from as int)[i as int] != w@[i as int]);
            return false;
        }
        i += 1;
    }
    assert(w@ =~= v@.skip(from as int).subrange(0, w@.len() as int));
    true
}

/// Whether the characters of `v` from `from` up to `to` are exactly those of `w`.
pub fn range_equals(v: &Vec<char>, from: usize, to: usize, w: &str) -> (r: bool)
    requires
        from <= to <= v.len(),
    ensures
        r == (v@.subrange(from as int, to as int) == w@),
{
    let wc = chars_of(w);
    if wc.len() != to - from {
        return false;
    }
    let mut i: usize = 0;
    while i < wc.len()
        invariant
            i <= wc.len(),
            from + wc.len() == to,
            to <= v.len(),
            wc@ == w@,
            forall|j: int| 0 <= j < i ==> v@[from + j] == wc@[j],
        decreases wc.len() - i,
    {
        if v[from + i] != wc[i] {
            assert(v@.subrange(from as int, to as int)[i as int] != w@[i as int]);
            return false;
        }
        i += 1;
    }
    assert(v@.subrange(from as int, to as int) =~= w@);
    true
}

/// The position of the first `c` in `v` at or after `from`.
pub fn find_char(v: &Vec<char>, from: usize, c: char) -> (r: Option<usize>)
    requires
        from <= v.len(),
    ensures
        match r {
            Some(i) => from <= i < v.len() && index_of(v@.skip(from as int), c) == i - from,
            None => index_of(v@.skip(from as int), c) == -1,
        },
{
    let ghost s = v@.skip(from as int);
    proof {
        lemma_index_of(s, c);
    }
    let mut i: usize = from;
    while i < v.len()
        invariant
            from <= i <= v.len(),
            s == v@.skip(from as int),
            forall|j: int| 0 <= j < i - from ==> s[j] != c,
        decreases v.len() - i,
    {
        if v[i] == c {
            proof {
                lemma_index_of(s, c);
            }
            assert(s[i - from] == c);
            return Some(i);
        }
        i += 1;
    }
    None
}

/// The pieces of `v` that a list of (start, end) bounds delimits.
pub open spec fn pieces(v: Seq<char>, b: Seq<(usize, usize)>) -> Seq<Seq<char>> {
    b.map_values(|p: (usize, usize)| v.subrange(p.0 as int, p.1 as int))
}

/// The bounds of the pieces of `splitn(v@, c, n)`.
pub fn splitn_bounds(v: &Vec<char>, c: char, n: usize) -> (r: Vec<(usize, usize)>)
    requires
        n >= 1,
    ensures
        pieces(v@, r@) == splitn(v@, c, n as nat),
        forall|i: int| 0 <= i < r@.len() ==> (#[trigger] r@[i]).0 <= r@[i].1 <= v@.len(),
{
    let mut r: Vec<(usize, usize)> = Vec::new();
    let mut start: usize = 0;
    let mut left: usize = n;
    assert(v@.skip(0) =~= v@);
    assert(pieces(v@, r@) =~= Seq::<Seq<char>>::empty());
    loop
        invariant
            start <= v.len(),
            1 <= left <= n,
            splitn(v@, c, n as nat) =~= pieces(v@, r@) + splitn(v@.skip(start as int), c, left as nat),
            forall|i: int| 0 <= i < r@.len() ==> (#[trigger] r@[i]).0 <= r@[i].1 <= v@.len(),
        decreases v.len() - start + left,
    {
        let ghost rest = v@.skip(start as int);
        let ghost old_r = r@;
        let found = if left <= 1 {
            None
        } else {
            find_char(v, start, c)
        };
        match found {
            None => {
                r.push((start, v.len()));
                assert(rest =~= v@.subrange(start as int, v.len() as int));
                assert(pieces(v@, r@) =~= pieces(v@, old_r) + seq![rest]);
                return r;
            },
            Some(k) => {
                r.push((start, k));
                assert(rest.take(k - start) =~= v@.subrange(start as int, k as int));
                assert(rest.skip(k - start + 1) =~= v@.skip(k + 1));
                assert(pieces(v@, r@) =~= pieces(v@, old_r) + seq![rest.take(k - start)]);
                start = k + 1;
                left = left - 1;
            },
        }
    }
}

/// The bounds of the pieces of `split(v@, c)`.
pub fn split_bounds(v: &Vec<char>, c: char) -> (r: Vec<(usize, usize)>)
    ensures
        pieces(v@, r@) == split(v@, c),
        forall|i: int| 0 <= i < r@.len() ==> (#[trigger] r@[i]).0 <= r@[i].1 <= v@.len(),
{
    let mut r: Vec<(usize, usize)> = Vec::new();
    let mut start: usize = 0;
    assert(v@.skip(0) =~= v@);
    assert(pieces(v@, r@) =~= Seq::<Seq<char>>::empty());
    loop
        invariant
            start <= v.len(),
            split(v@, c) =~= pieces(v@, r@) + split(v@.skip(start as int), c),
            forall|i: int| 0 <= i < r@.len() ==> (#[trigger] r@[i]).0 <= r@[i].1 <= v@.len(),
        decreases v.len() - start,
    {
        let ghost rest = v@.skip(start as int);
        let ghost old_r = r@;
        match find_char(v, start, c) {
            None => {
                r.push((start, v.len()));
                assert(rest =~= v@.subrange(start as int, v.len() as int));
                assert(pieces(v@, r@) =~= pieces(v@, old_r) + seq![rest]);
                return r;
            },
            Some(k) => {
                r.push((start, k));
                assert(rest.take(k - start) =~= v@.subrange(start as int, k as int));
                assert(rest.skip(k - start + 1) =~= v@.skip(k + 1));
                assert(pieces(v@, r@) =~= pieces(v@, old_r) + seq![rest.take(k - start)]);
                start = k + 1;
            },
        }
    }
}

/// The characters of `s` from `from` up to `to`, as an owned string.
pub fn substring(s: &str, from: usize, to: usize) -> (r: String)
    requires
        from <= to <= s@.len(),
    ensures
        r@ == s@.subrange(from as int, to as int),
{
    s.substring_char(from, to).to_owned()
}

} // verus!
