//! Verified string helpers: lexicographic order, sorting, joining,
//! path-segment extraction and decimal rendering.
//!
//! Team names, repository names and remote URLs are all derived from input
//! strings, so the rest of the library states its contracts over the
//! specification functions defined here.

use vstd::prelude::*;
use vstd::relations::{sorted_by, total_ordering};
use vstd::seq_lib::lemma_sorted_unique;

verus! {

/// Lexicographic order on character sequences, by scalar value.
pub open spec fn chars_le(a: Seq<char>, b: Seq<char>) -> bool
    decreases a.len(),
{
    if a.len() == 0 {
        true
    } else if b.len() == 0 {
        false
    } else if a[0] == b[0] {
        chars_le(a.drop_first(), b.drop_first())
    } else {
        (a[0] as int) < (b[0] as int)
    }
}

/// `chars_le` packaged as a relation value, for vstd's ordering lemmas.
pub open spec fn chars_le_fn() -> spec_fn(Seq<char>, Seq<char>) -> bool {
    |a: Seq<char>, b: Seq<char>| chars_le(a, b)
}

/// The views of a sequence of strings.
pub open spec fn views(v: Seq<String>) -> Seq<Seq<char>> {
    v.map_values(|s: String| s@)
}

proof fn lemma_chars_le_refl(a: Seq<char>)
    ensures
        chars_le(a, a),
    decreases a.len(),
{
    if a.len() > 0 {
        lemma_chars_le_refl(a.drop_first());
    }
}

proof fn lemma_chars_le_conn(a: Seq<char>, b: Seq<char>)
    ensures
        chars_le(a, b) || chars_le(b, a),
    decreases a.len(),
{
    if a.len() > 0 && b.len() > 0 {
        if a[0] == b[0] {
            lemma_chars_le_conn(a.drop_first(), b.drop_first());
        }
    }
}

proof fn lemma_chars_le_antisym(a: Seq<char>, b: Seq<char>)
    requires
        chars_le(a, b),
        chars_le(b, a),
    ensures
        a == b,
    decreases a.len(),
{
    if a.len() == 0 {
        assert(b.len() == 0);
        assert(a =~= b);
    } else {
        assert(b.len() > 0);
        assert(a[0] == b[0]);
        lemma_chars_le_antisym(a.drop_first(), b.drop_first());
        assert forall|k: int| 0 <= k < a.len() implies a[k] == b[k] by {
            if k > 0 {
                assert(a.drop_first()[k - 1] == b.drop_first()[k - 1]);
            }
        }
        assert(a =~= b);
    }
}

proof fn lemma_chars_le_trans(a: Seq<char>, b: Seq<char>, c: Seq<char>)
    requires
        chars_le(a, b),
        chars_le(b, c),
    ensures
        chars_le(a, c),
    decreases a.len(),
{
    if a.len() == 0 || b.len() == 0 || c.len() == 0 {
    } else {
        if a[0] == b[0] && b[0] == c[0] {
            lemma_chars_le_trans(a.drop_first(), b.drop_first(), c.drop_first());
        }
    }
}

/// Lexicographic order on character sequences is a total order.
pub proof fn lemma_chars_le_total_ordering()
    ensures
        total_ordering(chars_le_fn()),
{
    let r = chars_le_fn();
    assert forall|x: Seq<char>| #[trigger] r(x, x) by {
        lemma_chars_le_refl(x);
    }
    assert forall|x: Seq<char>, y: Seq<char>| #[trigger] r(x, y) && #[trigger] r(y, x) implies x
        == y by {
        lemma_chars_le_antisym(x, y);
    }
    assert forall|x: Seq<char>, y: Seq<char>, z: Seq<char>|
        #[trigger] r(x, y) && #[trigger] r(y, z) implies r(x, z) by {
        lemma_chars_le_trans(x, y, z);
    }
    assert forall|x: Seq<char>, y: Seq<char>| #[trigger] r(x, y) || #[trigger] r(y, x) by {
        lemma_chars_le_conn(x, y);
    }
}

/// Decides `chars_le` on two string slices.
pub fn string_le(a: &str, b: &str) -> (r: bool)
    ensures
        r == chars_le(a@, b@),
{
    let alen: usize = a.unicode_len();
    let blen: usize = b.unicode_len();
    let mut i: usize = 0;
    proof {
        assert(a@.skip(0) =~= a@);
        assert(b@.skip(0) =~= b@);
    }
    loop
        invariant
            i <= alen,
            i <= blen,
            alen == a@.len(),
            blen == b@.len(),
            chars_le(a@, b@) == chars_le(a@.skip(i as int), b@.skip(i as int)),
        decreases alen - i,
    {
        if i >= alen {
            assert(a@.skip(i as int).len() == 0);
            return true;
        }
        if i >= blen {
            assert(b@.skip(i as int).len() == 0);
            assert(a@.skip(i as int).len() > 0);
            return false;
        }
        let ca = a.get_char(i);
        let cb = b.get_char(i);
        if ca == cb {
            proof {
                let sa = a@.skip(i as int);
                let sb = b@.skip(i as int);
                assert(sa[0] == ca);
                assert(sb[0] == cb);
                assert(sa.drop_first() =~= a@.skip(i + 1));
                assert(sb.drop_first() =~= b@.skip(i + 1));
            }
            i = i + 1;
        } else {
            proof {
                let sa = a@.skip(i as int);
                let sb = b@.skip(i as int);
                assert(sa[0] == ca);
                assert(sb[0] == cb);
            }
            return ca < cb;
        }
    }
}

fn find_insert_pos(out: &Vec<String>, x: &String) -> (j: usize)
    ensures
        j <= out@.len(),
        forall|k: int| 0 <= k < j ==> chars_le(#[trigger] out@[k]@, x@),
        j < out@.len() ==> !chars_le(out@[j as int]@, x@),
{
    let mut j: usize = 0;
    loop
        invariant
            j <= out@.len(),
            forall|k: int| 0 <= k < j ==> chars_le(#[trigger] out@[k]@, x@),
        decreases out@.len() - j,
    {
        if j >= out.len() {
            return j;
        }
        if !string_le(out[j].as_str(), x.as_str()) {
            return j;
        }
        j = j + 1;
    }
}

/// Sorts strings into lexicographic order.
///
/// The result is pinned to vstd's canonical `sort_by`, so that equal inputs
/// in any order always produce the same output.
pub fn sort_strings(v: &Vec<String>) -> (r: Vec<String>)
    ensures
        views(r@) == views(v@).sort_by(chars_le_fn()),
        r@.len() == v@.len(),
{
    broadcast use vstd::seq_lib::group_to_multiset_ensures;

    let mut out: Vec<String> = Vec::new();
    let mut i: usize = 0;
    proof {
        assert(views(out@) =~= Seq::<Seq<char>>::empty());
        assert(views(v@.subrange(0, 0)) =~= Seq::<Seq<char>>::empty());
        assert(views(out@).to_multiset() =~= views(v@.subrange(0, 0)).to_multiset());
    }
    while i < v.len()
        invariant
            i <= v@.len(),
            sorted_by(views(out@), chars_le_fn()),
            views(out@).to_multiset() == views(v@.subrange(0, i as int)).to_multiset(),
        decreases v@.len() - i,
    {
        let x = v[i].clone();
        let j = find_insert_pos(&out, &x);
        let ghost old_out = out@;
        let ghost xv = x@;
        proof {
            lemma_chars_le_total_ordering();
        }
        out.insert(j, x);
        proof {
            let r = chars_le_fn();
            let vs = views(old_out);
            let nv = views(out@);
            assert(nv =~= vs.insert(j as int, xv)) by {
                assert forall|k: int| 0 <= k < nv.len() implies nv[k] == vs.insert(j as int, xv)[k]
                    by {
                    assert(out@[k] == old_out.insert(j as int, x)[k]);
                }
            }
            if j < vs.len() {
                assert(!chars_le(vs[j as int], xv));
                lemma_chars_le_conn(vs[j as int], xv);
                assert(chars_le(xv, vs[j as int]));
            }
            // the inserted views stay sorted around position j
            assert forall|p: int, q: int| 0 <= p < q < nv.len() implies #[trigger] r(
                nv[p],
                nv[q],
            ) by {
                if q < j {
                    assert(r(vs[p], vs[q]));
                } else if p > j {
                    assert(r(vs[p - 1], vs[q - 1]));
                } else if p == j {
                    // nv[p] is the new element, nv[q] == vs[q - 1]
                    if q - 1 > j {
                        assert(r(vs[j as int], vs[q - 1]));
                        lemma_chars_le_trans(xv, vs[j as int], vs[q - 1]);
                    }
                } else if q == j {
                    assert(chars_le(vs[p], xv));
                } else {
                    // p < j < q, so nv[p] == vs[p] and nv[q] == vs[q - 1]
                    if q - 1 == j {
                        lemma_chars_le_trans(vs[p], xv, vs[j as int]);
                    } else {
                        assert(r(vs[p], vs[q - 1]));
                    }
                }
            }
            // one more input element lands in the multiset
            assert(views(v@.subrange(0, i + 1)) =~= views(v@.subrange(0, i as int)).push(
                v@[i as int]@,
            )) by {
                assert forall|k: int| 0 <= k < views(v@.subrange(0, i + 1)).len() implies views(
                    v@.subrange(0, i + 1),
                )[k] == views(v@.subrange(0, i as int)).push(v@[i as int]@)[k] by {}
            }
            vstd::seq_lib::to_multiset_insert(vs, j as int, xv);
            vstd::seq_lib::to_multiset_build(views(v@.subrange(0, i as int)), v@[i as int]@);
            assert(nv.to_multiset() =~= views(v@.subrange(0, i + 1)).to_multiset());
        }
        i = i + 1;
    }
    proof {
        assert(v@.subrange(0, v@.len() as int) =~= v@);
        lemma_chars_le_total_ordering();
        views(v@).lemma_sort_by_ensures(chars_le_fn());
        lemma_sorted_unique(views(out@), views(v@).sort_by(chars_le_fn()), chars_le_fn());
        assert(views(out@).to_multiset().len() == views(out@).len());
        assert(views(v@).to_multiset().len() == views(v@).len());
    }
    out
}

/// The characters of `parts` joined with `sep` between consecutive parts.
pub open spec fn join_with(parts: Seq<Seq<char>>, sep: Seq<char>) -> Seq<char>
    decreases parts.len(),
{
    if parts.len() == 0 {
        Seq::<char>::empty()
    } else if parts.len() == 1 {
        parts[0]
    } else {
        parts[0] + sep + join_with(parts.drop_first(), sep)
    }
}

proof fn lemma_join_push(parts: Seq<Seq<char>>, x: Seq<char>, sep: Seq<char>)
    ensures
        parts.len() == 0 ==> join_with(parts.push(x), sep) == x,
        parts.len() > 0 ==> join_with(parts.push(x), sep) == join_with(parts, sep) + sep + x,
    decreases parts.len(),
{
    if parts.len() == 0 {
        assert(parts.push(x)[0] == x);
    } else if parts.len() == 1 {
        assert(parts.push(x)[0] == parts[0]);
        assert(parts.push(x).drop_first() =~= seq![x]);
        assert(join_with(seq![x], sep) == x);
        assert(join_with(parts.push(x), sep) =~= join_with(parts, sep) + sep + x);
    } else {
        lemma_join_push(parts.drop_first(), x, sep);
        assert(parts.push(x)[0] == parts[0]);
        assert(parts.push(x).drop_first() =~= parts.drop_first().push(x));
        assert(join_with(parts.push(x), sep) == parts[0] + sep + (join_with(parts.drop_first(), sep)
            + sep + x));
        assert(join_with(parts.push(x), sep) =~= join_with(parts, sep) + sep + x);
    }
}

/// Joins strings with a separator.
pub fn join_strings(parts: &Vec<String>, sep: &str) -> (r: String)
    ensures
        r@ == join_with(views(parts@), sep@),
{
    let mut acc = String::new();
    let mut i: usize = 0;
    proof {
        assert(views(parts@.subrange(0, 0)) =~= Seq::<Seq<char>>::empty());
    }
    while i < parts.len()
        invariant
            i <= parts@.len(),
            acc@ == join_with(views(parts@.subrange(0, i as int)), sep@),
        decreases parts@.len() - i,
    {
        if i > 0 {
            acc.append(sep);
        }
        acc.append(parts[i].as_str());
        proof {
            let pre = views(parts@.subrange(0, i as int));
            lemma_join_push(pre, parts@[i as int]@, sep@);
            assert(views(parts@.subrange(0, i + 1)) =~= pre.push(parts@[i as int]@)) by {
                assert forall|k: int| 0 <= k < views(parts@.subrange(0, i + 1)).len() implies views(
                    parts@.subrange(0, i + 1),
                )[k] == pre.push(parts@[i as int]@)[k] by {}
            }
        }
        i = i + 1;
    }
    proof {
        assert(parts@.subrange(0, parts@.len() as int) =~= parts@);
    }
    acc
}

/// `s` with every trailing occurrence of `c` removed.
pub open spec fn trimmed_end(s: Seq<char>, c: char) -> Seq<char>
    decreases s.len(),
{
    if s.len() > 0 && s.last() == c {
        trimmed_end(s.drop_last(), c)
    } else {
        s
    }
}

/// Removes every trailing occurrence of `c` from `s`.
pub fn trim_end_char(s: &str, c: char) -> (r: String)
    ensures
        r@ == trimmed_end(s@, c),
{
    let mut end: usize = s.unicode_len();
    proof {
        assert(s@.subrange(0, end as int) =~= s@);
    }
    while end > 0 && s.get_char(end - 1) == c
        invariant
            end <= s@.len(),
            trimmed_end(s@, c) == trimmed_end(s@.subrange(0, end as int), c),
        decreases end,
    {
        proof {
            assert(s@.subrange(0, end as int).last() == s@[end - 1]);
            assert(s@.subrange(0, end as int).drop_last() =~= s@.subrange(0, end - 1));
        }
        end = end - 1;
    }
    proof {
        if end > 0 {
            assert(s@.subrange(0, end as int).last() == s@[end - 1]);
        }
        assert(trimmed_end(s@.subrange(0, end as int), c) == s@.subrange(0, end as int));
    }
    s.substring_char(0, end).to_owned()
}

/// The suffix of `s` after the last occurrence of `c`; all of `s` when `c`
/// does not occur.
pub open spec fn after_last(s: Seq<char>, c: char) -> Seq<char>
    decreases s.len(),
{
    if s.len() == 0 {
        s
    } else if s.last() == c {
        Seq::<char>::empty()
    } else {
        after_last(s.drop_last(), c).push(s.last())
    }
}

/// Returns the suffix of `s` after the last occurrence of `c`.
pub fn after_last_char(s: &str, c: char) -> (r: String)
    ensures
        r@ == after_last(s@, c),
{
    let len: usize = s.unicode_len();
    let mut end: usize = len;
    proof {
        assert(s@.subrange(0, len as int) =~= s@);
        assert(s@.skip(len as int) =~= Seq::<char>::empty());
        assert(after_last(s@, c) + Seq::<char>::empty() =~= after_last(s@, c));
    }
    while end > 0 && s.get_char(end - 1) != c
        invariant
            end <= len,
            len == s@.len(),
            after_last(s@, c) == after_last(s@.subrange(0, end as int), c) + s@.skip(end as int),
        decreases end,
    {
        proof {
            let pre = s@.subrange(0, end as int);
            assert(pre.drop_last() =~= s@.subrange(0, end - 1));
            assert(pre.last() == s@[end - 1]);
            assert(after_last(pre, c) == after_last(pre.drop_last(), c).push(pre.last()));
            assert(after_last(pre.drop_last(), c).push(pre.last()) + s@.skip(end as int)
                =~= after_last(pre.drop_last(), c) + s@.skip(end - 1));
        }
        end = end - 1;
    }
    proof {
        if end > 0 {
            assert(s@.subrange(0, end as int).last() == s@[end - 1]);
            assert(after_last(s@.subrange(0, end as int), c) =~= Seq::<char>::empty());
        } else {
            assert(s@.subrange(0, 0) =~= Seq::<char>::empty());
        }
        assert(after_last(s@, c) =~= s@.skip(end as int));
        assert(s@.skip(end as int) =~= s@.subrange(end as int, len as int));
    }
    s.substring_char(end, len).to_owned()
}

/// Whether `p` is a prefix of `s`.
pub open spec fn has_prefix(s: Seq<char>, p: Seq<char>) -> bool {
    p.len() <= s.len() && s.subrange(0, p.len() as int) == p
}

/// Decides whether `p` is a prefix of `s`.
pub fn str_has_prefix(s: &str, p: &str) -> (r: bool)
    ensures
        r == has_prefix(s@, p@),
{
    let slen: usize = s.unicode_len();
    let plen: usize = p.unicode_len();
    if plen > slen {
        return false;
    }
    let mut i: usize = 0;
    loop
        invariant
            i <= plen,
            plen <= slen,
            slen == s@.len(),
            plen == p@.len(),
            forall|k: int| 0 <= k < i ==> s@[k] == p@[k],
        decreases plen - i,
    {
        if i >= plen {
            proof {
                assert(s@.subrange(0, plen as int) =~= p@);
            }
            return true;
        }
        if s.get_char(i) != p.get_char(i) {
            proof {
                assert(s@.subrange(0, plen as int)[i as int] == s@[i as int]);
            }
            return false;
        }
        i = i + 1;
    }
}

/// Decides whether two string slices hold the same characters.
pub fn str_eq(a: &str, b: &str) -> (r: bool)
    ensures
        r == (a@ == b@),
{
    let alen: usize = a.unicode_len();
    let blen: usize = b.unicode_len();
    if alen != blen {
        return false;
    }
    let mut i: usize = 0;
    loop
        invariant
            i <= alen,
            alen == a@.len(),
            alen == b@.len(),
            forall|k: int| 0 <= k < i ==> a@[k] == b@[k],
        decreases alen - i,
    {
        if i >= alen {
            proof {
                assert(a@ =~= b@);
            }
            return true;
        }
        if a.get_char(i) != b.get_char(i) {
            return false;
        }
        i = i + 1;
    }
}

/// Whether `p` occurs as a contiguous run inside `s`.
pub open spec fn has_substring(s: Seq<char>, p: Seq<char>) -> bool {
    exists|i: int| 0 <= i && i + p.len() <= s.len() && #[trigger] s.subrange(i, i + p.len() as int)
        == p
}

fn matches_at(s: &str, p: &str, at: usize) -> (r: bool)
    requires
        at + p@.len() <= s@.len(),
    ensures
        r == (s@.subrange(at as int, at + p@.len() as int) == p@),
{
    let plen: usize = p.unicode_len();
    let slen: usize = s.unicode_len();
    let mut k: usize = 0;
    loop
        invariant
            k <= plen,
            plen == p@.len(),
            slen == s@.len(),
            at + plen <= slen,
            forall|m: int| 0 <= m < k ==> s@[at + m] == p@[m],
        decreases plen - k,
    {
        if k >= plen {
            proof {
                assert(s@.subrange(at as int, at + p@.len() as int) =~= p@);
            }
            return true;
        }
        if s.get_char(at + k) != p.get_char(k) {
            proof {
                assert(s@.subrange(at as int, at + p@.len() as int)[k as int] == s@[at + k]);
            }
            return false;
        }
        k = k + 1;
    }
}

/// Decides whether `p` occurs as a contiguous run inside `s`.
pub fn str_has_substring(s: &str, p: &str) -> (r: bool)
    ensures
        r == has_substring(s@, p@),
{
    let slen: usize = s.unicode_len();
    let plen: usize = p.unicode_len();
    if plen > slen {
        return false;
    }
    let mut i: usize = 0;
    loop
        invariant
            i <= slen - plen,
            plen <= slen,
            slen == s@.len(),
            plen == p@.len(),
            forall|j: int| 0 <= j < i ==> #[trigger] s@.subrange(j, j + p@.len() as int) != p@,
        decreases slen - plen + 1 - i,
    {
        if matches_at(s, p, i) {
            return true;
        }
        if i == slen - plen {
            return false;
        }
        i = i + 1;
    }
}

/// The pieces of `s` between occurrences of the separator `c`.
///
/// Mirrors `str::split`: the result always has one more piece than there are
/// separators, so an empty input yields one empty piece.
pub open spec fn split_at_char(s: Seq<char>, c: char) -> Seq<Seq<char>>
    decreases s.len(),
{
    if s.len() == 0 {
        seq![Seq::<char>::empty()]
    } else if s[0] == c {
        seq![Seq::<char>::empty()] + split_at_char(s.drop_first(), c)
    } else {
        let rest = split_at_char(s.drop_first(), c);
        seq![seq![s[0]] + rest[0]] + rest.drop_first()
    }
}

pub proof fn lemma_split_len_pos(s: Seq<char>, c: char)
    ensures
        split_at_char(s, c).len() >= 1,
    decreases s.len(),
{
    if s.len() > 0 {
        lemma_split_len_pos(s.drop_first(), c);
    }
}

proof fn lemma_split_no_sep(s: Seq<char>, c: char)
    requires
        forall|m: int| 0 <= m < s.len() ==> s[m] != c,
    ensures
        split_at_char(s, c) == seq![s],
    decreases s.len(),
{
    if s.len() == 0 {
        assert(s =~= Seq::<char>::empty());
        assert(split_at_char(s, c) =~= seq![s]);
    } else {
        assert forall|m: int| 0 <= m < s.drop_first().len() implies s.drop_first()[m] != c by {
            assert(s.drop_first()[m] == s[m + 1]);
        }
        lemma_split_no_sep(s.drop_first(), c);
        let rest = split_at_char(s.drop_first(), c);
        assert(rest[0] == s.drop_first());
        assert(seq![s[0]] + s.drop_first() =~= s);
        assert(rest.drop_first() =~= Seq::<Seq<char>>::empty());
        assert(split_at_char(s, c) == seq![seq![s[0]] + rest[0]] + rest.drop_first());
        assert(seq![seq![s[0]] + rest[0]] + rest.drop_first() =~= seq![s]);
    }
}

proof fn lemma_split_first_sep(s: Seq<char>, c: char, k: int)
    requires
        0 <= k < s.len(),
        s[k] == c,
        forall|m: int| 0 <= m < k ==> s[m] != c,
    ensures
        split_at_char(s, c) == seq![s.subrange(0, k)] + split_at_char(
            s.subrange(k + 1, s.len() as int),
            c,
        ),
    decreases k,
{
    if k == 0 {
        assert(s.subrange(0, 0) =~= Seq::<char>::empty());
        assert(s.subrange(1, s.len() as int) =~= s.drop_first());
        assert(split_at_char(s, c) =~= seq![s.subrange(0, 0)] + split_at_char(
            s.subrange(1, s.len() as int),
            c,
        ));
    } else {
        let t = s.drop_first();
        assert(t[k - 1] == s[k]);
        assert forall|m: int| 0 <= m < k - 1 implies t[m] != c by {
            assert(t[m] == s[m + 1]);
        }
        lemma_split_first_sep(t, c, k - 1);
        let rest = split_at_char(t, c);
        lemma_split_len_pos(t.subrange(k, t.len() as int), c);
        assert(rest[0] == t.subrange(0, k - 1));
        assert(rest.drop_first() =~= split_at_char(t.subrange(k, t.len() as int), c));
        assert(seq![s[0]] + t.subrange(0, k - 1) =~= s.subrange(0, k));
        assert(t.subrange(k, t.len() as int) =~= s.subrange(k + 1, s.len() as int));
        assert(split_at_char(s, c) =~= seq![s.subrange(0, k)] + split_at_char(
            s.subrange(k + 1, s.len() as int),
            c,
        ));
    }
}

/// Splits `s` at every occurrence of `c`.
pub fn split_string(s: &str, c: char) -> (r: Vec<String>)
    ensures
        views(r@) == split_at_char(s@, c),
        r@.len() >= 1,
{
    let len: usize = s.unicode_len();
    let mut out: Vec<String> = Vec::new();
    let mut start: usize = 0;
    let mut i: usize = 0;
    proof {
        assert(s@.skip(0) =~= s@);
        assert(views(out@) =~= Seq::<Seq<char>>::empty());
        assert(views(out@) + split_at_char(s@, c) =~= split_at_char(s@, c));
    }
    loop
        invariant
            start <= i <= len,
            len == s@.len(),
            split_at_char(s@, c) == views(out@) + split_at_char(s@.skip(start as int), c),
            forall|m: int| start <= m < i ==> s@[m] != c,
        decreases len - i, len - start,
    {
        if i == len {
            let ghost pre_out = out@;
            let piece = s.substring_char(start, len).to_owned();
            out.push(piece);
            proof {
                let suffix = s@.skip(start as int);
                assert forall|m: int| 0 <= m < suffix.len() implies suffix[m] != c by {
                    assert(suffix[m] == s@[start + m]);
                }
                lemma_split_no_sep(suffix, c);
                assert(suffix =~= s@.subrange(start as int, len as int));
                assert(views(out@) =~= views(pre_out).push(s@.subrange(start as int, len as int)));
                assert(views(pre_out) + split_at_char(suffix, c) =~= views(out@));
            }
            proof {
                lemma_split_len_pos(s@, c);
            }
            return out;
        }
        if s.get_char(i) == c {
            let ghost pre_out = out@;
            let piece = s.substring_char(start, i).to_owned();
            out.push(piece);
            proof {
                let suffix = s@.skip(start as int);
                let k = i - start;
                assert(suffix[k as int] == s@[i as int]);
                assert forall|m: int| 0 <= m < k implies suffix[m] != c by {
                    assert(suffix[m] == s@[start + m]);
                }
                lemma_split_first_sep(suffix, c, k as int);
                assert(suffix.subrange(0, k as int) =~= s@.subrange(start as int, i as int));
                assert(suffix.subrange(k + 1, suffix.len() as int) =~= s@.skip(i + 1));
                assert(views(out@) =~= views(pre_out).push(s@.subrange(start as int, i as int)));
                assert(views(pre_out) + (seq![s@.subrange(start as int, i as int)] + split_at_char(
                    s@.skip(i + 1),
                    c,
                )) =~= views(out@) + split_at_char(s@.skip(i + 1), c));
            }
            start = i + 1;
            i = i + 1;
        } else {
            i = i + 1;
        }
    }
}

/// Whether `c` is an ASCII whitespace character.
pub open spec fn is_space(c: char) -> bool {
    c == ' ' || c == '\t' || c == '\n' || c == '\r'
}

/// `s` with leading ASCII whitespace removed.
pub open spec fn trimmed_front(s: Seq<char>) -> Seq<char>
    decreases s.len(),
{
    if s.len() > 0 && is_space(s[0]) {
        trimmed_front(s.drop_first())
    } else {
        s
    }
}

/// `s` with trailing ASCII whitespace removed.
pub open spec fn trimmed_back(s: Seq<char>) -> Seq<char>
    decreases s.len(),
{
    if s.len() > 0 && is_space(s.last()) {
        trimmed_back(s.drop_last())
    } else {
        s
    }
}

/// `s` with ASCII whitespace removed from both ends.
pub open spec fn trimmed(s: Seq<char>) -> Seq<char> {
    trimmed_back(trimmed_front(s))
}

proof fn lemma_trimmed_front_skip(s: Seq<char>, i: int)
    requires
        0 <= i <= s.len(),
        forall|m: int| 0 <= m < i ==> is_space(s[m]),
    ensures
        trimmed_front(s) == trimmed_front(s.skip(i)),
    decreases i,
{
    if i > 0 {
        assert(s.len() > 0 && is_space(s[0]));
        assert(s.drop_first() =~= s.skip(1));
        assert forall|m: int| 0 <= m < i - 1 implies is_space(s.skip(1)[m]) by {
            assert(s.skip(1)[m] == s[m + 1]);
        }
        lemma_trimmed_front_skip(s.skip(1), i - 1);
        assert(s.skip(1).skip(i - 1) =~= s.skip(i));
    } else {
        assert(s.skip(0) =~= s);
    }
}

proof fn lemma_trimmed_back_prefix(s: Seq<char>, e: int)
    requires
        0 <= e <= s.len(),
        forall|m: int| e <= m < s.len() ==> is_space(s[m]),
    ensures
        trimmed_back(s) == trimmed_back(s.subrange(0, e)),
    decreases s.len() - e,
{
    if e < s.len() {
        assert(is_space(s.last()));
        assert forall|m: int| e <= m < s.drop_last().len() implies is_space(s.drop_last()[m]) by {
            assert(s.drop_last()[m] == s[m]);
        }
        lemma_trimmed_back_prefix(s.drop_last(), e);
        assert(s.drop_last().subrange(0, e) =~= s.subrange(0, e));
    } else {
        assert(s.subrange(0, e) =~= s);
    }
}

/// Removes ASCII whitespace from both ends of `s`.
pub fn trim_spaces(s: &str) -> (r: String)
    ensures
        r@ == trimmed(s@),
{
    let len: usize = s.unicode_len();
    let mut b: usize = 0;
    while b < len && is_space_exec(s.get_char(b))
        invariant
            b <= len,
            len == s@.len(),
            forall|m: int| 0 <= m < b ==> is_space(s@[m]),
        decreases len - b,
    {
        b = b + 1;
    }
    let mut e: usize = len;
    while e > b && is_space_exec(s.get_char(e - 1))
        invariant
            b <= e <= len,
            len == s@.len(),
            forall|m: int| e <= m < len ==> is_space(s@[m]),
        decreases e,
    {
        e = e - 1;
    }
    proof {
        lemma_trimmed_front_skip(s@, b as int);
        let f = s@.skip(b as int);
        assert(b == len || !is_space(s@[b as int]));
        if b < len {
            assert(f[0] == s@[b as int]);
        }
        assert(trimmed_front(f) == f);
        assert forall|m: int| e - b <= m < f.len() implies is_space(f[m]) by {
            assert(f[m] == s@[b + m]);
        }
        lemma_trimmed_back_prefix(f, e - b);
        let g = f.subrange(0, e - b);
        if e > b {
            assert(g.last() == s@[e - 1]);
            assert(!is_space(g.last()));
        }
        assert(trimmed_back(g) == g);
        assert(g =~= s@.subrange(b as int, e as int));
    }
    s.substring_char(b, e).to_owned()
}

fn is_space_exec(c: char) -> (r: bool)
    ensures
        r == is_space(c),
{
    c == ' ' || c == '\t' || c == '\n' || c == '\r'
}

/// The decimal digit character for `d`.
pub open spec fn digit_char(d: nat) -> char {
    if d == 0 {
        '0'
    } else if d == 1 {
        '1'
    } else if d == 2 {
        '2'
    } else if d == 3 {
        '3'
    } else if d == 4 {
        '4'
    } else if d == 5 {
        '5'
    } else if d == 6 {
        '6'
    } else if d == 7 {
        '7'
    } else if d == 8 {
        '8'
    } else {
        '9'
    }
}

/// The decimal rendering of `n`, most significant digit first.
pub open spec fn dec_str(n: nat) -> Seq<char>
    decreases n,
{
    if n < 10 {
        seq![digit_char(n)]
    } else {
        dec_str(n / 10).push(digit_char(n % 10))
    }
}

fn digit_literal(d: u64) -> (r: &'static str)
    requires
        d < 10,
    ensures
        r@ == seq![digit_char(d as nat)],
{
    if d == 0 {
        proof {
            reveal_strlit("0");
        }
        assert("0"@ =~= seq![digit_char(0)]);
        "0"
    } else if d == 1 {
        proof {
            reveal_strlit("1");
        }
        assert("1"@ =~= seq![digit_char(1)]);
        "1"
    } else if d == 2 {
        proof {
            reveal_strlit("2");
        }
        assert("2"@ =~= seq![digit_char(2)]);
        "2"
    } else if d == 3 {
        proof {
            reveal_strlit("3");
        }
        assert("3"@ =~= seq![digit_char(3)]);
        "3"
    } else if d == 4 {
        proof {
            reveal_strlit("4");
        }
        assert("4"@ =~= seq![digit_char(4)]);
        "4"
    } else if d == 5 {
        proof {
            reveal_strlit("5");
        }
        assert("5"@ =~= seq![digit_char(5)]);
        "5"
    } else if d == 6 {
        proof {
            reveal_strlit("6");
        }
        assert("6"@ =~= seq![digit_char(6)]);
        "6"
    } else if d == 7 {
        proof {
            reveal_strlit("7");
        }
        assert("7"@ =~= seq![digit_char(7)]);
        "7"
    } else if d == 8 {
        proof {
            reveal_strlit("8");
        }
        assert("8"@ =~= seq![digit_char(8)]);
        "8"
    } else {
        proof {
            reveal_strlit("9");
        }
        assert("9"@ =~= seq![digit_char(9)]);
        "9"
    }
}

/// Renders `n` in decimal.
pub fn u64_to_string(n: u64) -> (r: String)
    ensures
        r@ == dec_str(n as nat),
    decreases n,
{
    if n < 10 {
        digit_literal(n).to_owned()
    } else {
        let mut s = u64_to_string(n / 10);
        let d = digit_literal(n % 10);
        s.append(d);
        proof {
            assert(dec_str((n / 10) as nat) + seq![digit_char((n % 10) as nat)] =~= dec_str(
                (n / 10) as nat,
            ).push(digit_char((n % 10) as nat)));
        }
        s
    }
}

} // verus!
