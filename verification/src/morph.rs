//! Pairing of the reciprocal vectors of two fields for a morph: equal Miller
//! indices pair with each other, the remaining source slots take the remaining
//! target vectors in order, and what is left of the target is appended while
//! the bank of `MAX_G` slots has room.
use std::collections::HashMap;
use vstd::prelude::*;

verus! {

/// Size of the shader's bank of reciprocal vectors.
pub const MAX_G: usize = 128;

pub open spec fn abs_i(x: i32) -> int {
    if x < 0 {
        -(x as int)
    } else {
        x as int
    }
}

/// Shell of a Miller index: its largest absolute component.
pub open spec fn shell_of(t: [i32; 3]) -> int {
    let a = abs_i(t[0]);
    let b = abs_i(t[1]);
    let c = abs_i(t[2]);
    if a >= b && a >= c {
        a
    } else if b >= c {
        b
    } else {
        c
    }
}

/// `t` comes before `u` in the order h, then k, then l.
pub open spec fn lex_before(t: [i32; 3], u: [i32; 3]) -> bool {
    t[0] < u[0] || (t[0] == u[0] && (t[1] < u[1] || (t[1] == u[1] && t[2] < u[2])))
}

/// `t` lies in one of the shells `1..=max_shell`.
pub open spec fn in_shells(t: [i32; 3], max_shell: int) -> bool {
    1 <= shell_of(t) <= max_shell
}

pub open spec fn triple(h: int, k: int, l: int) -> [i32; 3] {
    [h as i32, k as i32, l as i32]
}

/// Every Miller index of shells `1..=max_shell`, each once, ordered by h,
/// then k, then l.
pub fn hkl_shells(max_shell: i32) -> (out: Vec<[i32; 3]>)
    requires
        max_shell < i32::MAX,
    ensures
        forall|i: int, j: int| 0 <= i < j < out@.len() ==> lex_before(out@[i], out@[j]),
        forall|i: int| 0 <= i < out@.len() ==> in_shells(#[trigger] out@[i], max_shell as int),
        forall|t: [i32; 3]|
            in_shells(t, max_shell as int) ==> exists|i: int| 0 <= i < out@.len() && out@[i] == t,
{
    let mut out: Vec<[i32; 3]> = Vec::new();
    if max_shell < 1 {
        assert forall|t: [i32; 3]| in_shells(t, max_shell as int) implies exists|i: int|
            0 <= i < out@.len() && out@[i] == t by {}
        return out;
    }
    let r: i64 = max_shell as i64 + 1;
    let mut h: i64 = -r;
    while h <= r
        invariant
            r == max_shell + 1,
            1 <= max_shell < i32::MAX,
            -r <= h <= r + 1,
            forall|i: int, j: int| 0 <= i < j < out@.len() ==> lex_before(out@[i], out@[j]),
            forall|i: int| 0 <= i < out@.len() ==> in_shells(#[trigger] out@[i], max_shell as int),
            forall|i: int| 0 <= i < out@.len() ==> (#[trigger] out@[i])[0] < h,
            forall|t: [i32; 3]|
                in_shells(t, max_shell as int) && t[0] < h ==> exists|i: int|
                    0 <= i < out@.len() && out@[i] == t,
        decreases r + 1 - h,
    {
        let mut k: i64 = -r;
        while k <= r
            invariant
                r == max_shell + 1,
                1 <= max_shell < i32::MAX,
                -r <= h <= r,
                -r <= k <= r + 1,
                forall|i: int, j: int| 0 <= i < j < out@.len() ==> lex_before(out@[i], out@[j]),
                forall|i: int| 0 <= i < out@.len() ==> in_shells(#[trigger] out@[i], max_shell as int),
                forall|i: int|
                    0 <= i < out@.len() ==> (#[trigger] out@[i])[0] < h || (out@[i][0] == h
                        && out@[i][1] < k),
                forall|t: [i32; 3]|
                    in_shells(t, max_shell as int) && (t[0] < h || (t[0] == h && t[1] < k))
                        ==> exists|i: int| 0 <= i < out@.len() && out@[i] == t,
            decreases r + 1 - k,
        {
            let mut l: i64 = -r;
            while l <= r
                invariant
                    r == max_shell + 1,
                    1 <= max_shell < i32::MAX,
                    -r <= h <= r,
                    -r <= k <= r,
                    -r <= l <= r + 1,
                    forall|i: int, j: int|
                        0 <= i < j < out@.len() ==> lex_before(out@[i], out@[j]),
                    forall|i: int|
                        0 <= i < out@.len() ==> in_shells(#[trigger] out@[i], max_shell as int),
                    forall|i: int|
                        0 <= i < out@.len() ==> (#[trigger] out@[i])[0] < h || (out@[i][0] == h
                            && (out@[i][1] < k || (out@[i][1] == k && out@[i][2] < l))),
                    forall|t: [i32; 3]|
                        in_shells(t, max_shell as int) && (t[0] < h || (t[0] == h && (t[1] < k || (
                        t[1] == k && t[2] < l)))) ==> exists|i: int|
                            0 <= i < out@.len() && out@[i] == t,
                decreases r + 1 - l,
            {
                let ah = if h < 0 { -h } else { h };
                let ak = if k < 0 { -k } else { k };
                let al = if l < 0 { -l } else { l };
                let m = if ah >= ak && ah >= al {
                    ah
                } else if ak >= al {
                    ak
                } else {
                    al
                };
                let t: [i32; 3] = [h as i32, k as i32, l as i32];
                assert(t[0] == h && t[1] == k && t[2] == l);
                assert(shell_of(t) == m);
                let ghost before = out@;
                if m != 0 && m <= max_shell as i64 {
                    out.push(t);
                    assert forall|u: [i32; 3]|
                        in_shells(u, max_shell as int) && (u[0] < h || (u[0] == h && (u[1] < k
                            || (u[1] == k && u[2] < l + 1)))) implies exists|i: int|
                        0 <= i < out@.len() && out@[i] == u by {
                        if u[0] == h && u[1] == k && u[2] == l {
                            assert(u =~= t);
                            assert(out@[before.len() as int] == u);
                        } else {
                            let i = choose|i: int| 0 <= i < before.len() && before[i] == u;
                            assert(out@[i] == u);
                        }
                    }
                } else {
                    assert forall|u: [i32; 3]|
                        in_shells(u, max_shell as int) && (u[0] < h || (u[0] == h && (u[1] < k
                            || (u[1] == k && u[2] < l + 1)))) implies exists|i: int|
                        0 <= i < out@.len() && out@[i] == u by {
                        if u[0] == h && u[1] == k && u[2] == l {
                            assert(u =~= t);
                        }
                    }
                }
                l = l + 1;
            }
            k = k + 1;
        }
        h = h + 1;
    }
    out
}

/// One slot of a morph: the source vector and the target vector it becomes,
/// by their indices in the two fields.
#[derive(Clone, Copy, PartialEq, Eq, Debug, Structural)]
pub struct MorphPair {
    pub from: Option<usize>,
    pub to: Option<usize>,
}

/// Last index below `m` at which `to` holds the Miller index `h`.
pub open spec fn last_match(to: Seq<[i32; 3]>, h: [i32; 3], m: int) -> Option<int>
    decreases m,
{
    if m <= 0 {
        None
    } else if to[m - 1]@ == h@ {
        Some(m - 1)
    } else {
        last_match(to, h, m - 1)
    }
}

/// The target vector with the same Miller index as source vector `i` (the
/// last one when the target repeats it).
pub open spec fn matched(from: Seq<[i32; 3]>, to: Seq<[i32; 3]>, i: int) -> Option<int> {
    last_match(to, from[i], to.len() as int)
}

/// Target vector `j` is the match of some source vector.
pub open spec fn claimed(from: Seq<[i32; 3]>, to: Seq<[i32; 3]>, j: int) -> bool {
    exists|i: int| 0 <= i < from.len() && matched(from, to, i) == Some(j)
}

/// The unmatched target indices below `m`, in increasing order.
pub open spec fn unclaimed_upto(from: Seq<[i32; 3]>, to: Seq<[i32; 3]>, m: int) -> Seq<int>
    decreases m,
{
    if m <= 0 {
        Seq::empty()
    } else if claimed(from, to, m - 1) {
        unclaimed_upto(from, to, m - 1)
    } else {
        unclaimed_upto(from, to, m - 1).push(m - 1)
    }
}

/// The unmatched target indices, in increasing order.
pub open spec fn unclaimed(from: Seq<[i32; 3]>, to: Seq<[i32; 3]>) -> Seq<int> {
    unclaimed_upto(from, to, to.len() as int)
}

/// Number of source vectors below `m` without a match.
pub open spec fn open_count(from: Seq<[i32; 3]>, to: Seq<[i32; 3]>, m: int) -> int
    decreases m,
{
    if m <= 0 {
        0
    } else {
        open_count(from, to, m - 1) + if matched(from, to, m - 1) is None {
            1int
        } else {
            0int
        }
    }
}

/// Target of source slot `i`: its match, or else the next unmatched target
/// vector in order, if any is left.
pub open spec fn morph_target(from: Seq<[i32; 3]>, to: Seq<[i32; 3]>, i: int) -> Option<int> {
    match matched(from, to, i) {
        Some(j) => Some(j),
        None => {
            let r = open_count(from, to, i);
            if r < unclaimed(from, to).len() {
                Some(unclaimed(from, to)[r])
            } else {
                None
            }
        },
    }
}

/// Unmatched target vectors handed to source slots.
pub open spec fn reused(from: Seq<[i32; 3]>, to: Seq<[i32; 3]>) -> int {
    let c = open_count(from, to, from.len() as int);
    if c < unclaimed(from, to).len() {
        c
    } else {
        unclaimed(from, to).len() as int
    }
}

/// Slots left in the bank after the source vectors.
pub open spec fn room(n_from: int) -> int {
    if n_from < MAX_G {
        MAX_G - n_from
    } else {
        0
    }
}

/// At most the first `k` elements of `s`.
pub open spec fn at_most(s: Seq<int>, k: int) -> Seq<int> {
    if s.len() <= k {
        s
    } else {
        s.take(k)
    }
}

/// Target vectors appended after the source slots, in order.
pub open spec fn morph_extra(from: Seq<[i32; 3]>, to: Seq<[i32; 3]>) -> Seq<int> {
    at_most(unclaimed(from, to).skip(reused(from, to)), room(from.len() as int))
}

/// `pairs` is the morph pairing of `from` onto `to`.
pub open spec fn is_morph_pairing(from: Seq<[i32; 3]>, to: Seq<[i32; 3]>, pairs: Seq<MorphPair>) -> bool {
    &&& pairs.len() == from.len() + morph_extra(from, to).len()
    &&& forall|i: int|
        0 <= i < from.len() ==> (#[trigger] pairs[i]).from == Some(i as usize) && pairs[i].to == match morph_target(from, to, i) {
            Some(j) => Some(j as usize),
            None => None::<usize>,
        }
    &&& forall|q: int|
        0 <= q < morph_extra(from, to).len() ==> (#[trigger] pairs[from.len() + q]).from == None::<usize>
            && pairs[from.len() + q].to == Some(morph_extra(from, to)[q] as usize)
}

proof fn lemma_unclaimed_prefix(from: Seq<[i32; 3]>, to: Seq<[i32; 3]>, m: int, m2: int)
    requires
        0 <= m <= m2,
    ensures
        unclaimed_upto(from, to, m).len() <= unclaimed_upto(from, to, m2).len(),
        unclaimed_upto(from, to, m2).subrange(0, unclaimed_upto(from, to, m).len() as int)
            == unclaimed_upto(from, to, m),
    decreases m2 - m,
{
    if m < m2 {
        lemma_unclaimed_prefix(from, to, m, m2 - 1);
        let a = unclaimed_upto(from, to, m);
        let b = unclaimed_upto(from, to, m2 - 1);
        let c = unclaimed_upto(from, to, m2);
        assert(c.subrange(0, a.len() as int) =~= b.subrange(0, a.len() as int));
    } else {
        assert(unclaimed_upto(from, to, m2).subrange(0, unclaimed_upto(from, to, m2).len() as int)
            =~= unclaimed_upto(from, to, m2));
    }
}

proof fn lemma_open_count_bounds(from: Seq<[i32; 3]>, to: Seq<[i32; 3]>, m: int)
    requires
        0 <= m,
    ensures
        0 <= open_count(from, to, m) <= m,
    decreases m,
{
    if m > 0 {
        lemma_open_count_bounds(from, to, m - 1);
    }
}

proof fn lemma_last_match_bounds(to: Seq<[i32; 3]>, h: [i32; 3], m: int)
    ensures
        last_match(to, h, m) matches Some(j) ==> 0 <= j < m,
    decreases m,
{
    if m > 0 {
        lemma_last_match_bounds(to, h, m - 1);
    }
}

proof fn lemma_last_match_equal(to: Seq<[i32; 3]>, h: [i32; 3], m: int)
    ensures
        last_match(to, h, m) matches Some(j) ==> to[j]@ == h@,
    decreases m,
{
    if m > 0 {
        lemma_last_match_equal(to, h, m - 1);
    }
}

/// A source vector paired by Miller index is paired with a target vector of
/// the same Miller index.
pub proof fn law_matches_share_miller_index(
    from: Seq<[i32; 3]>,
    to: Seq<[i32; 3]>,
    pairs: Seq<MorphPair>,
    i: int,
)
    requires
        is_morph_pairing(from, to, pairs),
        0 <= i < from.len(),
        to.len() <= usize::MAX,
        matched(from, to, i) is Some,
    ensures
        pairs[i].to matches Some(j) && to[j as int]@ == from[i]@,
{
    lemma_last_match_equal(to, from[i], to.len() as int);
    lemma_last_match_bounds(to, from[i], to.len() as int);
    assert(pairs[i].from == Some(i as usize));
}

/// The source vectors keep their order in the first slots, and a source of
/// at most `MAX_G` vectors never yields more than `MAX_G` slots.
pub proof fn law_morph_fits_bank(from: Seq<[i32; 3]>, to: Seq<[i32; 3]>, pairs: Seq<MorphPair>)
    requires
        is_morph_pairing(from, to, pairs),
    ensures
        forall|i: int| 0 <= i < from.len() ==> (#[trigger] pairs[i]).from == Some(i as usize),
        from.len() <= MAX_G ==> pairs.len() <= MAX_G,
        pairs.len() >= from.len(),
{
}

/// Source vectors below `m` that have a match.
pub open spec fn matched_set(from: Seq<[i32; 3]>, to: Seq<[i32; 3]>, m: int) -> Set<int> {
    Set::new(|i: int| 0 <= i < m && matched(from, to, i) is Some)
}

/// Target vectors below `m` that are some source's match.
pub open spec fn claimed_set(from: Seq<[i32; 3]>, to: Seq<[i32; 3]>, m: int) -> Set<int> {
    Set::new(|j: int| 0 <= j < m && claimed(from, to, j))
}

proof fn lemma_matched_set_len(from: Seq<[i32; 3]>, to: Seq<[i32; 3]>, m: int)
    requires
        0 <= m,
    ensures
        matched_set(from, to, m).finite(),
        matched_set(from, to, m).len() + open_count(from, to, m) == m,
    decreases m,
{
    if m == 0 {
        assert(matched_set(from, to, 0) =~= Set::empty());
    } else {
        lemma_matched_set_len(from, to, m - 1);
        if matched(from, to, m - 1) is Some {
            assert(matched_set(from, to, m) =~= matched_set(from, to, m - 1).insert(m - 1));
        } else {
            assert(matched_set(from, to, m) =~= matched_set(from, to, m - 1));
        }
    }
}

proof fn lemma_claimed_set_len(from: Seq<[i32; 3]>, to: Seq<[i32; 3]>, m: int)
    requires
        0 <= m,
    ensures
        claimed_set(from, to, m).finite(),
        claimed_set(from, to, m).len() + unclaimed_upto(from, to, m).len() == m,
    decreases m,
{
    if m == 0 {
        assert(claimed_set(from, to, 0) =~= Set::empty());
    } else {
        lemma_claimed_set_len(from, to, m - 1);
        if claimed(from, to, m - 1) {
            assert(claimed_set(from, to, m) =~= claimed_set(from, to, m - 1).insert(m - 1));
        } else {
            assert(claimed_set(from, to, m) =~= claimed_set(from, to, m - 1));
        }
    }
}

proof fn lemma_unclaimed_contains(from: Seq<[i32; 3]>, to: Seq<[i32; 3]>, m: int, j: int)
    requires
        0 <= j < m,
        !claimed(from, to, j),
    ensures
        exists|p: int|
            0 <= p < unclaimed_upto(from, to, m).len() && #[trigger] unclaimed_upto(from, to, m)[p]
                == j,
    decreases m,
{
    if j == m - 1 {
        let p = unclaimed_upto(from, to, m - 1).len() as int;
        assert(unclaimed_upto(from, to, m)[p] == j);
    } else {
        lemma_unclaimed_contains(from, to, m - 1, j);
        let p = choose|p: int|
            0 <= p < unclaimed_upto(from, to, m - 1).len() && #[trigger] unclaimed_upto(
                from,
                to,
                m - 1,
            )[p] == j;
        assert(unclaimed_upto(from, to, m)[p] == j);
    }
}

proof fn lemma_open_slot(from: Seq<[i32; 3]>, to: Seq<[i32; 3]>, m: int, p: int)
    requires
        0 <= p < open_count(from, to, m),
    ensures
        exists|i: int|
            0 <= i < m && matched(from, to, i) is None && open_count(from, to, i) == p,
    decreases m,
{
    if m > 0 {
        if p < open_count(from, to, m - 1) {
            lemma_open_slot(from, to, m - 1, p);
        } else {
            assert(matched(from, to, m - 1) is None && open_count(from, to, m - 1) == p);
        }
    }
}

/// With distinct source Miller indices, each matched source claims its own
/// target, so the unmatched targets are the targets minus the matched sources.
proof fn lemma_unclaimed_len(from: Seq<[i32; 3]>, to: Seq<[i32; 3]>)
    requires
        forall|i: int, k: int| 0 <= i < k < from.len() ==> from[i]@ != from[k]@,
    ensures
        0 <= open_count(from, to, from.len() as int) <= from.len(),
        unclaimed(from, to).len() == to.len() - (from.len() - open_count(from, to, from.len() as int)),
{
    let nf = from.len() as int;
    let nt = to.len() as int;
    lemma_open_count_bounds(from, to, nf);
    lemma_matched_set_len(from, to, nf);
    lemma_claimed_set_len(from, to, nt);
    let sm = matched_set(from, to, nf);
    let f = |i: int| matched(from, to, i)->0;
    assert forall|a: int, b: int| sm.contains(a) && sm.contains(b) && #[trigger] f(a) == #[trigger] f(b) implies a == b by {
        lemma_last_match_equal(to, from[a], nt);
        lemma_last_match_equal(to, from[b], nt);
        if a < b {
            assert(from[a]@ != from[b]@);
        } else if b < a {
            assert(from[b]@ != from[a]@);
        }
    }
    let img = sm.map(f);
    vstd::set_lib::lemma_map_size(sm, img, f);
    assert forall|j: int| img.contains(j) <==> claimed_set(from, to, nt).contains(j) by {
        if img.contains(j) {
            let i = choose|i: int| sm.contains(i) && f(i) == j;
            lemma_last_match_bounds(to, from[i], nt);
            assert(0 <= i < from.len() && matched(from, to, i) == Some(j));
        }
        if claimed_set(from, to, nt).contains(j) {
            let i = choose|i: int| 0 <= i < from.len() && matched(from, to, i) == Some(j);
            assert(sm.contains(i) && f(i) == j);
        }
    }
    assert(img =~= claimed_set(from, to, nt));
}

/// Some slot of `pairs` morphs into target vector `j`.
pub open spec fn target_kept(pairs: Seq<MorphPair>, j: int) -> bool {
    exists|k: int| 0 <= k < pairs.len() && (#[trigger] pairs[k]).to == Some(j as usize)
}

/// With distinct source Miller indices, both fields of at most `MAX_G`
/// vectors keep every vector of the target: each target index is some slot's
/// target (and each source index is its own slot's source).
pub proof fn law_morph_keeps_every_target(
    from: Seq<[i32; 3]>,
    to: Seq<[i32; 3]>,
    pairs: Seq<MorphPair>,
)
    requires
        is_morph_pairing(from, to, pairs),
        from.len() <= MAX_G,
        to.len() <= MAX_G,
        forall|i: int, k: int| 0 <= i < k < from.len() ==> from[i]@ != from[k]@,
    ensures
        forall|j: int| 0 <= j < to.len() ==> #[trigger] target_kept(pairs, j),
{
    let nf = from.len() as int;
    let nt = to.len() as int;
    let u = unclaimed(from, to);
    let c = open_count(from, to, nf);
    lemma_unclaimed_len(from, to);
    assert forall|j: int| 0 <= j < to.len() implies #[trigger] target_kept(pairs, j) by {
        if claimed(from, to, j) {
            let i = choose|i: int| 0 <= i < from.len() && matched(from, to, i) == Some(j);
            assert(pairs[i].from == Some(i as usize));
            assert(pairs[i].to == Some(j as usize));
        } else {
            lemma_unclaimed_contains(from, to, nt, j);
            let p = choose|p: int| 0 <= p < u.len() && u[p] == j;
            if p < c {
                lemma_open_slot(from, to, nf, p);
                let i = choose|i: int|
                    0 <= i < nf && matched(from, to, i) is None && open_count(from, to, i) == p;
                assert(pairs[i].from == Some(i as usize));
                assert(pairs[i].to == Some(j as usize));
            } else {
                let q = p - c;
                assert(reused(from, to) == c);
                assert(u.skip(c).len() == u.len() - c);
                assert(u.len() - c <= room(nf));
                assert(morph_extra(from, to) =~= u.skip(c));
                assert(morph_extra(from, to)[q] == j);
                assert(pairs[nf + q].to == Some(j as usize));
            }
        }
    }
}

/// With distinct source Miller indices, the morph has one slot per vector of
/// the larger field: `max(|from|, |to|)` slots while the target fits the bank
/// of `MAX_G`, and `max(|from|, MAX_G)` when it does not.
pub proof fn law_morph_slot_count(from: Seq<[i32; 3]>, to: Seq<[i32; 3]>, pairs: Seq<MorphPair>)
    requires
        is_morph_pairing(from, to, pairs),
        forall|i: int, k: int| 0 <= i < k < from.len() ==> from[i]@ != from[k]@,
    ensures
        to.len() <= MAX_G ==> pairs.len() == if from.len() >= to.len() {
            from.len()
        } else {
            to.len()
        },
        to.len() > MAX_G ==> pairs.len() == if from.len() >= MAX_G {
            from.len()
        } else {
            MAX_G as nat
        },
{
    let nf = from.len() as int;
    let u = unclaimed(from, to);
    let c = open_count(from, to, nf);
    lemma_unclaimed_len(from, to);
    if c < u.len() {
        assert(reused(from, to) == c);
    } else {
        assert(reused(from, to) == u.len());
    }
    assert(u.skip(reused(from, to)).len() == u.len() - reused(from, to));
}

proof fn lemma_unclaimed_sorted(from: Seq<[i32; 3]>, to: Seq<[i32; 3]>, m: int)
    requires
        0 <= m,
    ensures
        forall|p: int|
            0 <= p < unclaimed_upto(from, to, m).len() ==> 0 <= #[trigger] unclaimed_upto(
                from,
                to,
                m,
            )[p] < m && !claimed(from, to, unclaimed_upto(from, to, m)[p]),
        forall|p: int, q: int|
            0 <= p < q < unclaimed_upto(from, to, m).len() ==> #[trigger] unclaimed_upto(
                from,
                to,
                m,
            )[p] < #[trigger] unclaimed_upto(from, to, m)[q],
    decreases m,
{
    if m > 0 {
        lemma_unclaimed_sorted(from, to, m - 1);
        let prev = unclaimed_upto(from, to, m - 1);
        let cur = unclaimed_upto(from, to, m);
        if !claimed(from, to, m - 1) {
            assert(cur == prev.push(m - 1));
            assert forall|p: int| 0 <= p < cur.len() implies 0 <= #[trigger] cur[p] < m && !claimed(
                from,
                to,
                cur[p],
            ) by {
                if p < prev.len() {
                    assert(cur[p] == prev[p]);
                }
            }
            assert forall|p: int, q: int| 0 <= p < q < cur.len() implies #[trigger] cur[p]
                < #[trigger] cur[q] by {
                assert(cur[p] == prev[p]);
                if q < prev.len() {
                    assert(cur[q] == prev[q]);
                }
            }
        }
    }
}

proof fn lemma_open_count_grows(from: Seq<[i32; 3]>, to: Seq<[i32; 3]>, i: int, i2: int)
    requires
        0 <= i < i2,
    ensures
        open_count(from, to, i2) >= open_count(from, to, i) + if matched(from, to, i) is None {
            1int
        } else {
            0int
        },
    decreases i2 - i,
{
    if i2 > i + 1 {
        lemma_open_count_grows(from, to, i, i2 - 1);
    }
}

/// With distinct source Miller indices, no target vector is handed to two
/// slots of a morph.
pub proof fn law_morph_targets_distinct(
    from: Seq<[i32; 3]>,
    to: Seq<[i32; 3]>,
    pairs: Seq<MorphPair>,
    k1: int,
    k2: int,
)
    requires
        is_morph_pairing(from, to, pairs),
        to.len() <= usize::MAX,
        forall|i: int, k: int| 0 <= i < k < from.len() ==> from[i]@ != from[k]@,
        0 <= k1 < k2 < pairs.len(),
        pairs[k1].to is Some,
        pairs[k2].to is Some,
    ensures
        pairs[k1].to != pairs[k2].to,
{
    let nf = from.len() as int;
    let nt = to.len() as int;
    let u = unclaimed(from, to);
    let c = open_count(from, to, nf);
    lemma_unclaimed_sorted(from, to, nt);
    lemma_open_count_bounds(from, to, nf);
    let r = reused(from, to);
    let ex = morph_extra(from, to);
    assert(u.len() >= r);
    assert(ex.len() <= u.len() - r);
    assert forall|q: int| 0 <= q < ex.len() implies #[trigger] ex[q] == u[r + q] by {}
    // Slot targets as integers: a source slot's morph target, or an
    // appended unmatched target.
    if k1 < nf {
        assert(pairs[k1].from == Some(k1 as usize));
    } else {
        assert(pairs[nf + (k1 - nf)].from == None::<usize>);
    }
    if k2 < nf {
        assert(pairs[k2].from == Some(k2 as usize));
    } else {
        assert(pairs[nf + (k2 - nf)].from == None::<usize>);
    }
    if k2 < nf {
        lemma_last_match_equal(to, from[k1], nt);
        lemma_last_match_equal(to, from[k2], nt);
        lemma_last_match_bounds(to, from[k1], nt);
        lemma_last_match_bounds(to, from[k2], nt);
        match (matched(from, to, k1), matched(from, to, k2)) {
            (Some(j1), Some(j2)) => {
                assert(from[k1]@ != from[k2]@);
                assert(j1 != j2);
            },
            (Some(j1), None) => {
                assert(claimed(from, to, j1));
                lemma_open_count_bounds(from, to, k2);
                let p2 = open_count(from, to, k2);
                assert(p2 < u.len());
                assert(!claimed(from, to, u[p2]));
            },
            (None, Some(j2)) => {
                assert(claimed(from, to, j2));
                lemma_open_count_bounds(from, to, k1);
                let p1 = open_count(from, to, k1);
                assert(p1 < u.len());
                assert(!claimed(from, to, u[p1]));
            },
            (None, None) => {
                lemma_open_count_grows(from, to, k1, k2);
                lemma_open_count_bounds(from, to, k1);
                let p1 = open_count(from, to, k1);
                let p2 = open_count(from, to, k2);
                assert(u[p1] < u[p2]);
            },
        }
    } else if k1 < nf {
        let q2 = k2 - nf;
        lemma_last_match_bounds(to, from[k1], nt);
        match matched(from, to, k1) {
            Some(j1) => {
                assert(claimed(from, to, j1));
                assert(!claimed(from, to, u[r + q2]));
            },
            None => {
                lemma_open_count_grows(from, to, k1, nf);
                lemma_open_count_bounds(from, to, k1);
                let p1 = open_count(from, to, k1);
                assert(p1 < r);
                assert(u[p1] < u[r + q2]);
            },
        }
    } else {
        let q1 = k1 - nf;
        let q2 = k2 - nf;
        assert(u[r + q1] < u[r + q2]);
    }
}

/// The offset of a Miller index component into `0..2^32`.
pub open spec fn biased(x: i32) -> int {
    x + 0x8000_0000
}

/// A Miller index packed into one integer, 32 bits per component.
pub open spec fn hkl_key(t: [i32; 3]) -> u128 {
    (biased(t@[0]) * 0x1_0000_0000_0000_0000 + biased(t@[1]) * 0x1_0000_0000 + biased(t@[2])) as u128
}

fn hkl_key_of(t: [i32; 3]) -> (k: u128)
    ensures
        k == hkl_key(t),
{
    let a: u128 = (t[0] as i64 + 0x8000_0000) as u128;
    let b: u128 = (t[1] as i64 + 0x8000_0000) as u128;
    let c: u128 = (t[2] as i64 + 0x8000_0000) as u128;
    a * 0x1_0000_0000_0000_0000 + b * 0x1_0000_0000 + c
}

/// Two Miller indices with the same key are the same index.
proof fn lemma_hkl_key_injective(t: [i32; 3], u: [i32; 3])
    requires
        hkl_key(t) == hkl_key(u),
    ensures
        t@ == u@,
{
    let (a, b, c) = (biased(t@[0]), biased(t@[1]), biased(t@[2]));
    let (x, y, z) = (biased(u@[0]), biased(u@[1]), biased(u@[2]));
    assert(a * 0x1_0000_0000_0000_0000 + b * 0x1_0000_0000 + c == x * 0x1_0000_0000_0000_0000 + y
        * 0x1_0000_0000 + z);
    assert(a == x && b == y && c == z) by (nonlinear_arith)
        requires
            0 <= a < 0x1_0000_0000,
            0 <= b < 0x1_0000_0000,
            0 <= c < 0x1_0000_0000,
            0 <= x < 0x1_0000_0000,
            0 <= y < 0x1_0000_0000,
            0 <= z < 0x1_0000_0000,
            a * 0x1_0000_0000_0000_0000 + b * 0x1_0000_0000 + c == x * 0x1_0000_0000_0000_0000 + y
                * 0x1_0000_0000 + z,
    ;
    assert(t@ =~= u@);
}

/// The lookup table that `morph_pairs` builds over the first `m` targets:
/// each Miller index maps to its last position among them.
pub open spec fn indexes_targets(by_hkl: Map<u128, usize>, to: Seq<[i32; 3]>, m: int) -> bool {
    forall|h: [i32; 3]|
        match #[trigger] last_match(to, h, m) {
            Some(i) => by_hkl.contains_key(hkl_key(h)) && by_hkl[hkl_key(h)] == i,
            None => !by_hkl.contains_key(hkl_key(h)),
        }
}

pub open spec fn opt_index(o: Option<int>) -> Option<usize> {
    match o {
        Some(j) => Some(j as usize),
        None => None,
    }
}

/// Unmatched targets below `j` past the first `a` of them.
pub open spec fn leftover_upto(from: Seq<[i32; 3]>, to: Seq<[i32; 3]>, j: int, a: int) -> Seq<int> {
    if unclaimed_upto(from, to, j).len() >= a {
        unclaimed_upto(from, to, j).skip(a)
    } else {
        Seq::empty()
    }
}

/// Pairs every vector of `from` with its morph target in `to`, then appends
/// the unpaired target vectors while fewer than `MAX_G` slots are used.
pub fn morph_pairs(from: &Vec<[i32; 3]>, to: &Vec<[i32; 3]>) -> (pairs: Vec<MorphPair>)
    ensures
        is_morph_pairing(from@, to@, pairs@),
{
    broadcast use vstd::std_specs::hash::group_hash_axioms;

    let ghost f = from@;
    let ghost t = to@;
    let nf = from.len();
    let nt = to.len();
    let mut used: Vec<bool> = Vec::new();
    while used.len() < nt
        invariant
            used@.len() <= nt,
            forall|j: int| 0 <= j < used@.len() ==> !used@[j],
        decreases nt - used@.len(),
    {
        used.push(false);
    }
    // Target positions by Miller index; a repeated index keeps its last position.
    let mut to_by_hkl: HashMap<u128, usize> = HashMap::with_capacity(nt);
    let mut m: usize = 0;
    while m < nt
        invariant
            nt == t.len(),
            t == to@,
            m <= nt,
            indexes_targets(to_by_hkl@, t, m as int),
        decreases nt - m,
    {
        let key = hkl_key_of(to[m]);
        to_by_hkl.insert(key, m);
        assert forall|h: [i32; 3]| #![trigger last_match(t, h, m + 1)]
            match last_match(t, h, m + 1) {
                Some(i) => to_by_hkl@.contains_key(hkl_key(h)) && to_by_hkl@[hkl_key(h)] == i,
                None => !to_by_hkl@.contains_key(hkl_key(h)),
            } by {
            if t[m as int]@ == h@ {
                assert(hkl_key(h) == key);
            } else {
                if hkl_key(h) == key {
                    lemma_hkl_key_injective(h, t[m as int]);
                }
                assert(last_match(t, h, m as int) == last_match(t, h, m + 1));
            }
        }
        m = m + 1;
    }
    // Matches by Miller index, in source order.
    let mut pairs: Vec<MorphPair> = Vec::new();
    let mut i: usize = 0;
    while i < nf
        invariant
            nf == f.len(),
            nt == t.len(),
            f == from@,
            t == to@,
            i <= nf,
            pairs@.len() == i,
            used@.len() == nt,
            indexes_targets(to_by_hkl@, t, nt as int),
            forall|k: int|
                0 <= k < i ==> (#[trigger] pairs@[k]).from == Some(k as usize) && pairs@[k].to
                    == opt_index(matched(f, t, k)),
            forall|j: int|
                0 <= j < nt ==> (#[trigger] used@[j] <==> exists|k: int|
                    0 <= k < i && matched(f, t, k) == Some(j)),
        decreases nf - i,
    {
        let hit = to_by_hkl.get(&hkl_key_of(from[i]));
        let m = match hit {
            Some(j) => Some(*j),
            None => None,
        };
        proof {
            lemma_last_match_bounds(t, f[i as int], nt as int);
        }
        if let Some(j) = m {
            used.set(j, true);
        }
        pairs.push(MorphPair { from: Some(i), to: m });
        assert forall|j: int| 0 <= j < nt implies (#[trigger] used@[j] <==> exists|k: int|
            0 <= k < i + 1 && matched(f, t, k) == Some(j)) by {
            if matched(f, t, i as int) == Some(j) {
                assert(0 <= i < i + 1 && matched(f, t, i as int) == Some(j));
            }
            if exists|k: int| 0 <= k < i + 1 && matched(f, t, k) == Some(j) {
                let k = choose|k: int| 0 <= k < i + 1 && matched(f, t, k) == Some(j);
                if k < i {
                    assert(0 <= k < i && matched(f, t, k) == Some(j));
                }
            }
        }
        i = i + 1;
    }
    assert forall|j: int| 0 <= j < nt implies (#[trigger] used@[j] <==> claimed(f, t, j)) by {}
    // Source slots without a match take the unmatched targets in order.
    let ghost u = unclaimed(f, t);
    proof {
        lemma_unclaimed_prefix(f, t, 0, nt as int);
    }
    let mut next_to: usize = 0;
    let mut idx: usize = 0;
    while idx < nf
        invariant
            nf == f.len(),
            nt == t.len(),
            f == from@,
            t == to@,
            u == unclaimed(f, t),
            idx <= nf,
            next_to <= nt,
            pairs@.len() == nf,
            used@.len() == nt,
            forall|k: int| 0 <= k < nf ==> (#[trigger] pairs@[k]).from == Some(k as usize),
            forall|k: int| 0 <= k < idx ==> (#[trigger] pairs@[k]).to == opt_index(morph_target(f, t, k)),
            forall|k: int| idx <= k < nf ==> (#[trigger] pairs@[k]).to == opt_index(matched(f, t, k)),
            unclaimed_upto(f, t, next_to as int).len() == if open_count(f, t, idx as int) < u.len() {
                open_count(f, t, idx as int)
            } else {
                u.len() as int
            },
            forall|j: int| 0 <= j < next_to ==> #[trigger] used@[j],
            forall|j: int| next_to <= j < nt ==> (#[trigger] used@[j] <==> claimed(f, t, j)),
        decreases nf - idx,
    {
        let ghost c = open_count(f, t, idx as int);
        let ghost a = unclaimed_upto(f, t, next_to as int).len() as int;
        if pairs[idx].to.is_none() {
            while next_to < nt && used[next_to]
                invariant
                    nt == t.len(),
                    next_to <= nt,
                    used@.len() == nt,
                    unclaimed_upto(f, t, next_to as int).len() == a,
                    forall|j: int| 0 <= j < next_to ==> #[trigger] used@[j],
                    forall|j: int| next_to <= j < nt ==> (#[trigger] used@[j] <==> claimed(f, t, j)),
                decreases nt - next_to,
            {
                next_to = next_to + 1;
            }
            proof {
                lemma_unclaimed_prefix(f, t, next_to as int, nt as int);
            }
            if next_to < nt {
                proof {
                    lemma_unclaimed_prefix(f, t, next_to + 1, nt as int);
                    assert(unclaimed_upto(f, t, next_to + 1) == unclaimed_upto(
                        f,
                        t,
                        next_to as int,
                    ).push(next_to as int));
                    assert(u[a] == unclaimed_upto(f, t, next_to + 1)[a]);
                }
                pairs.set(idx, MorphPair { from: Some(idx), to: Some(next_to) });
                used.set(next_to, true);
                next_to = next_to + 1;
            } else {
                pairs.set(idx, MorphPair { from: Some(idx), to: None });
            }
        }
        idx = idx + 1;
    }
    // The remaining targets fill the bank while it has room.
    let ghost a = unclaimed_upto(f, t, next_to as int).len() as int;
    assert(a == reused(f, t));
    proof {
        lemma_unclaimed_prefix(f, t, next_to as int, nt as int);
    }
    let mut j: usize = 0;
    assert(leftover_upto(f, t, 0, a) =~= Seq::<int>::empty());
    while j < nt
        invariant
            nf == f.len(),
            nt == t.len(),
            f == from@,
            t == to@,
            u == unclaimed(f, t),
            a == reused(f, t),
            a == unclaimed_upto(f, t, next_to as int).len(),
            next_to <= nt,
            j <= nt,
            used@.len() == nt,
            forall|q: int| 0 <= q < next_to ==> #[trigger] used@[q],
            forall|q: int| next_to <= q < nt ==> (#[trigger] used@[q] <==> claimed(f, t, q)),
            pairs@.len() == nf + at_most(leftover_upto(f, t, j as int, a), room(nf as int)).len(),
            forall|k: int| 0 <= k < nf ==> (#[trigger] pairs@[k]).from == Some(k as usize),
            forall|k: int| 0 <= k < nf ==> (#[trigger] pairs@[k]).to == opt_index(morph_target(f, t, k)),
            forall|q: int|
                0 <= q < at_most(leftover_upto(f, t, j as int, a), room(nf as int)).len() ==> (
                #[trigger] pairs@[nf + q]).from == None::<usize> && pairs@[nf + q].to == Some(
                    at_most(leftover_upto(f, t, j as int, a), room(nf as int))[q] as usize,
                ),
        decreases nt - j,
    {
        let ghost x = leftover_upto(f, t, j as int, a);
        proof {
            if j >= next_to {
                lemma_unclaimed_prefix(f, t, next_to as int, j as int);
            } else {
                lemma_unclaimed_prefix(f, t, j + 1, next_to as int);
            }
        }
        if !used[j] && pairs.len() < MAX_G {
            assert(leftover_upto(f, t, j + 1, a) =~= x.push(j as int));
            assert(at_most(x.push(j as int), room(nf as int)) =~= at_most(x, room(nf as int)).push(j as int));
            pairs.push(MorphPair { from: None, to: Some(j) });
        } else if !used[j] {
            assert(leftover_upto(f, t, j + 1, a) =~= x.push(j as int));
            assert(at_most(x.push(j as int), room(nf as int)) =~= at_most(x, room(nf as int)));
        } else {
            assert(leftover_upto(f, t, j + 1, a) =~= x);
        }
        j = j + 1;
    }
    assert(leftover_upto(f, t, nt as int, a) =~= u.skip(a));
    pairs
}

} // verus!
