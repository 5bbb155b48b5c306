//! Lines and whitespace-separated tokens of a text, as `str::lines` and
//! `str::split_whitespace` see them.
use vstd::prelude::*;

verus! {

broadcast use vstd::string::axiom_spec_iter;

/// Unicode `White_Space`, the set that `char::is_whitespace` tests.
pub open spec fn is_ws(c: char) -> bool {
    let u = c as u32;
    (0x09 <= u && u <= 0x0d) || u == 0x20 || u == 0x85 || u == 0xa0 || u == 0x1680 || (0x2000
        <= u && u <= 0x200a) || u == 0x2028 || u == 0x2029 || u == 0x202f || u == 0x205f || u
        == 0x3000
}

/// Index of the first `'\n'` at or after `i`, or the length when there is none.
pub open spec fn line_end(s: Seq<char>, i: int) -> int
    decreases s.len() - i,
{
    if i >= s.len() {
        s.len() as int
    } else if s[i] == '\n' {
        i
    } else {
        line_end(s, i + 1)
    }
}

/// A line that was ended by `'\n'` loses one trailing `'\r'`.
pub open spec fn trim_cr(t: Seq<char>) -> Seq<char> {
    if t.len() > 0 && t.last() == '\r' {
        t.drop_last()
    } else {
        t
    }
}

pub proof fn lemma_line_end_bounds(s: Seq<char>, i: int)
    requires
        0 <= i <= s.len(),
    ensures
        i <= line_end(s, i) <= s.len(),
        line_end(s, i) < s.len() ==> s[line_end(s, i)] == '\n',
    decreases s.len() - i,
{
    if i < s.len() && s[i] != '\n' {
        lemma_line_end_bounds(s, i + 1);
    }
}

/// The lines of `s` from position `i` on.
pub open spec fn lines_from(s: Seq<char>, i: int) -> Seq<Seq<char>>
    decreases s.len() - i,
{
    if i < 0 || i >= s.len() {
        Seq::empty()
    } else {
        let e = line_end(s, i);
        proof {
            lemma_line_end_bounds(s, i);
        }
        if e < s.len() {
            seq![trim_cr(s.subrange(i, e))] + lines_from(s, e + 1)
        } else {
            seq![s.subrange(i, e)]
        }
    }
}

/// The lines of `s`: split at `'\n'`, a `"\r\n"` ending counting as one, and
/// no empty line after a final line ending.
pub open spec fn lines(s: Seq<char>) -> Seq<Seq<char>> {
    lines_from(s, 0)
}

/// Index of the first whitespace character at or after `i`, or the length.
pub open spec fn token_end(t: Seq<char>, i: int) -> int
    decreases t.len() - i,
{
    if i >= t.len() {
        t.len() as int
    } else if is_ws(t[i]) {
        i
    } else {
        token_end(t, i + 1)
    }
}

pub proof fn lemma_token_end_bounds(t: Seq<char>, i: int)
    requires
        0 <= i <= t.len(),
    ensures
        i <= token_end(t, i) <= t.len(),
        forall|j: int| i <= j < token_end(t, i) ==> !is_ws(#[trigger] t[j]),
        token_end(t, i) < t.len() ==> is_ws(t[token_end(t, i)]),
    decreases t.len() - i,
{
    if i < t.len() && !is_ws(t[i]) {
        lemma_token_end_bounds(t, i + 1);
    }
}

/// The maximal runs of non-whitespace characters of `t` from position `i` on.
pub open spec fn tokens_from(t: Seq<char>, i: int) -> Seq<Seq<char>>
    decreases t.len() - i,
{
    if i < 0 || i >= t.len() {
        Seq::empty()
    } else if is_ws(t[i]) {
        tokens_from(t, i + 1)
    } else {
        let e = token_end(t, i);
        proof {
            lemma_token_end_bounds(t, i + 1);
        }
        seq![t.subrange(i, e)] + tokens_from(t, e)
    }
}

/// The whitespace-separated tokens of `t`, in order.
pub open spec fn tokens(t: Seq<char>) -> Seq<Seq<char>> {
    tokens_from(t, 0)
}

/// The first character of `t` at or after `i` that is not whitespace.
pub open spec fn first_visible_from(t: Seq<char>, i: int) -> Option<char>
    decreases t.len() - i,
{
    if i < 0 || i >= t.len() {
        None
    } else if is_ws(t[i]) {
        first_visible_from(t, i + 1)
    } else {
        Some(t[i])
    }
}

/// The first character of `t` once leading whitespace is trimmed, if any.
pub open spec fn first_visible(t: Seq<char>) -> Option<char> {
    first_visible_from(t, 0)
}

/// Whether `c` is whitespace in the sense of `char::is_whitespace`.
pub fn is_white(c: char) -> (r: bool)
    ensures
        r == is_ws(c),
{
    let u = c as u32;
    (0x09 <= u && u <= 0x0d) || u == 0x20 || u == 0x85 || u == 0xa0 || u == 0x1680 || (0x2000
        <= u && u <= 0x200a) || u == 0x2028 || u == 0x2029 || u == 0x202f || u == 0x205f || u
        == 0x3000
}

/// The characters of `s`, in order.
pub fn char_vec(s: &str) -> (v: Vec<char>)
    ensures
        v@ == s@,
{
    let mut v: Vec<char> = Vec::new();
    for c in it: s.chars()
        invariant
            it.seq() == s@,
            v@ == it.seq().take(it.index() as int),
    {
        v.push(c);
    }
    v
}

/// The characters of each vector in `v`.
pub open spec fn char_views(v: Seq<Vec<char>>) -> Seq<Seq<char>> {
    v.map_values(|x: Vec<char>| x@)
}

proof fn lemma_line_end_skip(s: Seq<char>, a: int, i: int)
    requires
        0 <= a <= i <= s.len(),
        forall|j: int| a <= j < i ==> s[j] != '\n',
    ensures
        line_end(s, a) == line_end(s, i),
    decreases i - a,
{
    if a < i {
        lemma_line_end_skip(s, a + 1, i);
    }
}

proof fn lemma_token_end_skip(t: Seq<char>, a: int, i: int)
    requires
        0 <= a <= i <= t.len(),
        forall|j: int| a <= j < i ==> !is_ws(#[trigger] t[j]),
    ensures
        token_end(t, a) == token_end(t, i),
    decreases i - a,
{
    if a < i {
        lemma_token_end_skip(t, a + 1, i);
    }
}

/// The lines of `s`, each as its own vector of characters.
pub fn split_lines(s: &Vec<char>) -> (out: Vec<Vec<char>>)
    ensures
        char_views(out@) == lines(s@),
{
    let n = s.len();
    let mut out: Vec<Vec<char>> = Vec::new();
    let mut cur: Vec<char> = Vec::new();
    let mut start: usize = 0;
    let mut i: usize = 0;
    assert(char_views(out@) + lines_from(s@, 0) =~= lines(s@));
    while i < n
        invariant
            n == s@.len(),
            start <= i <= n,
            cur@ == s@.subrange(start as int, i as int),
            forall|j: int| start <= j < i ==> s@[j] != '\n',
            char_views(out@) + lines_from(s@, start as int) == lines(s@),
        decreases n - i,
    {
        let c = s[i];
        if c == '\n' {
            proof {
                lemma_line_end_skip(s@, start as int, i as int);
            }
            let ghost raw = cur@;
            let mut line = cur;
            let k = line.len();
            if k > 0 && line[k - 1] == '\r' {
                line.pop();
            }
            assert(line@ == trim_cr(raw));
            assert(char_views(out@.push(line)) =~= char_views(out@).push(line@));
            assert(char_views(out@).push(line@) + lines_from(s@, i + 1) =~= char_views(out@) + (
            seq![line@] + lines_from(s@, i + 1)));
            out.push(line);
            cur = Vec::new();
            start = i + 1;
        } else {
            cur.push(c);
            assert(cur@ =~= s@.subrange(start as int, i + 1));
        }
        i = i + 1;
    }
    if start < n {
        proof {
            lemma_line_end_skip(s@, start as int, n as int);
        }
        assert(char_views(out@.push(cur)) =~= char_views(out@).push(cur@));
        assert(char_views(out@).push(cur@) =~= char_views(out@) + lines_from(s@, start as int));
        out.push(cur);
    } else {
        assert(char_views(out@) =~= char_views(out@) + lines_from(s@, start as int));
    }
    out
}

/// The whitespace-separated tokens of `t`, each as its own vector.
pub fn split_tokens(t: &Vec<char>) -> (out: Vec<Vec<char>>)
    ensures
        char_views(out@) == tokens(t@),
{
    let n = t.len();
    let mut out: Vec<Vec<char>> = Vec::new();
    let mut cur: Vec<char> = Vec::new();
    let mut a: usize = 0;
    let mut intok = false;
    let mut i: usize = 0;
    assert(char_views(out@) + tokens_from(t@, 0) =~= tokens(t@));
    while i < n
        invariant
            n == t@.len(),
            i <= n,
            intok ==> a < i,
            intok ==> cur@ == t@.subrange(a as int, i as int),
            intok ==> forall|j: int| a <= j < i ==> !is_ws(#[trigger] t@[j]),
            intok ==> char_views(out@) + tokens_from(t@, a as int) == tokens(t@),
            !intok ==> char_views(out@) + tokens_from(t@, i as int) == tokens(t@),
        decreases n - i,
    {
        let c = t[i];
        if is_white(c) {
            if intok {
                proof {
                    lemma_token_end_skip(t@, a as int, i as int);
                }
                assert(char_views(out@.push(cur)) =~= char_views(out@).push(cur@));
                assert(char_views(out@).push(cur@) + tokens_from(t@, i as int) =~= char_views(out@)
                    + (seq![cur@] + tokens_from(t@, i as int)));
                out.push(cur);
                cur = Vec::new();
                intok = false;
            }
        } else {
            if intok {
                cur.push(c);
                assert(cur@ =~= t@.subrange(a as int, i + 1));
            } else {
                a = i;
                cur = Vec::new();
                cur.push(c);
                intok = true;
                assert(cur@ =~= t@.subrange(a as int, i + 1));
            }
        }
        i = i + 1;
    }
    if intok {
        proof {
            lemma_token_end_skip(t@, a as int, n as int);
            assert(tokens_from(t@, a as int) == seq![cur@] + tokens_from(t@, n as int));
            assert(tokens_from(t@, n as int) =~= Seq::<Seq<char>>::empty());
        }
        assert(char_views(out@.push(cur)) =~= char_views(out@).push(cur@));
        assert(char_views(out@).push(cur@) =~= char_views(out@) + tokens_from(t@, a as int));
        out.push(cur);
    } else {
        assert(char_views(out@) =~= char_views(out@) + tokens_from(t@, i as int));
    }
    out
}

/// The first character of `t` that is not whitespace, if any.
pub fn first_visible_char(t: &Vec<char>) -> (r: Option<char>)
    ensures
        r == first_visible(t@),
{
    let n = t.len();
    let mut i: usize = 0;
    while i < n && is_white(t[i])
        invariant
            n == t@.len(),
            i <= n,
            first_visible_from(t@, i as int) == first_visible(t@),
        decreases n - i,
    {
        i = i + 1;
    }
    if i < n {
        Some(t[i])
    } else {
        None
    }
}

} // verus!
