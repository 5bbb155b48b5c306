//! The token grammars that `str::parse` accepts for `f32` and for unsigned
//! integers, and the outcome of an unsigned parse.
use vstd::prelude::*;

verus! {

pub open spec fn is_digit(c: char) -> bool {
    '0' <= c && c <= '9'
}

/// Code of `c` after ASCII lower-casing.
pub open spec fn lower_code(c: char) -> u32 {
    let u = c as u32;
    if 0x41 <= u && u <= 0x5a {
        (u + 32) as u32
    } else {
        u
    }
}

/// `b` equals the lower-case ASCII word `w` once ASCII-lower-cased.
pub open spec fn lower_is(b: Seq<char>, w: Seq<char>) -> bool {
    b.len() == w.len() && forall|i: int| 0 <= i < b.len() ==> lower_code(#[trigger] b[i]) == w[i] as u32
}

/// `t` without one leading `'+'` or `'-'`.
pub open spec fn unsigned_part(t: Seq<char>) -> Seq<char> {
    if t.len() > 0 && (t[0] == '+' || t[0] == '-') {
        t.drop_first()
    } else {
        t
    }
}

/// Digits with at most one `'.'` among them and at least one digit.
pub open spec fn is_mantissa(m: Seq<char>) -> bool {
    &&& forall|i: int| 0 <= i < m.len() ==> is_digit(#[trigger] m[i]) || m[i] == '.'
    &&& forall|i: int, j: int| 0 <= i < j < m.len() ==> !(#[trigger] m[i] == '.' && #[trigger] m[j] == '.')
    &&& exists|i: int| 0 <= i < m.len() && is_digit(#[trigger] m[i])
}

/// What follows the `e` of an exponent: an optional sign, then digits.
pub open spec fn is_exponent(x: Seq<char>) -> bool {
    let d = unsigned_part(x);
    d.len() > 0 && forall|i: int| 0 <= i < d.len() ==> is_digit(#[trigger] d[i])
}

/// A mantissa, optionally followed by `e` or `E` and an exponent.
pub open spec fn is_decimal_number(b: Seq<char>) -> bool {
    exists|k: int|
        0 <= k <= b.len() && is_mantissa(#[trigger] b.subrange(0, k)) && (k == b.len() || (
        lower_code(b[k]) == 0x65 && is_exponent(b.subrange(k + 1, b.len() as int))))
}

/// The grammar of `f32::from_str`: an optional sign, then `inf`, `infinity`,
/// `nan` (any case) or a decimal number.
pub open spec fn is_float_literal(t: Seq<char>) -> bool {
    let b = unsigned_part(t);
    lower_is(b, seq!['i', 'n', 'f']) || lower_is(b, seq!['i', 'n', 'f', 'i', 'n', 'i', 't', 'y'])
        || lower_is(b, seq!['n', 'a', 'n']) || is_decimal_number(b)
}

/// Why an unsigned parse failed, as `core::num::IntErrorKind` names it.
#[derive(Clone, Copy, PartialEq, Eq, Structural, Debug)]
pub enum UintError {
    Empty,
    InvalidDigit,
    PosOverflow,
}

pub open spec fn digit_value(c: char) -> nat {
    (c as u32 - 0x30) as nat
}

/// Reads the digits `d` after the value `acc` read so far, left to right; the
/// first non-digit, or the first digit that takes the value past `max`, ends it.
pub open spec fn read_digits(d: Seq<char>, acc: nat, max: nat) -> Result<nat, UintError>
    decreases d.len(),
{
    if d.len() == 0 {
        Ok(acc)
    } else if !is_digit(d[0]) {
        Err(UintError::InvalidDigit)
    } else if acc * 10 + digit_value(d[0]) > max {
        Err(UintError::PosOverflow)
    } else {
        read_digits(d.drop_first(), acc * 10 + digit_value(d[0]), max)
    }
}

/// The outcome of parsing `t` as an unsigned integer no larger than `max`:
/// one leading `'+'` is allowed when digits follow it.
pub open spec fn parse_unsigned(t: Seq<char>, max: nat) -> Result<nat, UintError> {
    if t.len() == 0 {
        Err(UintError::Empty)
    } else if t[0] == '+' && t.len() > 1 {
        read_digits(t.drop_first(), 0, max)
    } else {
        read_digits(t, 0, max)
    }
}

fn digit(c: char) -> (r: bool)
    ensures
        r == is_digit(c),
{
    '0' <= c && c <= '9'
}

pub(crate) fn lower(c: char) -> (r: u32)
    ensures
        r == lower_code(c),
{
    let u = c as u32;
    if 0x41 <= u && u <= 0x5a {
        u + 32
    } else {
        u
    }
}

/// Whether `t[p..]` is the word `w` up to ASCII case.
fn word_at(t: &Vec<char>, p: usize, w: &[char]) -> (r: bool)
    requires
        p <= t@.len(),
    ensures
        r == lower_is(t@.subrange(p as int, t@.len() as int), w@),
{
    let n = t.len();
    if n - p != w.len() {
        return false;
    }
    let mut i: usize = 0;
    while i < w.len()
        invariant
            n == t@.len(),
            p <= n,
            n - p == w@.len(),
            i <= w@.len(),
            forall|j: int| 0 <= j < i ==> lower_code(#[trigger] t@[p + j]) == w@[j] as u32,
        decreases w@.len() - i,
    {
        if lower(t[p + i]) != w[i] as u32 {
            assert(lower_code(t@.subrange(p as int, n as int)[i as int]) != w@[i as int] as u32);
            return false;
        }
        i = i + 1;
    }
    assert forall|j: int| 0 <= j < t@.subrange(p as int, n as int).len() implies lower_code(
        #[trigger] t@.subrange(p as int, n as int)[j],
    ) == w@[j] as u32 by {
        assert(t@.subrange(p as int, n as int)[j] == t@[p + j]);
    }
    true
}

proof fn lemma_decimal_number_at(b: Seq<char>, m: int)
    requires
        0 <= m <= b.len(),
        forall|i: int| 0 <= i < m ==> is_digit(#[trigger] b[i]) || b[i] == '.',
        forall|i: int, j: int| 0 <= i < j < m ==> !(#[trigger] b[i] == '.' && #[trigger] b[j] == '.'),
        m == b.len() || !(is_digit(b[m]) || (b[m] == '.' && forall|i: int|
            0 <= i < m ==> #[trigger] b[i] != '.')),
    ensures
        is_decimal_number(b) == ((exists|i: int| 0 <= i < m && is_digit(#[trigger] b[i])) && (m
            == b.len() || (lower_code(b[m]) == 0x65 && is_exponent(
            b.subrange(m + 1, b.len() as int),
        )))),
{
    let pre = b.subrange(0, m);
    if exists|i: int| 0 <= i < m && is_digit(#[trigger] b[i]) {
        let w = choose|i: int| 0 <= i < m && is_digit(#[trigger] b[i]);
        assert(is_digit(pre[w]));
        assert(is_mantissa(pre));
    }
    if is_decimal_number(b) {
        let k = choose|k: int|
            0 <= k <= b.len() && is_mantissa(#[trigger] b.subrange(0, k)) && (k == b.len() || (
            lower_code(b[k]) == 0x65 && is_exponent(b.subrange(k + 1, b.len() as int))));
        let mk = b.subrange(0, k);
        if k > m {
            assert(is_digit(mk[m]) || mk[m] == '.');
            assert(b[m] == '.');
            let i0 = choose|i: int| 0 <= i < m && #[trigger] b[i] == '.';
            assert(mk[i0] == '.' && mk[m] == '.');
            assert(false);
        } else if k < m {
            assert(is_digit(b[k]) || b[k] == '.');
            assert(false);
        }
        assert(k == m);
        let wd = choose|i: int| 0 <= i < mk.len() && is_digit(#[trigger] mk[i]);
        assert(is_digit(b[wd]));
    }
}

fn digits_only(b: &Vec<char>, s: usize) -> (r: bool)
    requires
        s <= b@.len(),
    ensures
        r == forall|i: int| s <= i < b@.len() ==> is_digit(#[trigger] b@[i]),
{
    let n = b.len();
    let mut i = s;
    while i < n
        invariant
            n == b@.len(),
            s <= i <= n,
            forall|j: int| s <= j < i ==> is_digit(#[trigger] b@[j]),
        decreases n - i,
    {
        if !digit(b[i]) {
            return false;
        }
        i = i + 1;
    }
    true
}

fn exponent_at(b: &Vec<char>, s: usize) -> (r: bool)
    requires
        s <= b@.len(),
    ensures
        r == is_exponent(b@.subrange(s as int, b@.len() as int)),
{
    let n = b.len();
    let ghost x = b@.subrange(s as int, n as int);
    let d = if s < n && (b[s] == '+' || b[s] == '-') {
        s + 1
    } else {
        s
    };
    assert(unsigned_part(x) =~= b@.subrange(d as int, n as int));
    if d == n {
        return false;
    }
    let r = digits_only(b, d);
    assert(r == forall|i: int|
        0 <= i < unsigned_part(x).len() ==> is_digit(#[trigger] unsigned_part(x)[i])) by {
        if r {
            assert forall|i: int| 0 <= i < unsigned_part(x).len() implies is_digit(
                #[trigger] unsigned_part(x)[i],
            ) by {
                assert(unsigned_part(x)[i] == b@[d + i]);
            }
        } else {
            let j = choose|j: int| d <= j < n && !is_digit(#[trigger] b@[j]);
            assert(unsigned_part(x)[j - d] == b@[j]);
        }
    }
    r
}

fn decimal_number(b: &Vec<char>) -> (r: bool)
    ensures
        r == is_decimal_number(b@),
{
    let n = b.len();
    let mut m: usize = 0;
    let mut dot = false;
    let mut digits = false;
    while m < n && (digit(b[m]) || (b[m] == '.' && !dot))
        invariant
            n == b@.len(),
            m <= n,
            forall|i: int| 0 <= i < m ==> is_digit(#[trigger] b@[i]) || b@[i] == '.',
            forall|i: int, j: int|
                0 <= i < j < m ==> !(#[trigger] b@[i] == '.' && #[trigger] b@[j] == '.'),
            dot == exists|i: int| 0 <= i < m && #[trigger] b@[i] == '.',
            digits == exists|i: int| 0 <= i < m && is_digit(#[trigger] b@[i]),
        decreases n - m,
    {
        if b[m] == '.' {
            dot = true;
        } else {
            digits = true;
        }
        m = m + 1;
    }
    proof {
        lemma_decimal_number_at(b@, m as int);
    }
    if !digits {
        return false;
    }
    if m == n {
        return true;
    }
    if lower(b[m]) != 0x65 {
        return false;
    }
    exponent_at(b, m + 1)
}

/// Whether `t` is accepted by `f32::from_str`.
pub fn float_literal(t: &Vec<char>) -> (r: bool)
    ensures
        r == is_float_literal(t@),
{
    let n = t.len();
    let p: usize = if n > 0 && (t[0] == '+' || t[0] == '-') {
        1
    } else {
        0
    };
    assert(unsigned_part(t@) =~= t@.subrange(p as int, n as int));
    let inf: [char; 3] = ['i', 'n', 'f'];
    let infinity: [char; 8] = ['i', 'n', 'f', 'i', 'n', 'i', 't', 'y'];
    let nan: [char; 3] = ['n', 'a', 'n'];
    assert(inf@ =~= seq!['i', 'n', 'f']);
    assert(infinity@ =~= seq!['i', 'n', 'f', 'i', 'n', 'i', 't', 'y']);
    assert(nan@ =~= seq!['n', 'a', 'n']);
    if word_at(t, p, &inf) || word_at(t, p, &infinity) || word_at(t, p, &nan) {
        return true;
    }
    let mut b: Vec<char> = Vec::new();
    let mut i = p;
    while i < n
        invariant
            n == t@.len(),
            p <= i <= n,
            b@ == t@.subrange(p as int, i as int),
        decreases n - i,
    {
        b.push(t[i]);
        assert(b@ =~= t@.subrange(p as int, i + 1));
        i = i + 1;
    }
    decimal_number(&b)
}

/// The outcome of `str::parse` into an unsigned integer type whose largest
/// value is `max`.
pub fn unsigned_value(t: &Vec<char>, max: usize) -> (r: Result<usize, UintError>)
    ensures
        match r {
            Ok(v) => parse_unsigned(t@, max as nat) == Ok::<nat, UintError>(v as nat),
            Err(e) => parse_unsigned(t@, max as nat) == Err::<nat, UintError>(e),
        },
        r matches Ok(v) ==> v <= max,
{
    let n = t.len();
    if n == 0 {
        return Err(UintError::Empty);
    }
    let s: usize = if t[0] == '+' && n > 1 {
        1
    } else {
        0
    };
    let ghost d = t@.subrange(s as int, n as int);
    assert(d =~= if s == 1 {
        t@.drop_first()
    } else {
        t@
    });
    let mut acc: usize = 0;
    let mut i = s;
    while i < n
        invariant
            n == t@.len(),
            s <= i <= n,
            acc <= max,
            parse_unsigned(t@, max as nat) == read_digits(d, 0, max as nat),
            read_digits(t@.subrange(i as int, n as int), acc as nat, max as nat) == read_digits(
                d,
                0,
                max as nat,
            ),
        decreases n - i,
    {
        let ghost rest = t@.subrange(i as int, n as int);
        assert(rest.drop_first() =~= t@.subrange(i + 1, n as int));
        let c = t[i];
        assert(rest[0] == c);
        if !digit(c) {
            return Err(UintError::InvalidDigit);
        }
        let v: u128 = (acc as u128) * 10 + ((c as u32) - 0x30) as u128;
        if v > max as u128 {
            return Err(UintError::PosOverflow);
        }
        acc = v as usize;
        i = i + 1;
    }
    assert(t@.subrange(n as int, n as int).len() == 0);
    Ok(acc)
}

} // verus!
