//! Decimal and hexadecimal rendering of unsigned integers.
use vstd::prelude::*;

verus! {

/// The ASCII digit for `d < 10`.
pub open spec fn digit_char(d: nat) -> char {
    if d == 0 {
        '0'
    } else if d == 1 {
        '1'
    } else if d == 2 {
        '2'
    } else if d == 3 {
        '3'
    } else if d == 4 {
        '4'
    } else if d == 5 {
        '5'
    } else if d == 6 {
        '6'
    } else if d == 7 {
        '7'
    } else if d == 8 {
        '8'
    } else {
        '9'
    }
}

/// Shortest base-10 rendering of `v` (no sign, no leading zeros; `0` is "0").
pub open spec fn spec_decimal(v: nat) -> Seq<char>
    decreases v,
{
    if v < 10 {
        seq![digit_char(v)]
    } else {
        spec_decimal(v / 10).push(digit_char(v % 10))
    }
}

fn digit_str(d: u64) -> (r: &'static str)
    requires
        d < 10,
    ensures
        r@ == seq![digit_char(d as nat)],
{
    proof {
        reveal_strlit("0");
        reveal_strlit("1");
        reveal_strlit("2");
        reveal_strlit("3");
        reveal_strlit("4");
        reveal_strlit("5");
        reveal_strlit("6");
        reveal_strlit("7");
        reveal_strlit("8");
        reveal_strlit("9");
    }
    if d == 0 {
        "0"
    } else if d == 1 {
        "1"
    } else if d == 2 {
        "2"
    } else if d == 3 {
        "3"
    } else if d == 4 {
        "4"
    } else if d == 5 {
        "5"
    } else if d == 6 {
        "6"
    } else if d == 7 {
        "7"
    } else if d == 8 {
        "8"
    } else {
        "9"
    }
}

/// Appends the decimal rendering of `v` to `out`.
pub fn push_decimal(out: &mut String, v: u64)
    ensures
        final(out)@ == old(out)@ + spec_decimal(v as nat),
    decreases v,
{
    if v < 10 {
        out.append(digit_str(v));
    } else {
        push_decimal(out, v / 10);
        out.append(digit_str(v % 10));
    }
}

/// The decimal rendering of `v`.
pub fn decimal_string(v: u64) -> (r: String)
    ensures
        r@ == spec_decimal(v as nat),
{
    let mut s = String::new();
    push_decimal(&mut s, v);
    s
}

/// The lower-case hexadecimal digit for `d < 16`.
pub open spec fn hex_char(d: nat) -> char {
    if d < 10 {
        digit_char(d)
    } else if d == 10 {
        'a'
    } else if d == 11 {
        'b'
    } else if d == 12 {
        'c'
    } else if d == 13 {
        'd'
    } else if d == 14 {
        'e'
    } else {
        'f'
    }
}

/// The lowest `w` hexadecimal digits of `v`, most significant first
/// (zero-padded to width `w`).
pub open spec fn spec_hex(v: nat, w: nat) -> Seq<char>
    decreases w,
{
    if w == 0 {
        Seq::empty()
    } else {
        spec_hex(v / 16, (w - 1) as nat).push(hex_char(v % 16))
    }
}

fn hex_str(d: u64) -> (r: &'static str)
    requires
        d < 16,
    ensures
        r@ == seq![hex_char(d as nat)],
{
    if d < 10 {
        digit_str(d)
    } else {
        proof {
            reveal_strlit("a");
            reveal_strlit("b");
            reveal_strlit("c");
            reveal_strlit("d");
            reveal_strlit("e");
            reveal_strlit("f");
        }
        if d == 10 {
            "a"
        } else if d == 11 {
            "b"
        } else if d == 12 {
            "c"
        } else if d == 13 {
            "d"
        } else if d == 14 {
            "e"
        } else {
            "f"
        }
    }
}

/// Appends the lowest `w` hexadecimal digits of `v` (zero-padded) to `out`.
pub fn push_hex(out: &mut String, v: u64, w: u32)
    ensures
        final(out)@ == old(out)@ + spec_hex(v as nat, w as nat),
    decreases w,
{
    if w > 0 {
        push_hex(out, v / 16, w - 1);
        out.append(hex_str(v % 16));
        assert(spec_hex(v as nat, w as nat) == spec_hex((v / 16) as nat, (w - 1) as nat).push(
            hex_char((v % 16) as nat),
        ));
    } else {
        assert(old(out)@ + spec_hex(v as nat, 0) =~= old(out)@);
    }
}

} // verus!
