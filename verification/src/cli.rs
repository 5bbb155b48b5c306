//! Pieces of the headless render command line: flag lookup, the `WxH`
//! resolution and integer arguments, and the frame copies that close a
//! ping-pong loop.
use vstd::prelude::*;
use crate::poscar::lines::char_vec;
use crate::poscar::numeric::{parse_unsigned, unsigned_value, UintError};

verus! {

/// The characters of each argument.
pub open spec fn arg_views(args: Seq<String>) -> Seq<Seq<char>> {
    args.map_values(|a: String| a@)
}

/// Index of the value that follows the first `name` among `args[i..]` that
/// has a successor.
pub open spec fn flag_value_from(args: Seq<Seq<char>>, name: Seq<char>, i: int) -> Option<int>
    decreases args.len() - i,
{
    if i < 0 || i + 1 >= args.len() {
        None
    } else if args[i] == name {
        Some(i + 1)
    } else {
        flag_value_from(args, name, i + 1)
    }
}

/// The argument after the first occurrence of `name` that has one.
pub fn flag_value(args: &Vec<String>, name: &str) -> (r: Option<String>)
    ensures
        match flag_value_from(arg_views(args@), name@, 0) {
            Some(i) => r is Some && r->0@ == args@[i]@,
            None => r is None,
        },
{
    let key = String::from_str(name);
    let n = args.len();
    let mut i: usize = 0;
    while n > 0 && i < n - 1
        invariant
            n == args@.len(),
            key@ == name@,
            flag_value_from(arg_views(args@), name@, i as int) == flag_value_from(
                arg_views(args@),
                name@,
                0,
            ),
        decreases n - i,
    {
        assert(arg_views(args@)[i as int] == args@[i as int]@);
        if args[i] == key {
            return Some(args[i + 1].clone());
        }
        i = i + 1;
    }
    None
}

/// Whether some argument is exactly `name`.
pub fn has_flag(args: &Vec<String>, name: &str) -> (r: bool)
    ensures
        r == exists|i: int| 0 <= i < args@.len() && (#[trigger] args@[i])@ == name@,
{
    let key = String::from_str(name);
    let n = args.len();
    let mut i: usize = 0;
    while i < n
        invariant
            n == args@.len(),
            key@ == name@,
            i <= n,
            forall|j: int| 0 <= j < i ==> (#[trigger] args@[j])@ != name@,
        decreases n - i,
    {
        if args[i] == key {
            return true;
        }
        i = i + 1;
    }
    false
}

/// Index of the first `c` in `s` at or after `i`, or `s.len()`.
pub open spec fn find_from(s: Seq<char>, c: char, i: int) -> int
    decreases s.len() - i,
{
    if i < 0 || i >= s.len() {
        s.len() as int
    } else if s[i] == c {
        i
    } else {
        find_from(s, c, i + 1)
    }
}

/// Width and height of a `WxH` text: split at the first `x`, both sides
/// `u32` numbers.
pub open spec fn spec_resolution(s: Seq<char>) -> Option<(u32, u32)> {
    let k = find_from(s, 'x', 0);
    if k >= s.len() {
        None
    } else {
        match (
            parse_unsigned(s.subrange(0, k), u32::MAX as nat),
            parse_unsigned(s.subrange(k + 1, s.len() as int), u32::MAX as nat),
        ) {
            (Ok(w), Ok(h)) => Some((w as u32, h as u32)),
            _ => None,
        }
    }
}

fn sub_chars(v: &Vec<char>, a: usize, b: usize) -> (r: Vec<char>)
    requires
        a <= b <= v@.len(),
    ensures
        r@ == v@.subrange(a as int, b as int),
{
    let mut r: Vec<char> = Vec::new();
    let mut i = a;
    while i < b
        invariant
            a <= i <= b,
            b <= v@.len(),
            r@ == v@.subrange(a as int, i as int),
        decreases b - i,
    {
        r.push(v[i]);
        assert(r@ =~= v@.subrange(a as int, i + 1));
        i = i + 1;
    }
    r
}

/// Parses a resolution such as `1280x720`.
pub fn parse_resolution(res: &str) -> (r: Option<(u32, u32)>)
    ensures
        r == spec_resolution(res@),
{
    let s = char_vec(res);
    let n = s.len();
    let mut k: usize = 0;
    while k < n && s[k] != 'x'
        invariant
            n == s@.len(),
            k <= n,
            find_from(s@, 'x', k as int) == find_from(s@, 'x', 0),
        decreases n - k,
    {
        k = k + 1;
    }
    if k >= n {
        return None;
    }
    let w = unsigned_value(&sub_chars(&s, 0, k), 0xffff_ffff);
    let h = unsigned_value(&sub_chars(&s, k + 1, n), 0xffff_ffff);
    match (w, h) {
        (Ok(w), Ok(h)) => Some((w as u32, h as u32)),
        _ => None,
    }
}

/// Parses a `u32` command-line value, as `str::parse::<u32>` does.
pub fn parse_u32_arg(s: &str) -> (r: Result<u32, UintError>)
    ensures
        match r {
            Ok(v) => parse_unsigned(s@, u32::MAX as nat) == Ok::<nat, UintError>(v as nat),
            Err(e) => parse_unsigned(s@, u32::MAX as nat) == Err::<nat, UintError>(e),
        },
{
    match unsigned_value(&char_vec(s), 0xffff_ffff) {
        Ok(v) => Ok(v as u32),
        Err(e) => Err(e),
    }
}

/// Frames rendered forward for a ping-pong loop of `final_frames` frames.
pub open spec fn spec_forward_frames(final_frames: u32) -> int {
    final_frames / 2 + 1
}

pub fn forward_frames(final_frames: u32) -> (r: u32)
    ensures
        r as int == spec_forward_frames(final_frames),
{
    final_frames / 2 + 1
}

/// A ping-pong loop needs at least two forward frames.
#[derive(Clone, Copy, PartialEq, Eq, Debug, Structural)]
pub enum PingPongError {
    TooShort,
}

impl PingPongError {
    pub fn message(&self) -> (r: &'static str)
        ensures
            r@ == "ping-pong loop needs at least two forward frames"@,
    {
        "ping-pong loop needs at least two forward frames"
    }
}

/// One frame file copied onto another.
#[derive(Clone, Copy, PartialEq, Eq, Debug, Structural)]
pub struct FrameCopy {
    pub src: u32,
    pub dst: u32,
}

/// The copies that mirror the forward frames into the second half of a
/// ping-pong loop: frame `f + k` (for `f` forward frames) repeats frame
/// `f - 2 - k`, so the loop plays forward and back without doubling its ends.
pub fn pingpong_copies(final_frames: u32) -> (r: Result<Vec<FrameCopy>, PingPongError>)
    ensures
        r is Ok <==> final_frames >= 2,
        r matches Ok(v) ==> {
            &&& v@.len() == final_frames - spec_forward_frames(final_frames)
            &&& forall|k: int|
                0 <= k < v@.len() ==> {
                    &&& (#[trigger] v@[k]).dst == spec_forward_frames(final_frames) + k
                    &&& v@[k].src == spec_forward_frames(final_frames) - 2 - k
                    &&& v@[k].src + v@[k].dst == 2 * spec_forward_frames(final_frames) - 2
                    &&& v@[k].src < spec_forward_frames(final_frames)
                }
        },
{
    let f = forward_frames(final_frames);
    if f < 2 {
        return Err(PingPongError::TooShort);
    }
    let mut v: Vec<FrameCopy> = Vec::new();
    let mut dst = f;
    while dst < final_frames
        invariant
            f == spec_forward_frames(final_frames),
            f >= 2,
            f <= dst,
            dst <= final_frames || dst == f,
            v@.len() == dst - f,
            forall|k: int|
                0 <= k < v@.len() ==> {
                    &&& (#[trigger] v@[k]).dst == f + k
                    &&& v@[k].src == f - 2 - k
                },
        decreases final_frames - dst,
    {
        let src = (f - 2) - (dst - f);
        v.push(FrameCopy { src, dst });
        dst = dst + 1;
    }
    Ok(v)
}

} // verus!
