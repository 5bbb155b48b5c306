//! Step sequencer: transition curves, trig conditions, play modes and the
//! navigation state machine (which step plays next).
use vstd::prelude::*;
use crate::text::{push_decimal, spec_decimal};

verus! {

/// Shape of the glide between two steps.
#[derive(Clone, Copy, PartialEq, Eq, Debug, Structural)]
pub enum TranCurve {
    Linear,
    EaseInOut,
    Silk,
    Snap,
    Bounce,
    Over,
}

impl TranCurve {
    pub open spec fn spec_label(self) -> Seq<char> {
        match self {
            TranCurve::Linear => "LINEAR"@,
            TranCurve::EaseInOut => "EASE"@,
            TranCurve::Silk => "SILK"@,
            TranCurve::Snap => "SNAP"@,
            TranCurve::Bounce => "BOUNCE"@,
            TranCurve::Over => "OVER"@,
        }
    }

    pub open spec fn spec_next(self) -> TranCurve {
        match self {
            TranCurve::Linear => TranCurve::EaseInOut,
            TranCurve::EaseInOut => TranCurve::Silk,
            TranCurve::Silk => TranCurve::Snap,
            TranCurve::Snap => TranCurve::Bounce,
            TranCurve::Bounce => TranCurve::Over,
            TranCurve::Over => TranCurve::Linear,
        }
    }

    pub fn label(self) -> (r: &'static str)
        ensures
            r@ == self.spec_label(),
    {
        match self {
            TranCurve::Linear => "LINEAR",
            TranCurve::EaseInOut => "EASE",
            TranCurve::Silk => "SILK",
            TranCurve::Snap => "SNAP",
            TranCurve::Bounce => "BOUNCE",
            TranCurve::Over => "OVER",
        }
    }

    /// Linear → Ease → Silk → Snap → Bounce → Over → Linear.
    pub fn next(self) -> (r: TranCurve)
        ensures
            r == self.spec_next(),
    {
        match self {
            TranCurve::Linear => TranCurve::EaseInOut,
            TranCurve::EaseInOut => TranCurve::Silk,
            TranCurve::Silk => TranCurve::Snap,
            TranCurve::Snap => TranCurve::Bounce,
            TranCurve::Bounce => TranCurve::Over,
            TranCurve::Over => TranCurve::Linear,
        }
    }
}

// ── Trig conditions ──────────────────────────────────────────────────────

/// The cycle conditions offered by the UI, in cycling order.
pub open spec fn spec_trig_conds() -> Seq<(u8, u8)> {
    seq![(1u8, 1u8), (1, 2), (2, 2), (1, 3), (1, 4), (4, 4), (1, 8)]
}

/// The always-play condition.
pub fn cond_default() -> (r: (u8, u8))
    ensures
        r == (1u8, 1u8),
{
    (1, 1)
}

/// "--" for the always-play condition, else "k:n".
pub fn cond_label(cond: (u8, u8)) -> (r: String)
    ensures
        r@ == if cond == (1u8, 1u8) {
            seq!['-', '-']
        } else {
            spec_decimal(cond.0 as nat) + seq![':'] + spec_decimal(cond.1 as nat)
        },
{
    proof {
        reveal_strlit("--");
        reveal_strlit(":");
    }
    let mut s = String::new();
    if cond.0 == 1 && cond.1 == 1 {
        s.append("--");
    } else {
        push_decimal(&mut s, cond.0 as u64);
        s.append(":");
        push_decimal(&mut s, cond.1 as u64);
    }
    s
}

/// Whether a step with cycle condition `cond = (k, n)` plays on its
/// `visits`-th visit: always when `n <= 1`, else when `visits - 1`
/// (wrapping) is congruent to `max(k, 1) - 1` modulo `n`.
pub open spec fn spec_cond_passes(cond: (u8, u8), visits: u32) -> bool {
    let (k, n) = cond;
    if n <= 1 {
        true
    } else {
        (vstd::wrapping::u32_specs::wrapping_sub(visits, 1) as int) % (n as int) == (if k >= 1 {
            k as int
        } else {
            1
        }) - 1
    }
}

/// Elektron-style cycle condition: plays on pass `k` of every `n` visits.
pub fn cond_passes(cond: (u8, u8), visits: u32) -> (r: bool)
    ensures
        r == spec_cond_passes(cond, visits),
{
    let (k, n) = cond;
    if n <= 1 {
        return true;
    }
    let kk: u8 = if k >= 1 { k } else { 1 };
    visits.wrapping_sub(1) % (n as u32) == (kk - 1) as u32
}

/// The condition after `cond` in the UI cycle; a condition that is not in
/// the cycle advances to the second entry.
pub fn cond_next(cond: (u8, u8)) -> (r: (u8, u8))
    ensures
        forall|i: int| 0 <= i < 7 && #[trigger] spec_trig_conds()[i] == cond ==> r == spec_trig_conds()[(i + 1) % 7],
        (forall|i: int| 0 <= i < 7 ==> spec_trig_conds()[i] != cond) ==> r == spec_trig_conds()[1],
{
    let ghost tc = spec_trig_conds();
    assert(tc[0] == (1u8, 1u8) && tc[1] == (1u8, 2u8) && tc[2] == (2u8, 2u8) && tc[3] == (1u8, 3u8)
        && tc[4] == (1u8, 4u8) && tc[5] == (4u8, 4u8) && tc[6] == (1u8, 8u8));
    let (k, n) = cond;
    let r: (u8, u8) = if k == 1 && n == 1 {
        (1, 2)
    } else if k == 1 && n == 2 {
        (2, 2)
    } else if k == 2 && n == 2 {
        (1, 3)
    } else if k == 1 && n == 3 {
        (1, 4)
    } else if k == 1 && n == 4 {
        (4, 4)
    } else if k == 4 && n == 4 {
        (1, 8)
    } else if k == 1 && n == 8 {
        (1, 1)
    } else {
        (1, 2)
    };
    assert forall|i: int| 0 <= i < 7 && #[trigger] tc[i] == cond implies r == tc[(i + 1) % 7] by {
        if i == 0 {
        } else if i == 1 {
        } else if i == 2 {
        } else if i == 3 {
        } else if i == 4 {
        } else if i == 5 {
        } else {
        }
    }
    r
}

/// Passing condition facts: `(1, 1)` always plays, and for `1 <= k <= n`
/// the step plays exactly on visits `k, k + n, k + 2n, …`.
pub proof fn law_cond_cycle(k: u8, n: u8, visits: u32)
    ensures
        spec_cond_passes((1u8, 1u8), visits),
        1 <= k <= n && n > 1 && visits >= 1 ==> (spec_cond_passes((k, n), visits) <==> (visits
            - k) % (n as int) == 0),
{
    if 1 <= k <= n && n > 1 && visits >= 1 {
        assert(vstd::wrapping::u32_specs::wrapping_sub(visits, 1) == visits - 1);
        let v = visits as int - 1;
        let kk = k as int - 1;
        let nn = n as int;
        assert((v % nn == kk) <==> ((v - kk) % nn == 0)) by (nonlinear_arith)
            requires
                nn > 1,
                0 <= kk < nn,
                v >= 0,
        {
            let q = v / nn;
            let r = v % nn;
            assert(v == q * nn + r);
            if (v - kk) % nn == 0 {
                let q2 = (v - kk) / nn;
                assert(v - kk == q2 * nn);
                assert(r - kk == (q2 - q) * nn);
                if q2 - q >= 1 {
                    assert((q2 - q) * nn >= nn);
                } else if q2 - q <= -1 {
                    assert((q2 - q) * nn <= -nn);
                }
            } else {
            }
        }
    }
}

// ── Play modes ───────────────────────────────────────────────────────────

/// Step traversal order.
#[derive(Clone, Copy, PartialEq, Eq, Debug, Structural)]
pub enum SeqPlayMode {
    Forward,
    Reverse,
    PingPong,
    Random,
}

impl SeqPlayMode {
    pub open spec fn spec_next(self) -> SeqPlayMode {
        match self {
            SeqPlayMode::Forward => SeqPlayMode::Reverse,
            SeqPlayMode::Reverse => SeqPlayMode::PingPong,
            SeqPlayMode::PingPong => SeqPlayMode::Random,
            SeqPlayMode::Random => SeqPlayMode::Forward,
        }
    }

    pub open spec fn spec_label(self) -> Seq<char> {
        match self {
            SeqPlayMode::Forward => "FWD"@,
            SeqPlayMode::Reverse => "REV"@,
            SeqPlayMode::PingPong => "PP"@,
            SeqPlayMode::Random => "RND"@,
        }
    }

    pub fn next(self) -> (r: SeqPlayMode)
        ensures
            r == self.spec_next(),
    {
        match self {
            SeqPlayMode::Forward => SeqPlayMode::Reverse,
            SeqPlayMode::Reverse => SeqPlayMode::PingPong,
            SeqPlayMode::PingPong => SeqPlayMode::Random,
            SeqPlayMode::Random => SeqPlayMode::Forward,
        }
    }

    pub fn label(self) -> (r: &'static str)
        ensures
            r@ == self.spec_label(),
    {
        match self {
            SeqPlayMode::Forward => "FWD",
            SeqPlayMode::Reverse => "REV",
            SeqPlayMode::PingPong => "PP",
            SeqPlayMode::Random => "RND",
        }
    }
}

impl Default for SeqPlayMode {
    fn default() -> (r: SeqPlayMode)
        ensures
            r == SeqPlayMode::Forward,
    {
        SeqPlayMode::Forward
    }
}


// ── Navigation state machine ─────────────────────────────────────────────

/// Most steps a pattern can hold through `add_step_after` and `capture`.
pub const MAX_STEPS: usize = 32;

/// Probability 1.0 in the fixed-point unit of `SeqStep::prob` (2^-24).
pub const PROB_ONE: i32 = 16_777_216;

/// Steps whose probability is at least this value (0.999) play without a
/// random draw.
pub const PROB_ALWAYS: i32 = 16_760_439;

/// Largest pattern the navigation logic accepts (keeps index arithmetic exact).
pub const MAX_NAV_LEN: usize = 1_073_741_824;

/// The gating data of one sequencer step.
#[derive(Clone, Copy, PartialEq, Eq, Debug)]
pub struct SeqStep {
    /// A muted step is always skipped.
    pub muted: bool,
    /// Transition curve for this step (None = the sequencer's curve).
    pub curve_override: Option<TranCurve>,
    /// Probability that the step plays when landed on, in units of 2^-24:
    /// a 24-bit draw plays the step when it is below `prob`, so 0 never
    /// plays and `PROB_ONE` always does.
    pub prob: i32,
    /// Cycle condition `(k, n)`: plays on visit k of every n.
    pub cond: (u8, u8),
    /// Visit counter for `cond`.
    pub visits: u32,
}

impl SeqStep {
    pub open spec fn spec_new() -> SeqStep {
        SeqStep { muted: false, curve_override: None, prob: PROB_ONE, cond: (1, 1), visits: 0 }
    }

    /// An unmuted, always-playing step with no curve override.
    pub fn new() -> (r: SeqStep)
        ensures
            r == SeqStep::spec_new(),
    {
        SeqStep { muted: false, curve_override: None, prob: PROB_ONE, cond: (1, 1), visits: 0 }
    }
}

/// Knuth's LCG step: `s * 1664525 + 1013904223` modulo 2^32.
pub open spec fn lcg_next(s: u32) -> u32 {
    ((s as nat * 1664525 + 1013904223) % 0x1_0000_0000) as u32
}

/// One LCG step.
pub fn lcg_step(s: u32) -> (r: u32)
    ensures
        r == lcg_next(s),
{
    s.wrapping_mul(1664525).wrapping_add(1013904223)
}

/// The 24-bit fraction `(s >> 8) & 0xFF_FFFF` of an LCG output.
pub open spec fn unit_bits(s: u32) -> int {
    s as int / 256
}

/// Candidate index after `cur` in a pattern of `n` steps, with the updated
/// ping-pong direction and random state: `(index, pp_dir, rng)`.
pub open spec fn spec_raw_next(n: int, cur: int, mode: SeqPlayMode, pp: i8, rng: u32) -> (int, i8, u32) {
    if n <= 1 {
        (0, pp, rng)
    } else {
        match mode {
            SeqPlayMode::Forward => ((cur + 1) % n, pp, rng),
            SeqPlayMode::Reverse => (if cur >= 1 { cur - 1 } else { n - 1 }, pp, rng),
            SeqPlayMode::PingPong => {
                let d0: i8 = if pp == 0 { 1 } else { pp };
                let nx = cur + d0;
                if nx < 0 || nx >= n {
                    let d1 = (-d0) as i8;
                    let nx2 = cur + d1;
                    (if nx2 < 0 || nx2 >= n { cur } else { nx2 }, d1, rng)
                } else {
                    (nx, d0, rng)
                }
            },
            SeqPlayMode::Random => {
                let r1 = lcg_next(rng);
                let nx = r1 as int % n;
                (if nx == cur { (nx + 1) % n } else { nx }, pp, r1)
            },
        }
    }
}

/// One landing attempt from `cur`: take the next candidate in play order,
/// count a visit on it unless it is muted, and say whether it plays (not
/// muted, cycle condition passes on the new visit, and a step below
/// `PROB_ALWAYS` draws a 24-bit value below its probability).
/// Result: `(steps, cur, pp_dir, rng, plays)`.
pub open spec fn spec_attempt(steps: Seq<SeqStep>, cur: int, mode: SeqPlayMode, pp: i8, rng: u32) -> (
    Seq<SeqStep>,
    int,
    i8,
    u32,
    bool,
) {
    let (cand, pp1, rng1) = spec_raw_next(steps.len() as int, cur, mode, pp, rng);
    let st = steps[cand];
    if st.muted {
        (steps, cand, pp1, rng1, false)
    } else {
        let v = vstd::wrapping::u32_specs::wrapping_add(st.visits, 1);
        let steps2 = steps.update(cand, SeqStep { visits: v, ..st });
        if !spec_cond_passes(st.cond, v) {
            (steps2, cand, pp1, rng1, false)
        } else if st.prob < PROB_ALWAYS {
            let rng2 = lcg_next(rng1);
            (steps2, cand, pp1, rng2, unit_bits(rng2) < st.prob as int)
        } else {
            (steps2, cand, pp1, rng1, true)
        }
    }
}

/// The outcome of up to `fuel` landing attempts: `(steps, cur, pp_dir, rng)`.
/// The first attempt whose step plays ends the search.
pub open spec fn spec_advance(
    steps: Seq<SeqStep>,
    cur: int,
    mode: SeqPlayMode,
    pp: i8,
    rng: u32,
    fuel: nat,
) -> (Seq<SeqStep>, int, i8, u32)
    decreases fuel,
{
    if fuel == 0 {
        (steps, cur, pp, rng)
    } else {
        let (s1, c1, p1, r1, plays) = spec_attempt(steps, cur, mode, pp, rng);
        if plays {
            (s1, c1, p1, r1)
        } else {
            spec_advance(s1, c1, mode, p1, r1, (fuel - 1) as nat)
        }
    }
}

/// Index `i + 1` places before `cur`, cyclically, in a pattern of `n` steps.
pub open spec fn back_index(cur: int, i: int, n: int) -> int {
    (cur - 1 - i) % n
}

/// Two patterns agree on everything but visit counters.
pub open spec fn same_but_visits(a: Seq<SeqStep>, b: Seq<SeqStep>) -> bool {
    &&& a.len() == b.len()
    &&& forall|i: int|
        0 <= i < a.len() ==> (#[trigger] a[i]).muted == b[i].muted && a[i].curve_override
            == b[i].curve_override && a[i].prob == b[i].prob && a[i].cond == b[i].cond
}

/// The step sequencer's navigation state: which step plays, in which order,
/// and with which gates. Step payloads (field parameters, durations) are kept
/// by the caller in a list parallel to `steps`.
pub struct Sequencer {
    pub active: bool,
    pub manual: bool,
    pub steps: Vec<SeqStep>,
    pub cur: usize,
    pub curve: TranCurve,
    pub selected: Option<usize>,
    pub play_mode: SeqPlayMode,
    /// Ping-pong direction (+1 or -1; 0 = not started).
    pub pp_dir: i8,
    /// LCG state for Random mode and probability gates.
    pub rng_seed: u32,
}

/// The step with its visit counter reset.
pub open spec fn visits_cleared(st: SeqStep) -> SeqStep {
    SeqStep { visits: 0, ..st }
}

/// Where an index lands after inserting a step at position `p`.
pub open spec fn inserted_index(c: int, p: int) -> int {
    if c >= p { c + 1 } else { c }
}

/// Where a selection lands after inserting a step at position `p`.
pub open spec fn inserted_selection(sel: Option<usize>, p: int) -> Option<usize> {
    match sel {
        Some(s) => if s >= p { Some((s + 1) as usize) } else { Some(s) },
        None => None,
    }
}

/// Where the current index lands after removing step `idx`, leaving `new_len` steps.
pub open spec fn removed_index(c: int, idx: int, new_len: int) -> int {
    if c > idx {
        c - 1
    } else if c > new_len - 1 {
        new_len - 1
    } else {
        c
    }
}

/// Where a selection lands after removing step `idx` (cleared if it was `idx`).
pub open spec fn removed_selection(sel: Option<usize>, idx: int) -> Option<usize> {
    match sel {
        Some(s) => if s == idx {
            None
        } else if s > idx {
            Some((s - 1) as usize)
        } else {
            Some(s)
        },
        None => None,
    }
}

proof fn lemma_mod_pred(x: int, n: int)
    requires
        n > 0,
    ensures
        (x - 1) % n == if x % n >= 1 { x % n - 1 } else { n - 1 },
{
    let q = x / n;
    let r = x % n;
    vstd::arithmetic::div_mod::lemma_fundamental_div_mod(x, n);
    if r >= 1 {
        vstd::arithmetic::div_mod::lemma_fundamental_div_mod_converse(x - 1, n, q, r - 1);
    } else {
        assert(x - 1 == (q - 1) * n + (n - 1)) by (nonlinear_arith)
            requires
                x == n * q + r,
                r == 0,
        ;
        vstd::arithmetic::div_mod::lemma_fundamental_div_mod_converse(x - 1, n, q - 1, n - 1);
    }
}

proof fn lemma_back_index_step(c: int, i: int, n: int)
    requires
        n > 0,
    ensures
        0 <= back_index(c, i, n) < n,
        back_index(c, i + 1, n) == if back_index(c, i, n) >= 1 {
            back_index(c, i, n) - 1
        } else {
            n - 1
        },
{
    lemma_mod_pred(c - 1 - i, n);
    vstd::arithmetic::div_mod::lemma_mod_bound(c - 1 - i, n);
    vstd::arithmetic::div_mod::lemma_mod_bound(c - 1 - i - 1, n);
}

proof fn lemma_back_index_zero(c: int, n: int)
    requires
        0 <= c < n,
    ensures
        back_index(c, 0, n) == if c >= 1 { c - 1 } else { n - 1 },
{
    lemma_mod_pred(c, n);
    vstd::arithmetic::div_mod::lemma_small_mod(c as nat, n as nat);
}

impl Sequencer {
    /// The navigation invariant: `cur` indexes a step (when there are any),
    /// the pattern fits the index arithmetic, and the ping-pong direction can
    /// be negated.
    pub open spec fn wf(&self) -> bool {
        &&& self.steps.len() <= MAX_NAV_LEN
        &&& self.steps.len() > 0 ==> self.cur < self.steps.len()
        &&& self.pp_dir != i8::MIN
    }

    /// The default showcase pattern's gates: eight always-playing steps with
    /// a snap accent on step 1, a snap hit on the first of every two passes
    /// on step 3, its answer on the second pass on step 5, and an overshoot
    /// curve on step 6.
    pub open spec fn spec_showcase() -> Seq<SeqStep> {
        let d = SeqStep::spec_new();
        seq![
            d,
            SeqStep { curve_override: Some(TranCurve::Snap), ..d },
            d,
            SeqStep { curve_override: Some(TranCurve::Snap), cond: (1, 2), ..d },
            d,
            SeqStep { cond: (2, 2), ..d },
            SeqStep { curve_override: Some(TranCurve::Over), ..d },
            d
        ]
    }

    /// Inactive sequencer on the showcase pattern, at step 0, silk curve,
    /// forward play.
    pub fn new() -> (r: Sequencer)
        ensures
            r.wf(),
            r.steps@ == Sequencer::spec_showcase(),
            !r.active,
            !r.manual,
            r.cur == 0,
            r.curve == TranCurve::Silk,
            r.selected.is_none(),
            r.play_mode == SeqPlayMode::Forward,
            r.pp_dir == 1,
            r.rng_seed == 0x9E37_79B9u32,
    {
        let mut steps: Vec<SeqStep> = Vec::new();
        let d = SeqStep::new();
        steps.push(d);
        steps.push(SeqStep { curve_override: Some(TranCurve::Snap), ..d });
        steps.push(d);
        steps.push(SeqStep { curve_override: Some(TranCurve::Snap), cond: (1, 2), ..d });
        steps.push(d);
        steps.push(SeqStep { cond: (2, 2), ..d });
        steps.push(SeqStep { curve_override: Some(TranCurve::Over), ..d });
        steps.push(d);
        assert(steps@ =~= Sequencer::spec_showcase());
        Sequencer {
            active: false,
            manual: false,
            steps,
            cur: 0,
            curve: TranCurve::Silk,
            selected: None,
            play_mode: SeqPlayMode::Forward,
            pp_dir: 1,
            rng_seed: 0x9E37_79B9,
        }
    }

    /// Transition curve of the current step: its override, else the global curve.
    pub fn effective_curve(&self) -> (r: TranCurve)
        ensures
            r == if self.cur < self.steps.len() && self.steps[self.cur as int].curve_override is Some {
                self.steps[self.cur as int].curve_override->0
            } else {
                self.curve
            },
    {
        if self.cur < self.steps.len() {
            match self.steps[self.cur].curve_override {
                Some(c) => c,
                None => self.curve,
            }
        } else {
            self.curve
        }
    }

    /// Advances the LCG and returns its new state.
    pub fn rng_next(&mut self) -> (r: u32)
        ensures
            r == lcg_next(old(self).rng_seed),
            final(self).rng_seed == r,
            final(self).steps == old(self).steps,
            final(self).cur == old(self).cur,
            final(self).pp_dir == old(self).pp_dir,
            final(self).selected == old(self).selected,
            final(self).active == old(self).active,
            final(self).manual == old(self).manual,
            final(self).curve == old(self).curve,
            final(self).play_mode == old(self).play_mode,
    {
        self.rng_seed = lcg_step(self.rng_seed);
        self.rng_seed
    }

    /// Next candidate index by play mode alone (no gating).
    pub fn raw_next_index(&mut self) -> (r: usize)
        requires
            old(self).wf(),
        ensures
            (r as int, final(self).pp_dir, final(self).rng_seed) == spec_raw_next(
                old(self).steps.len() as int,
                old(self).cur as int,
                old(self).play_mode,
                old(self).pp_dir,
                old(self).rng_seed,
            ),
            old(self).steps.len() > 0 ==> r < old(self).steps.len(),
            final(self).pp_dir != i8::MIN,
            final(self).steps == old(self).steps,
            final(self).cur == old(self).cur,
            final(self).selected == old(self).selected,
            final(self).active == old(self).active,
            final(self).manual == old(self).manual,
            final(self).curve == old(self).curve,
            final(self).play_mode == old(self).play_mode,
    {
        let n = self.steps.len();
        if n <= 1 {
            return 0;
        }
        match self.play_mode {
            SeqPlayMode::Forward => (self.cur + 1) % n,
            SeqPlayMode::Reverse => if self.cur >= 1 {
                self.cur - 1
            } else {
                n - 1
            },
            SeqPlayMode::PingPong => {
                if self.pp_dir == 0 {
                    self.pp_dir = 1;
                }
                let cur = self.cur as i64;
                let nn = n as i64;
                let mut nx: i64 = cur + self.pp_dir as i64;
                if nx < 0 || nx >= nn {
                    self.pp_dir = -self.pp_dir;
                    nx = cur + self.pp_dir as i64;
                    if nx < 0 || nx >= nn {
                        nx = cur;
                    }
                }
                nx as usize
            },
            SeqPlayMode::Random => {
                let r = self.rng_next();
                let mut nx = (r as usize) % n;
                if nx == self.cur {
                    nx = (nx + 1) % n;
                }
                nx
            },
        }
    }

    /// Moves to the next step that plays: takes up to `2n` candidates in play
    /// order, counting a visit on each unmuted one and skipping muted steps,
    /// failed cycle conditions and failed probability draws. When every
    /// candidate is blocked, `cur` stays where the last candidate landed.
    pub fn advance_next(&mut self)
        requires
            old(self).wf(),
        ensures
            final(self).wf(),
            old(self).steps.len() == 0 ==> *final(self) == *old(self),
            old(self).steps.len() > 0 ==> (final(self).steps@, final(self).cur as int, final(self).pp_dir,
                final(self).rng_seed) == spec_advance(
                old(self).steps@,
                old(self).cur as int,
                old(self).play_mode,
                old(self).pp_dir,
                old(self).rng_seed,
                (2 * old(self).steps.len()) as nat,
            ),
            same_but_visits(old(self).steps@, final(self).steps@),
            final(self).selected == old(self).selected,
            final(self).active == old(self).active,
            final(self).manual == old(self).manual,
            final(self).curve == old(self).curve,
            final(self).play_mode == old(self).play_mode,
    {
        let n = self.steps.len();
        if n == 0 {
            return;
        }
        let ghost target = spec_advance(
            self.steps@,
            self.cur as int,
            self.play_mode,
            self.pp_dir,
            self.rng_seed,
            (2 * n) as nat,
        );
        let ghost orig = self.steps@;
        let mut k: usize = 0;
        while k < 2 * n
            invariant
                n == self.steps.len(),
                n == old(self).steps.len(),
                orig == old(self).steps@,
                target == spec_advance(
                    old(self).steps@,
                    old(self).cur as int,
                    old(self).play_mode,
                    old(self).pp_dir,
                    old(self).rng_seed,
                    (2 * n) as nat,
                ),
                0 < n <= MAX_NAV_LEN,
                k <= 2 * n,
                self.wf(),
                same_but_visits(orig, self.steps@),
                spec_advance(
                    self.steps@,
                    self.cur as int,
                    self.play_mode,
                    self.pp_dir,
                    self.rng_seed,
                    (2 * n - k) as nat,
                ) == target,
                self.selected == old(self).selected,
                self.active == old(self).active,
                self.manual == old(self).manual,
                self.curve == old(self).curve,
                self.play_mode == old(self).play_mode,
            decreases 2 * n - k,
        {
            let ghost fuel = (2 * n - k) as nat;
            let ghost before = (self.steps@, self.cur as int, self.pp_dir, self.rng_seed);
            let plays = self.try_land();
            proof {
                let (s1, c1, p1, r1, pl) = spec_attempt(
                    before.0,
                    before.1,
                    self.play_mode,
                    before.2,
                    before.3,
                );
                assert(spec_advance(before.0, before.1, self.play_mode, before.2, before.3, fuel) == if pl {
                    (s1, c1, p1, r1)
                } else {
                    spec_advance(s1, c1, self.play_mode, p1, r1, (fuel - 1) as nat)
                });
            }
            k = k + 1;
            if plays {
                return;
            }
        }
    }

    /// One landing attempt (see `spec_attempt`); returns whether the
    /// landed-on step plays.
    fn try_land(&mut self) -> (plays: bool)
        requires
            old(self).wf(),
            old(self).steps.len() > 0,
        ensures
            (final(self).steps@, final(self).cur as int, final(self).pp_dir, final(self).rng_seed, plays)
                == spec_attempt(
                old(self).steps@,
                old(self).cur as int,
                old(self).play_mode,
                old(self).pp_dir,
                old(self).rng_seed,
            ),
            final(self).wf(),
            final(self).steps.len() == old(self).steps.len(),
            same_but_visits(old(self).steps@, final(self).steps@),
            final(self).selected == old(self).selected,
            final(self).active == old(self).active,
            final(self).manual == old(self).manual,
            final(self).curve == old(self).curve,
            final(self).play_mode == old(self).play_mode,
    {
        let cand = self.raw_next_index();
        self.cur = cand;
        let st = self.steps[cand];
        if st.muted {
            return false;
        }
        let v = st.visits.wrapping_add(1);
        self.steps.set(cand, SeqStep { visits: v, ..st });
        if !cond_passes(st.cond, v) {
            return false;
        }
        if st.prob < PROB_ALWAYS {
            let r = self.rng_next();
            let u = r / 256;
            return (u as i64) < st.prob as i64;
        }
        true
    }

    /// Manual step: forward (`dir > 0`) advances like playback; backward
    /// moves to the nearest unmuted step before `cur` (cyclically, `cur`
    /// itself checked last), or one step back when every step is muted.
    pub fn manual_step(&mut self, dir: i32)
        requires
            old(self).wf(),
        ensures
            final(self).wf(),
            old(self).steps.len() == 0 ==> *final(self) == *old(self),
            old(self).steps.len() > 0 && dir > 0 ==> (final(self).steps@, final(self).cur as int,
                final(self).pp_dir, final(self).rng_seed) == spec_advance(
                old(self).steps@,
                old(self).cur as int,
                old(self).play_mode,
                old(self).pp_dir,
                old(self).rng_seed,
                (2 * old(self).steps.len()) as nat,
            ),
            old(self).steps.len() > 0 && dir <= 0 ==> {
                let n = old(self).steps.len() as int;
                let c = old(self).cur as int;
                &&& final(self).steps == old(self).steps
                &&& final(self).pp_dir == old(self).pp_dir
                &&& final(self).rng_seed == old(self).rng_seed
                &&& ((exists|k: int| 0 <= k < n && !old(self).steps[back_index(c, k, n)].muted)
                    ==> exists|k: int|
                    0 <= k < n && final(self).cur == back_index(c, k, n)
                        && !old(self).steps[back_index(c, k, n)].muted && forall|j: int|
                        0 <= j < k ==> #[trigger] old(self).steps[back_index(c, j, n)].muted)
                &&& ((forall|k: int| 0 <= k < n ==> old(self).steps[back_index(c, k, n)].muted)
                    ==> final(self).cur == back_index(c, 0, n))
            },
            same_but_visits(old(self).steps@, final(self).steps@),
            final(self).selected == old(self).selected,
            final(self).active == old(self).active,
            final(self).manual == old(self).manual,
            final(self).curve == old(self).curve,
            final(self).play_mode == old(self).play_mode,
    {
        let n = self.steps.len();
        if n == 0 {
            return;
        }
        if dir > 0 {
            self.advance_next();
        } else {
            let ghost c = self.cur as int;
            proof {
                lemma_back_index_zero(c, n as int);
            }
            let mut prev: usize = if self.cur >= 1 { self.cur - 1 } else { n - 1 };
            let mut i: usize = 0;
            let mut found = false;
            while i < n && !found
                invariant
                    n == self.steps.len(),
                    0 < n <= MAX_NAV_LEN,
                    self.wf(),
                    c == self.cur as int,
                    i <= n,
                    !found ==> prev as int == back_index(c, i as int, n as int),
                    found ==> prev as int == back_index(c, i as int, n as int) && !self.steps[prev as int].muted,
                    found ==> i < n,
                    forall|j: int| 0 <= j < i ==> #[trigger] self.steps[back_index(c, j, n as int)].muted,
                decreases n - i + (if found { 0int } else { 1int }),
            {
                proof {
                    lemma_back_index_step(c, i as int, n as int);
                }
                if !self.steps[prev].muted {
                    found = true;
                } else {
                    prev = if prev >= 1 { prev - 1 } else { n - 1 };
                    i = i + 1;
                }
            }
            if !found {
                prev = if self.cur >= 1 { self.cur - 1 } else { n - 1 };
            }
            self.cur = prev;
        }
    }

    /// Inserts a step after index `after` (a copy of step `after`, or a
    /// fresh default step when `after` is past the end) at position
    /// `min(after + 1, len)`, shifting `cur` and `selected` so they keep
    /// pointing at the same steps. Returns the position, or `None` (and
    /// changes nothing) when the pattern already holds `MAX_STEPS` steps.
    pub fn add_step_after(&mut self, after: usize) -> (pos: Option<usize>)
        requires
            old(self).wf(),
            old(self).steps.len() < MAX_STEPS ==> after < usize::MAX && old(self).cur < usize::MAX
                && old(self).selected != Some(usize::MAX),
        ensures
            old(self).steps.len() >= MAX_STEPS ==> pos is None && *final(self) == *old(self),
            old(self).steps.len() < MAX_STEPS ==> {
                let p = if after + 1 <= old(self).steps.len() {
                    after + 1
                } else {
                    old(self).steps.len() as int
                };
                &&& pos == Some(p as usize)
                &&& final(self).steps@ == old(self).steps@.insert(
                    p,
                    if after < old(self).steps.len() {
                        old(self).steps[after as int]
                    } else {
                        SeqStep::spec_new()
                    },
                )
                &&& final(self).cur as int == inserted_index(old(self).cur as int, p)
                &&& final(self).selected == inserted_selection(old(self).selected, p)
            },
            old(self).steps.len() > 0 ==> final(self).wf(),
            final(self).active == old(self).active,
            final(self).manual == old(self).manual,
            final(self).curve == old(self).curve,
            final(self).play_mode == old(self).play_mode,
            final(self).pp_dir == old(self).pp_dir,
            final(self).rng_seed == old(self).rng_seed,
    {
        let len = self.steps.len();
        if len >= MAX_STEPS {
            return None;
        }
        let new_step = if after < len {
            self.steps[after]
        } else {
            SeqStep::new()
        };
        let pos = if after + 1 <= len {
            after + 1
        } else {
            len
        };
        self.steps.insert(pos, new_step);
        if self.cur >= pos {
            self.cur = self.cur + 1;
        }
        if let Some(sel) = self.selected {
            if sel >= pos {
                self.selected = Some(sel + 1);
            }
        }
        Some(pos)
    }

    /// Removes step `idx` unless it is the last remaining step or out of
    /// range; `cur` and `selected` keep pointing at the same steps (a removed
    /// selection is cleared, a removed current step moves to its successor,
    /// or to the new last step). Returns whether a step was removed.
    pub fn remove_step(&mut self, idx: usize) -> (removed: bool)
        requires
            old(self).wf(),
        ensures
            removed == (old(self).steps.len() > 1 && idx < old(self).steps.len()),
            !removed ==> *final(self) == *old(self),
            removed ==> {
                &&& final(self).steps@ == old(self).steps@.remove(idx as int)
                &&& final(self).cur as int == removed_index(
                    old(self).cur as int,
                    idx as int,
                    final(self).steps.len() as int,
                )
                &&& final(self).selected == removed_selection(old(self).selected, idx as int)
            },
            final(self).wf(),
            final(self).active == old(self).active,
            final(self).manual == old(self).manual,
            final(self).curve == old(self).curve,
            final(self).play_mode == old(self).play_mode,
            final(self).pp_dir == old(self).pp_dir,
            final(self).rng_seed == old(self).rng_seed,
    {
        let len = self.steps.len();
        if len <= 1 || idx >= len {
            return false;
        }
        self.steps.remove(idx);
        if self.cur > idx {
            self.cur = self.cur - 1;
        } else if self.cur > len - 2 {
            self.cur = len - 2;
        }
        self.selected = match self.selected {
            Some(s) => if s == idx {
                None
            } else if s > idx {
                Some(s - 1)
            } else {
                Some(s)
            },
            None => None,
        };
        true
    }

    /// Appends a fresh default step and returns its index, or `None` when
    /// the pattern already holds `MAX_STEPS` steps.
    pub fn capture(&mut self) -> (r: Option<usize>)
        requires
            old(self).wf(),
        ensures
            old(self).steps.len() >= MAX_STEPS ==> r is None && *final(self) == *old(self),
            old(self).steps.len() < MAX_STEPS ==> r == Some(old(self).steps.len())
                && final(self).steps@ == old(self).steps@.push(SeqStep::spec_new()),
            old(self).steps.len() > 0 ==> final(self).wf(),
            final(self).cur == old(self).cur,
            final(self).selected == old(self).selected,
            final(self).active == old(self).active,
            final(self).manual == old(self).manual,
            final(self).curve == old(self).curve,
            final(self).play_mode == old(self).play_mode,
            final(self).pp_dir == old(self).pp_dir,
            final(self).rng_seed == old(self).rng_seed,
    {
        if self.steps.len() >= MAX_STEPS {
            return None;
        }
        self.steps.push(SeqStep::new());
        Some(self.steps.len() - 1)
    }

    /// Replaces the pattern and rewinds to step 0 with no selection.
    pub fn load_preset(&mut self, steps: Vec<SeqStep>)
        requires
            steps.len() <= MAX_NAV_LEN,
            old(self).pp_dir != i8::MIN,
        ensures
            final(self).wf(),
            final(self).steps@ == steps@,
            final(self).cur == 0,
            final(self).selected.is_none(),
            final(self).active == old(self).active,
            final(self).manual == old(self).manual,
            final(self).curve == old(self).curve,
            final(self).play_mode == old(self).play_mode,
            final(self).pp_dir == old(self).pp_dir,
            final(self).rng_seed == old(self).rng_seed,
    {
        self.steps = steps;
        self.cur = 0;
        self.selected = None;
    }

    /// Installs a saved pattern: its steps with visit counters cleared, its
    /// curve and play mode; rewinds to step 0, forward ping-pong direction,
    /// no selection.
    pub fn apply_preset(&mut self, steps: Vec<SeqStep>, curve: TranCurve, play_mode: SeqPlayMode)
        requires
            steps.len() <= MAX_NAV_LEN,
        ensures
            final(self).wf(),
            final(self).steps.len() == steps.len(),
            forall|i: int|
                0 <= i < steps.len() ==> #[trigger] final(self).steps[i] == visits_cleared(steps[i]),
            final(self).cur == 0,
            final(self).selected.is_none(),
            final(self).curve == curve,
            final(self).play_mode == play_mode,
            final(self).pp_dir == 1,
            final(self).active == old(self).active,
            final(self).manual == old(self).manual,
            final(self).rng_seed == old(self).rng_seed,
    {
        let mut steps = steps;
        let n = steps.len();
        let ghost orig = steps@;
        let mut i: usize = 0;
        while i < n
            invariant
                n == steps.len(),
                orig.len() == n,
                i <= n,
                forall|j: int| 0 <= j < i ==> #[trigger] steps[j] == visits_cleared(orig[j]),
                forall|j: int| i <= j < n ==> #[trigger] steps[j] == orig[j],
            decreases n - i,
        {
            let st = steps[i];
            steps.set(i, SeqStep { visits: 0, ..st });
            i = i + 1;
        }
        self.steps = steps;
        self.cur = 0;
        self.selected = None;
        self.curve = curve;
        self.play_mode = play_mode;
        self.pp_dir = 1;
    }

}


/// Forward play lands on the next step (wrapping) when that step plays: its
/// visit is counted and nothing else changes.
pub proof fn law_forward_plays_next(steps: Seq<SeqStep>, cur: int, pp: i8, rng: u32)
    requires
        0 <= cur < steps.len(),
        !steps[(cur + 1) % (steps.len() as int)].muted,
        spec_cond_passes(
            steps[(cur + 1) % (steps.len() as int)].cond,
            vstd::wrapping::u32_specs::wrapping_add(steps[(cur + 1) % (steps.len() as int)].visits, 1),
        ),
        steps[(cur + 1) % (steps.len() as int)].prob >= PROB_ALWAYS,
    ensures
        ({
            let nx = (cur + 1) % (steps.len() as int);
            let st = steps[nx];
            spec_advance(steps, cur, SeqPlayMode::Forward, pp, rng, (2 * steps.len()) as nat) == (
                steps.update(nx, SeqStep { visits: vstd::wrapping::u32_specs::wrapping_add(st.visits, 1), ..st }),
                nx,
                pp,
                rng,
            )
        }),
{
    let n = steps.len() as int;
    if n == 1 {
        assert((cur + 1) % n == 0);
    }
    assert(spec_raw_next(n, cur, SeqPlayMode::Forward, pp, rng) == ((cur + 1) % n, pp, rng));
}

/// A landing on a step of probability 0 (or less) never plays it, and a
/// step of probability `PROB_ONE` always passes the draw.
pub proof fn law_probability_gate(steps: Seq<SeqStep>, cur: int, mode: SeqPlayMode, pp: i8, rng: u32)
    requires
        steps.len() >= 1,
        0 <= cur < steps.len(),
        pp != i8::MIN,
    ensures
        steps[spec_raw_next(steps.len() as int, cur, mode, pp, rng).0].prob <= 0
            ==> !spec_attempt(steps, cur, mode, pp, rng).4,
        ({
            let st = steps[spec_raw_next(steps.len() as int, cur, mode, pp, rng).0];
            st.prob == PROB_ONE && !st.muted && spec_cond_passes(
                st.cond,
                vstd::wrapping::u32_specs::wrapping_add(st.visits, 1),
            ) ==> spec_attempt(steps, cur, mode, pp, rng).4
        }),
{
    law_raw_next_in_range(steps.len() as int, cur, mode, pp, rng);
}

/// Every play mode proposes an index inside the pattern and keeps the
/// ping-pong direction negatable.
pub proof fn law_raw_next_in_range(n: int, cur: int, mode: SeqPlayMode, pp: i8, rng: u32)
    requires
        n >= 1,
        0 <= cur < n,
        pp != i8::MIN,
    ensures
        0 <= spec_raw_next(n, cur, mode, pp, rng).0 < n,
        spec_raw_next(n, cur, mode, pp, rng).1 != i8::MIN,
{
}

/// With two or more steps, Random play never proposes the current step.
pub proof fn law_random_moves_away(n: int, cur: int, pp: i8, rng: u32)
    requires
        n >= 2,
        0 <= cur < n,
    ensures
        spec_raw_next(n, cur, SeqPlayMode::Random, pp, rng).0 != cur,
        spec_raw_next(n, cur, SeqPlayMode::Random, pp, rng).2 == lcg_next(rng),
{
    let r1 = lcg_next(rng);
    let nx = r1 as int % n;
    if nx == cur {
        if nx + 1 < n {
            vstd::arithmetic::div_mod::lemma_small_mod((nx + 1) as nat, n as nat);
        } else {
            vstd::arithmetic::div_mod::lemma_mod_self_0(n);
        }
    }
}

/// Reverse play steps back one, from the first step to the last.
pub proof fn law_reverse_steps_back(n: int, cur: int, pp: i8, rng: u32)
    requires
        n >= 2,
        0 <= cur < n,
    ensures
        spec_raw_next(n, cur, SeqPlayMode::Reverse, pp, rng) == (if cur == 0 { n - 1 } else { cur - 1 }, pp, rng),
{
}

/// Ping-pong with a unit direction walks one step, and at either end
/// reverses direction and walks one step the other way.
pub proof fn law_pingpong_bounces(n: int, cur: int, pp: i8, rng: u32)
    requires
        n >= 2,
        0 <= cur < n,
        pp == 1 || pp == -1,
    ensures
        0 <= cur + pp < n ==> spec_raw_next(n, cur, SeqPlayMode::PingPong, pp, rng) == (cur + pp, pp, rng),
        !(0 <= cur + pp < n) ==> spec_raw_next(n, cur, SeqPlayMode::PingPong, pp, rng) == (
            cur - pp,
            (-pp) as i8,
            rng,
        ),
{
}

/// Inserting a step and removing it again restores the pattern, the current
/// index and the selection.
pub proof fn law_insert_then_remove(steps: Seq<SeqStep>, x: SeqStep, p: int, cur: int, sel: Option<usize>)
    requires
        0 <= p <= steps.len(),
        0 <= cur < steps.len(),
        sel is Some ==> sel->0 < usize::MAX,
    ensures
        steps.insert(p, x).remove(p) == steps,
        removed_index(inserted_index(cur, p), p, steps.len() as int) == cur,
        removed_selection(inserted_selection(sel, p), p) == sel,
{
    assert(steps.insert(p, x).remove(p) =~= steps);
}

} // verus!
