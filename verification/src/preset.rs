//! Preset bookkeeping: the shape checks a loaded preset must pass, and the
//! seeded generator of random presets with its small LCG.
use vstd::prelude::*;
use crate::lfo::LfoSrc;
use crate::routing::{
    fb_route, mp_route, LfoRoutes, FB_COLOR_SHIFT, FB_DECAY, FB_FOLD_ANGLE, FB_SATURATION,
    FB_TARGETS, FB_ZOOM,
};
use crate::seq::{lcg_next, lcg_step, unit_bits, SeqPlayMode, TranCurve};
use crate::text::{push_decimal, push_hex, spec_decimal, spec_hex};
use crate::trip::TripLevel;

verus! {

/// Two to the 24th: one more than the largest 24-bit fraction.
pub const UNIT_SCALE: u128 = 0x100_0000;

/// Weight of the lowest of the 24 leading bits of `p` (1 when `p` fits in 24 bits).
pub open spec fn sig_unit(p: nat) -> nat
    decreases p,
{
    if p < 0x100_0000 {
        1
    } else {
        2 * sig_unit(p / 2)
    }
}

/// `p` rounded to 24 significant bits, ties to even: how an `f32` holds the
/// integer `p` (or `p` times any power of two).
#[verifier::opaque]
pub open spec fn round_sig24(p: nat) -> nat {
    let u = sig_unit(p);
    let q = p / u;
    let r = p % u;
    if u == 1 {
        p
    } else if r * 2 > u || (r * 2 == u && q % 2 == 1) {
        (q + 1) * u
    } else {
        q * u
    }
}

proof fn lemma_sig_unit_pos(p: nat)
    ensures
        sig_unit(p) >= 1,
    decreases p,
{
    if p >= 0x100_0000 {
        lemma_sig_unit_pos(p / 2);
    }
}

proof fn lemma_sig_unit_below_2_28(p: nat)
    requires
        p < 0x1000_0000,
    ensures
        1 <= sig_unit(p) <= 16,
{
    let p1 = p / 2;
    let p2 = p1 / 2;
    let p3 = p2 / 2;
    let p4 = p3 / 2;
    assert(p4 < 0x100_0000);
    assert(sig_unit(p4) == 1);
    assert(sig_unit(p3) <= 2);
    assert(sig_unit(p2) <= 4);
    assert(sig_unit(p1) <= 8);
    assert(sig_unit(p) <= 16);
    lemma_sig_unit_pos(p);
}

/// Below 2^28, rounding to 24 significant bits adds at most 8.
proof fn lemma_round_sig24_close(p: nat)
    requires
        p < 0x1000_0000,
    ensures
        round_sig24(p) <= p + 8,
{
    reveal(round_sig24);
    lemma_sig_unit_below_2_28(p);
    let u = sig_unit(p);
    let q = p / u;
    let r = p % u;
    vstd::arithmetic::div_mod::lemma_fundamental_div_mod(p as int, u as int);
    vstd::arithmetic::div_mod::lemma_mod_bound(p as int, u as int);
    assert((q + 1) * u == q * u + u) by (nonlinear_arith);
    assert(q * u == u * q) by (nonlinear_arith);
}

/// `round_sig24(p)`, for `p` below 2^100.
pub fn round_sig24_exec(p: u128) -> (r: u128)
    requires
        p < 0x10_0000_0000_0000_0000_0000_0000,
    ensures
        r == round_sig24(p as nat),
        r <= 2 * p,
{
    let mut t: u128 = p;
    let mut unit: u128 = 1;
    while t >= UNIT_SCALE
        invariant
            p < 0x10_0000_0000_0000_0000_0000_0000,
            unit >= 1,
            t == p / unit,
            unit > 1 ==> t >= 0x80_0000,
            sig_unit(p as nat) == unit * sig_unit(t as nat),
        decreases t,
    {
        proof {
            lemma_sig_unit_pos((t / 2) as nat);
            vstd::arithmetic::div_mod::lemma_fundamental_div_mod(p as int, unit as int);
            assert(unit * t <= p) by (nonlinear_arith)
                requires
                    p == unit * (p / unit) + p % unit,
                    t == p / unit,
                    p % unit >= 0,
            ;
            assert(unit * 0x100_0000 <= unit * t) by (nonlinear_arith)
                requires
                    t >= 0x100_0000,
                    unit >= 1,
            ;
            vstd::arithmetic::div_mod::lemma_div_denominator(p as int, unit as int, 2);
            assert(sig_unit(t as nat) == 2 * sig_unit((t / 2) as nat));
            assert(unit * sig_unit(t as nat) == (unit * 2) * sig_unit((t / 2) as nat)) by (
            nonlinear_arith)
                requires
                    sig_unit(t as nat) == 2 * sig_unit((t / 2) as nat),
            ;
        }
        t = t / 2;
        unit = unit * 2;
    }
    assert(sig_unit(t as nat) == 1);
    proof {
        reveal(round_sig24);
        vstd::arithmetic::div_mod::lemma_fundamental_div_mod(p as int, unit as int);
    }
    assert(unit * t <= p) by (nonlinear_arith)
        requires
            p == unit * (p / unit) + p % unit,
            t == p / unit,
            p % unit >= 0,
    ;
    assert(sig_unit(p as nat) == unit) by (nonlinear_arith)
        requires
            sig_unit(p as nat) == unit * sig_unit(t as nat),
            sig_unit(t as nat) == 1,
    ;
    if unit == 1 {
        return p;
    }
    let q = t;
    let r = p % unit;
    proof {
        vstd::arithmetic::div_mod::lemma_fundamental_div_mod(p as int, unit as int);
        assert(unit * q <= p) by (nonlinear_arith)
            requires
                p == unit * (p / unit) + p % unit,
                q == p / unit,
                p % unit >= 0,
        ;
        assert((q + 1) * unit == q * unit + unit) by (nonlinear_arith);
        assert(q * unit == unit * q) by (nonlinear_arith);
        assert(unit <= unit * q) by (nonlinear_arith)
            requires
                q >= 0x80_0000,
        ;
    }
    if r * 2 > unit || (r * 2 == unit && q % 2 == 1) {
        (q + 1) * unit
    } else {
        q * unit
    }
}

/// The generator's state right after seeding with `seed`.
pub open spec fn lcg_seeded(seed: u32) -> u32 {
    ((seed as nat * 2654435761 + 1) % 0x1_0000_0000) as u32
}

/// Index that `pick` takes in a slice of `len` elements for the 24-bit
/// fraction `u`: `u / 2^24` times `len`, both as `f32`, truncated, and kept
/// below `len`.
pub open spec fn pick_index(u: int, len: nat) -> int {
    let i = round_sig24((u * round_sig24(len)) as nat) as int / 0x100_0000;
    if i < len - 1 {
        i
    } else {
        len - 1
    }
}

/// `u / 2^24` times the small integer `k`, in `f32`, truncated.
pub open spec fn scaled_floor(u: int, k: nat) -> int {
    round_sig24((u * k) as nat) as int / 0x100_0000
}

/// Small deterministic linear congruential generator (Knuth's constants).
pub struct Lcg(u32);

impl View for Lcg {
    type V = u32;

    closed spec fn view(&self) -> u32 {
        self.0
    }
}

impl Lcg {
    pub fn new(seed: u32) -> (r: Lcg)
        ensures
            r@ == lcg_seeded(seed),
    {
        let m = seed.wrapping_mul(2654435761);
        let r = m.wrapping_add(1);
        proof {
            let x = seed as int * 2654435761;
            vstd::arithmetic::div_mod::lemma_add_mod_noop(x, 1, 0x1_0000_0000);
            vstd::arithmetic::div_mod::lemma_small_mod(1, 0x1_0000_0000);
            vstd::arithmetic::div_mod::lemma_mod_twice(x + 1, 0x1_0000_0000);
        }
        Lcg(r)
    }

    /// Advances the state and returns it.
    pub fn next_u32(&mut self) -> (r: u32)
        ensures
            final(self)@ == lcg_next(old(self)@),
            r == final(self)@,
    {
        self.0 = lcg_step(self.0);
        self.0
    }

    /// The next 24-bit fraction: bits 8..32 of the next state (the draw is
    /// that value divided by 2^24).
    pub fn next_unit_bits(&mut self) -> (r: u32)
        ensures
            final(self)@ == lcg_next(old(self)@),
            r as int == unit_bits(final(self)@),
            r < 0x100_0000,
    {
        let v = self.next_u32();
        v / 256
    }

    /// An element of `xs` chosen by the next draw.
    pub fn pick<T: Copy>(&mut self, xs: &[T]) -> (r: T)
        requires
            xs@.len() > 0,
        ensures
            final(self)@ == lcg_next(old(self)@),
            r == xs@[pick_index(unit_bits(final(self)@), xs@.len())],
    {
        let u = self.next_unit_bits();
        let idx = pick_slot(u, xs.len());
        xs[idx]
    }
}

/// `pick_index(u, len)` for a 24-bit `u` and a non-empty slice.
pub fn pick_slot(u: u32, len: usize) -> (i: usize)
    requires
        u < 0x100_0000,
        len > 0,
    ensures
        i as int == pick_index(u as int, len as nat),
        i < len,
{
    let lf = round_sig24_exec(len as u128);
    assert((u as u128) * lf < 0x10_0000_0000_0000_0000_0000_0000) by (nonlinear_arith)
        requires
            u < 0x100_0000,
            lf <= 2 * len,
            len <= usize::MAX,
            usize::MAX < 0x1_0000_0000_0000_0000,
    ;
    let p: u128 = (u as u128) * lf;
    let q = round_sig24_exec(p) / UNIT_SCALE;
    if q < (len - 1) as u128 {
        q as usize
    } else {
        len - 1
    }
}

/// `scaled_floor(u, k)` for a 24-bit `u` and `k` below 2^24.
pub fn scaled_floor_exec(u: u32, k: u32) -> (r: u32)
    requires
        u < 0x100_0000,
        k < 0x100_0000,
    ensures
        r as int == scaled_floor(u as int, k as nat),
        r <= 2 * k,
{
    assert((u as u128) * (k as u128) < 0x1_0000_0000_0000) by (nonlinear_arith)
        requires
            u < 0x100_0000,
            k < 0x100_0000,
    ;
    let p: u128 = (u as u128) * (k as u128);
    let r = round_sig24_exec(p);
    assert((p as int) <= (k as int) * 0x100_0000) by (nonlinear_arith)
        requires
            p as int == (u as int) * (k as int),
            u < 0x100_0000,
            k >= 0,
    ;
    assert(r / UNIT_SCALE <= 2 * k) by (nonlinear_arith)
        requires
            r <= 2 * p,
            (p as int) <= (k as int) * 0x100_0000,
            UNIT_SCALE == 0x100_0000,
    ;
    (r / UNIT_SCALE) as u32
}

// ── Shape checks of a loaded preset ──────────────────────────────────────

/// Current version of the preset format.
pub const PRESET_VERSION: u32 = 2;

/// Most steps a preset may hold.
pub const PRESET_MAX_STEPS: usize = 32;

/// Why a parsed preset is refused.
#[derive(Clone, Copy, PartialEq, Eq, Debug, Structural)]
pub enum PresetShapeError {
    /// Written by a newer format version than this build reads.
    TooNew(u32),
    NoSteps,
    TooManySteps(usize),
}

/// The check a parsed preset must pass: version first, then step count.
pub open spec fn spec_check_shape(version: u32, n_steps: nat) -> Result<(), PresetShapeError> {
    if version > PRESET_VERSION {
        Err(PresetShapeError::TooNew(version))
    } else if n_steps == 0 {
        Err(PresetShapeError::NoSteps)
    } else if n_steps > PRESET_MAX_STEPS {
        Err(PresetShapeError::TooManySteps(n_steps as usize))
    } else {
        Ok(())
    }
}

/// Checks the version and the number of steps of a parsed preset.
pub fn check_preset_shape(version: u32, n_steps: usize) -> (r: Result<(), PresetShapeError>)
    ensures
        r == spec_check_shape(version, n_steps as nat),
{
    if version > PRESET_VERSION {
        Err(PresetShapeError::TooNew(version))
    } else if n_steps == 0 {
        Err(PresetShapeError::NoSteps)
    } else if n_steps > PRESET_MAX_STEPS {
        Err(PresetShapeError::TooManySteps(n_steps))
    } else {
        Ok(())
    }
}

impl PresetShapeError {
    pub open spec fn spec_message(self) -> Seq<char> {
        match self {
            PresetShapeError::TooNew(v) => "preset version "@ + spec_decimal(v as nat)
                + " is newer than this build (max 2)"@,
            PresetShapeError::NoSteps => "preset has zero steps"@,
            PresetShapeError::TooManySteps(n) => "preset has "@ + spec_decimal(n as nat)
                + " steps (max 32)"@,
        }
    }

    /// The refusal message.
    pub fn message(&self) -> (r: String)
        ensures
            r@ == self.spec_message(),
    {
        match *self {
            PresetShapeError::TooNew(v) => {
                let mut s = String::from_str("preset version ");
                push_decimal(&mut s, v as u64);
                s.append(" is newer than this build (max 2)");
                s
            },
            PresetShapeError::NoSteps => String::from_str("preset has zero steps"),
            PresetShapeError::TooManySteps(n) => {
                let mut s = String::from_str("preset has ");
                push_decimal(&mut s, n as u64);
                s.append(" steps (max 32)");
                s
            },
        }
    }
}

// ── Random presets ───────────────────────────────────────────────────────

/// Number of duration multipliers a random step picks from
/// (0.5, 0.75, 1, 1, 1, 1.5, 2).
pub const DUR_MUL_CHOICES: usize = 7;

/// Number of probabilities a random step picks from (1 eight times, 0.85, 0.6).
pub const PROB_CHOICES: usize = 10;

/// Draws below this 24-bit value mute a random step (`0.02f32`).
pub const MUTE_BELOW: u32 = 335545;

/// Draws below this value give a random step its own curve (`0.25f32`).
pub const CURVE_BELOW: u32 = 4194304;

/// Draws below this value give a random step a cycle condition (`0.15f32`).
pub const COND_BELOW: u32 = 2516583;

/// Draws below this value re-route an LFO target (`0.18f32`).
pub const REROUTE_BELOW: u32 = 3019899;

pub open spec fn step_curve_choices() -> Seq<TranCurve> {
    seq![
        TranCurve::Linear,
        TranCurve::EaseInOut,
        TranCurve::Silk,
        TranCurve::Snap,
        TranCurve::Bounce,
        TranCurve::Over,
    ]
}

pub open spec fn global_curve_choices() -> Seq<TranCurve> {
    seq![
        TranCurve::Linear,
        TranCurve::EaseInOut,
        TranCurve::Silk,
        TranCurve::Silk,
        TranCurve::Snap,
        TranCurve::Bounce,
        TranCurve::Over,
    ]
}

pub open spec fn play_mode_choices() -> Seq<SeqPlayMode> {
    seq![
        SeqPlayMode::Forward,
        SeqPlayMode::Forward,
        SeqPlayMode::Forward,
        SeqPlayMode::Reverse,
        SeqPlayMode::PingPong,
        SeqPlayMode::Random,
    ]
}

pub open spec fn random_cond_choices() -> Seq<(u8, u8)> {
    seq![(1u8, 2u8), (2u8, 2u8), (1u8, 3u8), (1u8, 4u8)]
}

/// The discrete choices of one random step; the duration multiplier and the
/// probability are slots in their tables of choices.
#[derive(Clone, Copy, PartialEq, Eq, Debug)]
pub struct RandomStep {
    pub dur_mul_slot: usize,
    pub prob_slot: usize,
    pub muted: bool,
    pub curve_override: Option<TranCurve>,
    pub cond: (u8, u8),
}

/// One random step drawn from state `s`, with the state after it.
pub open spec fn spec_random_step(s: u32) -> (RandomStep, u32) {
    let s1 = lcg_next(s);
    let s2 = lcg_next(s1);
    let s3 = lcg_next(s2);
    let s4 = lcg_next(s3);
    let has_curve = unit_bits(s4) < CURVE_BELOW;
    let s5 = if has_curve {
        lcg_next(s4)
    } else {
        s4
    };
    let s6 = lcg_next(s5);
    let has_cond = unit_bits(s6) < COND_BELOW;
    let s7 = if has_cond {
        lcg_next(s6)
    } else {
        s6
    };
    (
        RandomStep {
            dur_mul_slot: pick_index(unit_bits(s1), 7) as usize,
            prob_slot: pick_index(unit_bits(s2), 10) as usize,
            muted: unit_bits(s3) < MUTE_BELOW,
            curve_override: if has_curve {
                Some(step_curve_choices()[pick_index(unit_bits(s5), 6)])
            } else {
                None
            },
            cond: if has_cond {
                random_cond_choices()[pick_index(unit_bits(s7), 4)]
            } else {
                (1u8, 1u8)
            },
        },
        s7,
    )
}

/// `n` random steps drawn in order from state `s`, with the state after them.
pub open spec fn spec_random_steps(s: u32, n: nat) -> (Seq<RandomStep>, u32)
    decreases n,
{
    if n == 0 {
        (Seq::empty(), s)
    } else {
        let prev = spec_random_steps(s, (n - 1) as nat);
        let next = spec_random_step(prev.1);
        (prev.0.push(next.0), next.1)
    }
}

/// A possible re-routing drawn from state `s`: `None` leaves the target as
/// the level routes it.
pub open spec fn spec_reroute(s: u32) -> (Option<LfoSrc>, u32) {
    let s1 = lcg_next(s);
    if unit_bits(s1) < REROUTE_BELOW {
        let s2 = lcg_next(s1);
        (
            Some(
                if s2 % 4 == 0 {
                    LfoSrc::Off
                } else if s2 % 4 == 1 {
                    LfoSrc::A
                } else {
                    LfoSrc::B
                },
            ),
            s2,
        )
    } else {
        (None, s1)
    }
}

pub open spec fn spec_reroutes(s: u32, n: nat) -> (Seq<Option<LfoSrc>>, u32)
    decreases n,
{
    if n == 0 {
        (Seq::empty(), s)
    } else {
        let prev = spec_reroutes(s, (n - 1) as nat);
        let next = spec_reroute(prev.1);
        (prev.0.push(next.0), next.1)
    }
}

/// `k` steps of the generator from `s`.
pub open spec fn lcg_iter(s: u32, k: nat) -> u32
    decreases k,
{
    if k == 0 {
        s
    } else {
        lcg_next(lcg_iter(s, (k - 1) as nat))
    }
}

/// Raw trip level from two draws: `(a + b) * 0.5 * 10.0` in `f32`, truncated.
pub open spec fn random_level_raw(u1: int, u2: int) -> int {
    round_sig24(round_sig24((u1 + u2) as nat) * 10) as int / 0x200_0000
}

/// Number of re-routable LFO targets: six per-mode slots, then feedback zoom,
/// decay, colour shift, saturation and fold angle.
pub const REROUTE_TARGETS: usize = 11;

/// Position among the re-routable targets of feedback parameter `j`, if any.
pub open spec fn fb_reroute_slot(j: int) -> int {
    if j == FB_ZOOM {
        6
    } else if j == FB_DECAY {
        7
    } else if j == FB_COLOR_SHIFT {
        8
    } else if j == FB_SATURATION {
        9
    } else if j == FB_FOLD_ANGLE {
        10
    } else {
        -1
    }
}

pub open spec fn rerouted(base: LfoSrc, change: Option<LfoSrc>) -> LfoSrc {
    match change {
        Some(s) => s,
        None => base,
    }
}

/// The routing of level `v` with the drawn re-routings applied.
pub open spec fn routes_rerouted(r: LfoRoutes, v: int, changes: Seq<Option<LfoSrc>>) -> bool {
    &&& forall|i: int|
        0 <= i < 16 ==> r.mp[i] == if i < 6 {
            rerouted(mp_route(i, v), changes[i])
        } else {
            mp_route(i, v)
        }
    &&& forall|j: int|
        0 <= j < FB_TARGETS ==> r.fb[j] == if fb_reroute_slot(j) >= 0 {
            rerouted(fb_route(j, v), changes[fb_reroute_slot(j)])
        } else {
            fb_route(j, v)
        }
}

/// The three 24-bit draws behind an LFO engine's rate factor, depth factor
/// and phase.
#[derive(Clone, Copy, PartialEq, Eq, Debug, Structural)]
pub struct EngineDraws {
    pub rate: u32,
    pub depth: u32,
    pub phase: u32,
}

/// The engine draws taken from state `s` on.
pub open spec fn spec_engine_draws(s: u32) -> EngineDraws {
    EngineDraws {
        rate: unit_bits(lcg_iter(s, 1)) as u32,
        depth: unit_bits(lcg_iter(s, 2)) as u32,
        phase: unit_bits(lcg_iter(s, 3)) as u32,
    }
}

/// Everything a seed decides of a random preset. Continuous values are the
/// 24-bit draws they are scaled from.
pub struct RandomPreset {
    pub name: String,
    pub steps: Vec<RandomStep>,
    pub step_dur: u32,
    pub curve: TranCurve,
    pub play_mode: SeqPlayMode,
    pub trip_level: TripLevel,
    pub lfo_a: EngineDraws,
    pub lfo_b: EngineDraws,
    pub routes: LfoRoutes,
    pub flux: u32,
    pub morph: u32,
    pub drift: u32,
}

/// Number of random steps for `seed` (4 to 15).
pub open spec fn random_step_count(seed: u32) -> nat {
    (4 + scaled_floor(unit_bits(lcg_iter(lcg_seeded(seed), 1)), 12)) as nat
}

/// The generator state after the steps of `seed`'s preset are drawn.
pub open spec fn after_steps(seed: u32) -> u32 {
    spec_random_steps(lcg_iter(lcg_seeded(seed), 1), random_step_count(seed)).1
}

/// The state after the engine draws, where the re-routings start.
pub open spec fn before_reroutes(seed: u32) -> u32 {
    lcg_iter(after_steps(seed), 11)
}

/// What `random_preset(seed)` is.
pub open spec fn is_random_preset(p: RandomPreset, seed: u32) -> bool {
    let s = after_steps(seed);
    let rr = spec_reroutes(before_reroutes(seed), 11);
    let level = random_level_raw(unit_bits(lcg_iter(s, 4)), unit_bits(lcg_iter(s, 5)));
    &&& p.name@ == "RND-"@ + spec_hex(seed as nat, 8)
    &&& p.steps@ == spec_random_steps(lcg_iter(lcg_seeded(seed), 1), random_step_count(seed)).0
    &&& p.step_dur as int == unit_bits(lcg_iter(s, 1))
    &&& p.curve == global_curve_choices()[pick_index(unit_bits(lcg_iter(s, 2)), 7)]
    &&& p.play_mode == play_mode_choices()[pick_index(unit_bits(lcg_iter(s, 3)), 6)]
    &&& p.trip_level.wf()
    &&& p.trip_level.value() == if level <= 9 {
        level
    } else {
        9
    }
    &&& p.lfo_a == spec_engine_draws(lcg_iter(s, 5))
    &&& p.lfo_b == spec_engine_draws(lcg_iter(s, 8))
    &&& routes_rerouted(p.routes, p.trip_level.value(), rr.0)
    &&& p.flux as int == unit_bits(lcg_iter(rr.1, 1))
    &&& p.morph as int == unit_bits(lcg_iter(rr.1, 2))
    &&& p.drift as int == unit_bits(lcg_iter(rr.1, 3))
}

proof fn lemma_lcg_iter_add(s: u32, a: nat, b: nat)
    ensures
        lcg_iter(lcg_iter(s, a), b) == lcg_iter(s, a + b),
    decreases b,
{
    if b > 0 {
        lemma_lcg_iter_add(s, a, (b - 1) as nat);
    }
}

fn random_step(g: &mut Lcg) -> (st: RandomStep)
    ensures
        st == spec_random_step(old(g)@).0,
        final(g)@ == spec_random_step(old(g)@).1,
{
    let dur_mul_slot = pick_slot(g.next_unit_bits(), DUR_MUL_CHOICES);
    let prob_slot = pick_slot(g.next_unit_bits(), PROB_CHOICES);
    let muted = g.next_unit_bits() < MUTE_BELOW;
    let curve_override = if g.next_unit_bits() < CURVE_BELOW {
        let curves = [
            TranCurve::Linear,
            TranCurve::EaseInOut,
            TranCurve::Silk,
            TranCurve::Snap,
            TranCurve::Bounce,
            TranCurve::Over,
        ];
        assert(curves@ =~= step_curve_choices());
        Some(g.pick(&curves))
    } else {
        None
    };
    let cond = if g.next_unit_bits() < COND_BELOW {
        let conds: [(u8, u8); 4] = [(1, 2), (2, 2), (1, 3), (1, 4)];
        assert(conds@ =~= random_cond_choices());
        g.pick(&conds)
    } else {
        (1, 1)
    };
    RandomStep { dur_mul_slot, prob_slot, muted, curve_override, cond }
}

/// A possible re-routing drawn from the generator.
fn draw_reroute(g: &mut Lcg) -> (c: Option<LfoSrc>)
    ensures
        c == spec_reroute(old(g)@).0,
        final(g)@ == spec_reroute(old(g)@).1,
{
    if g.next_unit_bits() < REROUTE_BELOW {
        let v = g.next_u32();
        Some(
            if v % 4 == 0 {
                LfoSrc::Off
            } else if v % 4 == 1 {
                LfoSrc::A
            } else {
                LfoSrc::B
            },
        )
    } else {
        None
    }
}

fn apply_change(base: LfoSrc, change: Option<LfoSrc>) -> (r: LfoSrc)
    ensures
        r == rerouted(base, change),
{
    match change {
        Some(s) => s,
        None => base,
    }
}

fn random_steps(g: &mut Lcg, n: usize) -> (steps: Vec<RandomStep>)
    ensures
        steps@ == spec_random_steps(old(g)@, n as nat).0,
        steps@.len() == n,
        final(g)@ == spec_random_steps(old(g)@, n as nat).1,
{
    let ghost s1 = g@;
    let mut steps: Vec<RandomStep> = Vec::new();
    let mut i: usize = 0;
    while i < n
        invariant
            i <= n,
            steps@.len() == i,
            steps@ == spec_random_steps(s1, i as nat).0,
            g@ == spec_random_steps(s1, i as nat).1,
        decreases n - i,
    {
        let st = random_step(g);
        steps.push(st);
        i = i + 1;
    }
    steps
}

proof fn lemma_reroutes_len(s: u32, n: nat)
    ensures
        spec_reroutes(s, n).0.len() == n,
    decreases n,
{
    if n > 0 {
        lemma_reroutes_len(s, (n - 1) as nat);
    }
}

/// The eleven re-routing draws, in target order.
fn draw_changes(g: &mut Lcg) -> (changes: Vec<Option<LfoSrc>>)
    ensures
        changes@ == spec_reroutes(old(g)@, 11).0,
        changes@.len() == REROUTE_TARGETS,
        final(g)@ == spec_reroutes(old(g)@, 11).1,
{
    let ghost b = g@;
    let mut changes: Vec<Option<LfoSrc>> = Vec::new();
    let mut k: usize = 0;
    while k < REROUTE_TARGETS
        invariant
            k <= REROUTE_TARGETS,
            changes@ == spec_reroutes(b, k as nat).0,
            g@ == spec_reroutes(b, k as nat).1,
        decreases REROUTE_TARGETS - k,
    {
        let c = draw_reroute(g);
        changes.push(c);
        k = k + 1;
    }
    proof {
        lemma_reroutes_len(b, 11);
    }
    changes
}

/// The routing of `level` with the re-routings `changes` applied.
fn apply_changes(level: TripLevel, changes: &Vec<Option<LfoSrc>>) -> (routes: LfoRoutes)
    requires
        level.wf(),
        changes@.len() == REROUTE_TARGETS,
    ensures
        routes_rerouted(routes, level.value(), changes@),
{
    let ghost lv = level.value();
    let mut routes = LfoRoutes::for_level(level);
    let mut j: usize = 0;
    while j < 6
        invariant
            j <= 6,
            changes@.len() == REROUTE_TARGETS,
            forall|q: int| 0 <= q < j ==> routes.mp[q] == rerouted(mp_route(q, lv), changes@[q]),
            forall|q: int| j <= q < 16 ==> routes.mp[q] == mp_route(q, lv),
            forall|q: int| 0 <= q < FB_TARGETS ==> routes.fb[q] == fb_route(q, lv),
        decreases 6 - j,
    {
        routes.mp[j] = apply_change(routes.mp[j], changes[j]);
        j = j + 1;
    }
    let mut fb = routes.fb;
    fb[FB_ZOOM] = apply_change(fb[FB_ZOOM], changes[6]);
    fb[FB_DECAY] = apply_change(fb[FB_DECAY], changes[7]);
    fb[FB_COLOR_SHIFT] = apply_change(fb[FB_COLOR_SHIFT], changes[8]);
    fb[FB_SATURATION] = apply_change(fb[FB_SATURATION], changes[9]);
    fb[FB_FOLD_ANGLE] = apply_change(fb[FB_FOLD_ANGLE], changes[10]);
    assert forall|q: int| 0 <= q < FB_TARGETS implies fb[q] == if fb_reroute_slot(q) >= 0 {
        rerouted(fb_route(q, lv), changes@[fb_reroute_slot(q)])
    } else {
        fb_route(q, lv)
    } by {}
    routes.fb = fb;
    routes
}

/// Raw trip level from two 24-bit draws.
fn random_level(u1: u32, u2: u32) -> (r: u8)
    requires
        u1 < 0x100_0000,
        u2 < 0x100_0000,
    ensures
        r as int == random_level_raw(u1 as int, u2 as int),
{
    let half = round_sig24_exec(u1 as u128 + u2 as u128);
    let raw = round_sig24_exec(half * 10) / 0x200_0000;
    assert(raw <= 40);
    raw as u8
}

fn engine_draws(g: &mut Lcg) -> (d: EngineDraws)
    ensures
        d == spec_engine_draws(old(g)@),
        final(g)@ == lcg_iter(old(g)@, 3),
{
    let ghost s = g@;
    assert(lcg_iter(s, 0) == s);
    let rate = g.next_unit_bits();
    let depth = g.next_unit_bits();
    let phase = g.next_unit_bits();
    EngineDraws { rate, depth, phase }
}

/// The random preset that `seed` reproduces: 4 to 15 steps with drawn
/// duration, probability, mute, curve and cycle condition; the global curve,
/// play mode and trip level (centred on 5); the LFO draws; the level's tour
/// routing with a few targets re-routed; and the name `RND-` plus the seed in
/// eight hexadecimal digits.
#[verifier::spinoff_prover]
pub fn random_preset(seed: u32) -> (p: RandomPreset)
    ensures
        is_random_preset(p, seed),
        4 <= p.steps@.len() <= 15,
        spec_check_shape(PRESET_VERSION, p.steps@.len()) == Ok::<(), PresetShapeError>(()),
{
    let mut g = Lcg::new(seed);
    let u0 = g.next_unit_bits();
    let sf = scaled_floor_exec(u0, 12);
    proof {
        lemma_round_sig24_close((u0 * 12) as nat);
        let rr = round_sig24((u0 * 12) as nat);
        assert(rr <= 12 * 0x100_0000 - 4);
        assert(rr as int / 0x100_0000 <= 11) by (nonlinear_arith)
            requires
                rr <= 12 * 0x100_0000 - 4,
        ;
    }
    let n = 4 + sf as usize;
    assert(lcg_iter(lcg_seeded(seed), 0) == lcg_seeded(seed));
    assert(g@ == lcg_iter(lcg_seeded(seed), 1));
    let steps = random_steps(&mut g, n);
    let ghost s = g@;
    assert(lcg_iter(s, 0) == s);
    let step_dur = g.next_unit_bits();
    assert(g@ == lcg_iter(s, 1));
    let curves = [
        TranCurve::Linear,
        TranCurve::EaseInOut,
        TranCurve::Silk,
        TranCurve::Silk,
        TranCurve::Snap,
        TranCurve::Bounce,
        TranCurve::Over,
    ];
    assert(curves@ =~= global_curve_choices());
    let curve = g.pick(&curves);
    assert(g@ == lcg_iter(s, 2));
    let modes = [
        SeqPlayMode::Forward,
        SeqPlayMode::Forward,
        SeqPlayMode::Forward,
        SeqPlayMode::Reverse,
        SeqPlayMode::PingPong,
        SeqPlayMode::Random,
    ];
    assert(modes@ =~= play_mode_choices());
    let play_mode = g.pick(&modes);
    assert(g@ == lcg_iter(s, 3));
    let u1 = g.next_unit_bits();
    assert(g@ == lcg_iter(s, 4));
    let u2 = g.next_unit_bits();
    let trip_level = TripLevel::new(random_level(u1, u2));
    assert(g@ == lcg_iter(s, 5));
    let lfo_a = engine_draws(&mut g);
    let lfo_b = engine_draws(&mut g);
    proof {
        lemma_lcg_iter_add(s, 5, 3);
        lemma_lcg_iter_add(s, 8, 3);
    }
    let changes = draw_changes(&mut g);
    let routes = apply_changes(trip_level, &changes);
    let ghost t = g@;
    assert(lcg_iter(t, 0) == t);
    let flux = g.next_unit_bits();
    assert(g@ == lcg_iter(t, 1));
    let morph = g.next_unit_bits();
    assert(g@ == lcg_iter(t, 2));
    let drift = g.next_unit_bits();
    assert(g@ == lcg_iter(t, 3));
    let mut name = String::from_str("RND-");
    push_hex(&mut name, seed as u64, 8);
    RandomPreset {
        name,
        steps,
        step_dur,
        curve,
        play_mode,
        trip_level,
        lfo_a,
        lfo_b,
        routes,
        flux,
        morph,
        drift,
    }
}

} // verus!
