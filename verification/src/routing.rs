//! Which LFO bank modulates each parameter, and how routing grows with the trip level.
use vstd::prelude::*;
use crate::lfo::{
    lfo_mp_default, LfoSrc, MP_COLOR_SHIFT, MP_FIELD_MIX, MP_ISO_LEVEL, MP_KSCALE, MP_SLOTS, MP_SPEED,
    MP_W_BAND, MP_W_LATTICE, MP_W_MOTIF, MP_ZOOM,
};
use crate::trip::TripLevel;

verus! {

/// Number of modulatable feedback parameters.
pub const FB_TARGETS: usize = 11;
pub const FB_ZOOM: usize = 0;
pub const FB_DECAY: usize = 1;
pub const FB_OFFSET_X: usize = 2;
pub const FB_OFFSET_Y: usize = 3;
pub const FB_ROTATION: usize = 4;
pub const FB_COLOR_SHIFT: usize = 5;
pub const FB_SATURATION: usize = 6;
pub const FB_BRIGHTNESS: usize = 7;
pub const FB_INJECT: usize = 8;
pub const FB_FOLD_ANGLE: usize = 9;
pub const FB_MOTION_BLUR: usize = 10;

/// LFO routing of every modulatable parameter: the 16 per-mode slots and the
/// 11 feedback parameters (indexed by the `FB_*` constants).
#[derive(Clone, Copy, PartialEq, Eq, Debug)]
pub struct LfoRoutes {
    pub mp: [LfoSrc; MP_SLOTS],
    pub fb: [LfoSrc; FB_TARGETS],
}

/// Level at which a per-mode slot starts being routed by the tour, and to which bank.
pub open spec fn mp_onset(i: int) -> Option<(int, LfoSrc)> {
    if i == MP_COLOR_SHIFT {
        Some((1, LfoSrc::A))
    } else if i == MP_FIELD_MIX {
        Some((2, LfoSrc::A))
    } else if i == MP_ISO_LEVEL {
        Some((3, LfoSrc::A))
    } else if i == MP_KSCALE || i == MP_SPEED || i == MP_ZOOM || i == MP_W_LATTICE
        || i == MP_W_MOTIF || i == MP_W_BAND {
        Some((4, LfoSrc::A))
    } else {
        None
    }
}

/// Level at which a feedback parameter starts being routed by the tour, and to which bank.
pub open spec fn fb_onset(j: int) -> (int, LfoSrc) {
    if j == FB_COLOR_SHIFT {
        (1, LfoSrc::B)
    } else if j == FB_ZOOM {
        (2, LfoSrc::B)
    } else if j == FB_FOLD_ANGLE {
        (3, LfoSrc::B)
    } else if j == FB_SATURATION {
        (3, LfoSrc::A)
    } else if j == FB_ROTATION {
        (4, LfoSrc::B)
    } else if j == FB_OFFSET_X || j == FB_OFFSET_Y || j == FB_DECAY {
        (5, LfoSrc::B)
    } else if j == FB_BRIGHTNESS {
        (6, LfoSrc::A)
    } else if j == FB_MOTION_BLUR {
        (6, LfoSrc::B)
    } else {
        (7, LfoSrc::A)
    }
}

/// Route of slot `i` at trip level `v`.
pub open spec fn mp_route(i: int, v: int) -> LfoSrc {
    match mp_onset(i) {
        Some((l, s)) => if v >= l { s } else { LfoSrc::Off },
        None => LfoSrc::Off,
    }
}

/// Route of feedback parameter `j` at trip level `v`.
pub open spec fn fb_route(j: int, v: int) -> LfoSrc {
    if v >= fb_onset(j).0 { fb_onset(j).1 } else { LfoSrc::Off }
}

/// `r` is exactly the routing the tour uses at level `v`.
pub open spec fn routes_match_level(r: LfoRoutes, v: int) -> bool {
    &&& forall|i: int| 0 <= i < MP_SLOTS ==> r.mp[i] == mp_route(i, v)
    &&& forall|j: int| 0 <= j < FB_TARGETS ==> r.fb[j] == fb_route(j, v)
}

/// Number of non-`Off` entries among the first `n` of `s`.
pub open spec fn count_routed(s: Seq<LfoSrc>, n: int) -> int
    decreases n,
{
    if n <= 0 {
        0
    } else {
        count_routed(s, n - 1) + if s[n - 1] != LfoSrc::Off { 1int } else { 0int }
    }
}

/// Routed targets: the nine canonical slots and the eleven feedback parameters.
pub open spec fn spec_routed_count(r: LfoRoutes) -> int {
    count_routed(r.mp@, 9) + count_routed(r.fb@, FB_TARGETS as int)
}

proof fn lemma_count_routed_mono(s1: Seq<LfoSrc>, s2: Seq<LfoSrc>, n: int)
    requires
        forall|i: int| 0 <= i < n ==> s1[i] != LfoSrc::Off ==> s2[i] != LfoSrc::Off,
    ensures
        count_routed(s1, n) <= count_routed(s2, n),
    decreases n,
{
    if n > 0 {
        lemma_count_routed_mono(s1, s2, n - 1);
    }
}

proof fn lemma_count_routed_bounds(s: Seq<LfoSrc>, n: int)
    requires
        n >= 0,
    ensures
        0 <= count_routed(s, n) <= n,
        (forall|i: int| 0 <= i < n ==> s[i] == LfoSrc::Off) ==> count_routed(s, n) == 0,
        (forall|i: int| 0 <= i < n ==> s[i] != LfoSrc::Off) ==> count_routed(s, n) == n,
    decreases n,
{
    if n > 0 {
        lemma_count_routed_bounds(s, n - 1);
    }
}

fn mp_route_at(i: usize, l: u8) -> (r: LfoSrc)
    ensures
        r == mp_route(i as int, l as int),
{
    if i == MP_COLOR_SHIFT {
        if l >= 1 { LfoSrc::A } else { LfoSrc::Off }
    } else if i == MP_FIELD_MIX {
        if l >= 2 { LfoSrc::A } else { LfoSrc::Off }
    } else if i == MP_ISO_LEVEL {
        if l >= 3 { LfoSrc::A } else { LfoSrc::Off }
    } else if i == MP_KSCALE || i == MP_SPEED || i == MP_ZOOM || i == MP_W_LATTICE
        || i == MP_W_MOTIF || i == MP_W_BAND {
        if l >= 4 { LfoSrc::A } else { LfoSrc::Off }
    } else {
        LfoSrc::Off
    }
}

fn fb_route_at(j: usize, l: u8) -> (r: LfoSrc)
    ensures
        r == fb_route(j as int, l as int),
{
    let (onset, src): (u8, LfoSrc) = if j == FB_COLOR_SHIFT {
        (1, LfoSrc::B)
    } else if j == FB_ZOOM {
        (2, LfoSrc::B)
    } else if j == FB_FOLD_ANGLE {
        (3, LfoSrc::B)
    } else if j == FB_SATURATION {
        (3, LfoSrc::A)
    } else if j == FB_ROTATION {
        (4, LfoSrc::B)
    } else if j == FB_OFFSET_X || j == FB_OFFSET_Y || j == FB_DECAY {
        (5, LfoSrc::B)
    } else if j == FB_BRIGHTNESS {
        (6, LfoSrc::A)
    } else if j == FB_MOTION_BLUR {
        (6, LfoSrc::B)
    } else {
        (7, LfoSrc::A)
    };
    if l >= onset { src } else { LfoSrc::Off }
}

impl LfoRoutes {
    /// Every target unrouted.
    pub fn unrouted() -> (r: LfoRoutes)
        ensures
            forall|i: int| 0 <= i < MP_SLOTS ==> r.mp[i] == LfoSrc::Off,
            forall|j: int| 0 <= j < FB_TARGETS ==> r.fb[j] == LfoSrc::Off,
    {
        LfoRoutes { mp: lfo_mp_default(), fb: [LfoSrc::Off; FB_TARGETS] }
    }

    /// Out-of-the-box routing: hue and zoom breathe on A, motif weight and
    /// feedback rotation sway on B, everything else off.
    pub fn default_routes() -> (r: LfoRoutes)
        ensures
            forall|i: int|
                0 <= i < MP_SLOTS ==> r.mp[i] == if i == MP_COLOR_SHIFT || i == MP_ZOOM {
                    LfoSrc::A
                } else if i == MP_W_MOTIF {
                    LfoSrc::B
                } else {
                    LfoSrc::Off
                },
            forall|j: int|
                0 <= j < FB_TARGETS ==> r.fb[j] == if j == FB_ROTATION {
                    LfoSrc::B
                } else {
                    LfoSrc::Off
                },
    {
        let mut r = LfoRoutes::unrouted();
        r.mp[MP_COLOR_SHIFT] = LfoSrc::A;
        r.mp[MP_ZOOM] = LfoSrc::A;
        r.mp[MP_W_MOTIF] = LfoSrc::B;
        r.fb[FB_ROTATION] = LfoSrc::B;
        r
    }

    /// Feedback-heavy tour routing: speed and hue on A, and every feedback
    /// parameter but `inject` on an engine.
    pub fn fb_heavy() -> (r: LfoRoutes)
        ensures
            forall|i: int|
                0 <= i < MP_SLOTS ==> r.mp[i] == if i == MP_SPEED || i == MP_COLOR_SHIFT {
                    LfoSrc::A
                } else {
                    LfoSrc::Off
                },
            r.fb[FB_ZOOM as int] == LfoSrc::A,
            r.fb[FB_DECAY as int] == LfoSrc::B,
            r.fb[FB_COLOR_SHIFT as int] == LfoSrc::A,
            r.fb[FB_SATURATION as int] == LfoSrc::A,
            r.fb[FB_BRIGHTNESS as int] == LfoSrc::B,
            r.fb[FB_ROTATION as int] == LfoSrc::A,
            r.fb[FB_OFFSET_X as int] == LfoSrc::B,
            r.fb[FB_OFFSET_Y as int] == LfoSrc::B,
            r.fb[FB_INJECT as int] == LfoSrc::Off,
            r.fb[FB_FOLD_ANGLE as int] == LfoSrc::A,
            r.fb[FB_MOTION_BLUR as int] == LfoSrc::B,
    {
        let mut r = LfoRoutes::unrouted();
        r.mp[MP_SPEED] = LfoSrc::A;
        r.mp[MP_COLOR_SHIFT] = LfoSrc::A;
        r.fb[FB_ZOOM] = LfoSrc::A;
        r.fb[FB_DECAY] = LfoSrc::B;
        r.fb[FB_COLOR_SHIFT] = LfoSrc::A;
        r.fb[FB_SATURATION] = LfoSrc::A;
        r.fb[FB_BRIGHTNESS] = LfoSrc::B;
        r.fb[FB_ROTATION] = LfoSrc::A;
        r.fb[FB_OFFSET_X] = LfoSrc::B;
        r.fb[FB_OFFSET_Y] = LfoSrc::B;
        r.fb[FB_FOLD_ANGLE] = LfoSrc::A;
        r.fb[FB_MOTION_BLUR] = LfoSrc::B;
        r
    }

    /// Tour routing at `level`: colour first, then geometry, then feedback.
    pub fn for_level(level: TripLevel) -> (r: LfoRoutes)
        requires
            level.wf(),
        ensures
            routes_match_level(r, level.value()),
    {
        let mut p = LfoRoutes::unrouted();
        let l = level.get();
        let mut i: usize = 0;
        while i < MP_SLOTS
            invariant
                i <= MP_SLOTS,
                l as int == level.value(),
                forall|k: int| 0 <= k < i ==> p.mp[k] == mp_route(k, l as int),
                forall|k: int| 0 <= k < FB_TARGETS ==> p.fb[k] == LfoSrc::Off,
            decreases MP_SLOTS - i,
        {
            p.mp[i] = mp_route_at(i, l);
            i = i + 1;
        }
        let mut j: usize = 0;
        while j < FB_TARGETS
            invariant
                j <= FB_TARGETS,
                l as int == level.value(),
                forall|k: int| 0 <= k < MP_SLOTS ==> p.mp[k] == mp_route(k, l as int),
                forall|k: int| 0 <= k < j ==> p.fb[k] == fb_route(k, l as int),
            decreases FB_TARGETS - j,
        {
            p.fb[j] = fb_route_at(j, l);
            j = j + 1;
        }
        p
    }

    /// Number of routed targets among the nine canonical slots and the
    /// eleven feedback parameters.
    pub fn routed_count(&self) -> (n: usize)
        ensures
            n as int == spec_routed_count(*self),
    {
        let mut n: usize = 0;
        let mut i: usize = 0;
        while i < 9
            invariant
                i <= 9,
                n as int == count_routed(self.mp@, i as int),
                n <= i,
            decreases 9 - i,
        {
            if self.mp[i] != LfoSrc::Off {
                n = n + 1;
            }
            i = i + 1;
        }
        let ghost base = n as int;
        let mut j: usize = 0;
        while j < FB_TARGETS
            invariant
                j <= FB_TARGETS,
                base == count_routed(self.mp@, 9),
                n as int == base + count_routed(self.fb@, j as int),
                n <= 9 + j,
            decreases FB_TARGETS - j,
        {
            if self.fb[j] != LfoSrc::Off {
                n = n + 1;
            }
            j = j + 1;
        }
        n
    }
}

/// The tour never routes fewer targets at a higher trip level.
pub proof fn law_routing_grows_with_level(r1: LfoRoutes, r2: LfoRoutes, a: int, b: int)
    requires
        a <= b,
        routes_match_level(r1, a),
        routes_match_level(r2, b),
    ensures
        spec_routed_count(r1) <= spec_routed_count(r2),
{
    assert forall|i: int| 0 <= i < 9 && r1.mp@[i] != LfoSrc::Off implies r2.mp@[i] != LfoSrc::Off by {
        assert(r1.mp[i] == mp_route(i, a));
        assert(r2.mp[i] == mp_route(i, b));
    }
    assert forall|j: int| 0 <= j < 11 && r1.fb@[j] != LfoSrc::Off implies r2.fb@[j] != LfoSrc::Off by {
        assert(r1.fb[j] == fb_route(j, a));
        assert(r2.fb[j] == fb_route(j, b));
    }
    lemma_count_routed_mono(r1.mp@, r2.mp@, 9);
    lemma_count_routed_mono(r1.fb@, r2.fb@, 11);
}

/// Level 0 routes nothing; from level 7 up all twenty targets are routed.
pub proof fn law_routing_extremes(r: LfoRoutes, v: int)
    requires
        routes_match_level(r, v),
    ensures
        v <= 0 ==> spec_routed_count(r) == 0,
        v >= 7 ==> spec_routed_count(r) == 20,
{
    assert forall|i: int| 0 <= i < 9 implies (v <= 0 ==> r.mp@[i] == LfoSrc::Off) && (v >= 7
        ==> r.mp@[i] != LfoSrc::Off) by {
        assert(r.mp[i] == mp_route(i, v));
    }
    assert forall|j: int| 0 <= j < 11 implies (v <= 0 ==> r.fb@[j] == LfoSrc::Off) && (v >= 7
        ==> r.fb@[j] != LfoSrc::Off) by {
        assert(r.fb[j] == fb_route(j, v));
    }
    lemma_count_routed_bounds(r.mp@, 9);
    lemma_count_routed_bounds(r.fb@, 11);
}

/// The tour's routing at level `v`, target by target. Per-mode slots only
/// ever follow bank A: colour shift from level 1, field mix from 2, iso level
/// from 3, and k-scale, speed, zoom and the three weights from 4; slots 9–15
/// are never routed. Feedback: colour shift (B) from 1, zoom (B) from 2, fold
/// angle (B) and saturation (A) from 3, rotation (B) from 4, both offsets and
/// decay (B) from 5, brightness (A) and motion blur (B) from 6, inject (A)
/// from 7. Bank A drives only saturation, brightness and inject.
pub proof fn law_routing_table(r: LfoRoutes, v: int)
    requires
        routes_match_level(r, v),
    ensures
        forall|i: int| 0 <= i < MP_SLOTS ==> #[trigger] r.mp[i] != LfoSrc::B,
        forall|i: int| 9 <= i < MP_SLOTS ==> #[trigger] r.mp[i] == LfoSrc::Off,
        r.mp[MP_COLOR_SHIFT as int] == if v >= 1 { LfoSrc::A } else { LfoSrc::Off },
        r.mp[MP_FIELD_MIX as int] == if v >= 2 { LfoSrc::A } else { LfoSrc::Off },
        r.mp[MP_ISO_LEVEL as int] == if v >= 3 { LfoSrc::A } else { LfoSrc::Off },
        r.mp[MP_KSCALE as int] == if v >= 4 { LfoSrc::A } else { LfoSrc::Off },
        r.mp[MP_SPEED as int] == if v >= 4 { LfoSrc::A } else { LfoSrc::Off },
        r.mp[MP_ZOOM as int] == if v >= 4 { LfoSrc::A } else { LfoSrc::Off },
        r.mp[MP_W_LATTICE as int] == if v >= 4 { LfoSrc::A } else { LfoSrc::Off },
        r.mp[MP_W_MOTIF as int] == if v >= 4 { LfoSrc::A } else { LfoSrc::Off },
        r.mp[MP_W_BAND as int] == if v >= 4 { LfoSrc::A } else { LfoSrc::Off },
        r.fb[FB_COLOR_SHIFT as int] == if v >= 1 { LfoSrc::B } else { LfoSrc::Off },
        r.fb[FB_ZOOM as int] == if v >= 2 { LfoSrc::B } else { LfoSrc::Off },
        r.fb[FB_FOLD_ANGLE as int] == if v >= 3 { LfoSrc::B } else { LfoSrc::Off },
        r.fb[FB_SATURATION as int] == if v >= 3 { LfoSrc::A } else { LfoSrc::Off },
        r.fb[FB_ROTATION as int] == if v >= 4 { LfoSrc::B } else { LfoSrc::Off },
        r.fb[FB_OFFSET_X as int] == if v >= 5 { LfoSrc::B } else { LfoSrc::Off },
        r.fb[FB_OFFSET_Y as int] == if v >= 5 { LfoSrc::B } else { LfoSrc::Off },
        r.fb[FB_DECAY as int] == if v >= 5 { LfoSrc::B } else { LfoSrc::Off },
        r.fb[FB_BRIGHTNESS as int] == if v >= 6 { LfoSrc::A } else { LfoSrc::Off },
        r.fb[FB_MOTION_BLUR as int] == if v >= 6 { LfoSrc::B } else { LfoSrc::Off },
        r.fb[FB_INJECT as int] == if v >= 7 { LfoSrc::A } else { LfoSrc::Off },
        forall|j: int|
            0 <= j < FB_TARGETS && #[trigger] r.fb[j] == LfoSrc::A ==> j == FB_SATURATION || j
                == FB_BRIGHTNESS || j == FB_INJECT,
{
    assert(r.mp[MP_COLOR_SHIFT as int] == mp_route(MP_COLOR_SHIFT as int, v));
    assert(r.mp[MP_FIELD_MIX as int] == mp_route(MP_FIELD_MIX as int, v));
    assert(r.mp[MP_ISO_LEVEL as int] == mp_route(MP_ISO_LEVEL as int, v));
    assert(r.mp[MP_KSCALE as int] == mp_route(MP_KSCALE as int, v));
    assert(r.mp[MP_SPEED as int] == mp_route(MP_SPEED as int, v));
    assert(r.mp[MP_ZOOM as int] == mp_route(MP_ZOOM as int, v));
    assert(r.mp[MP_W_LATTICE as int] == mp_route(MP_W_LATTICE as int, v));
    assert(r.mp[MP_W_MOTIF as int] == mp_route(MP_W_MOTIF as int, v));
    assert(r.mp[MP_W_BAND as int] == mp_route(MP_W_BAND as int, v));
    assert forall|j: int| 0 <= j < FB_TARGETS implies #[trigger] r.fb[j] == fb_route(j, v) by {}
    assert forall|i: int| 0 <= i < MP_SLOTS implies #[trigger] r.mp[i] == mp_route(i, v) by {}
}

} // verus!
