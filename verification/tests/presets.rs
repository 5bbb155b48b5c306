use crystal_viz::lfo::LfoSrc;
use crystal_viz::preset::{
    check_preset_shape, pick_slot, random_preset, round_sig24_exec, scaled_floor_exec, Lcg,
    PresetShapeError, DUR_MUL_CHOICES, PRESET_VERSION, PROB_CHOICES,
};
use crystal_viz::routing::LfoRoutes;
use crystal_viz::seq::{SeqPlayMode, TranCurve};

/// What `Lcg::pick` computes in `f32`: the draw times the slice length, truncated.
fn float_pick(u: u32, len: usize) -> usize {
    let unit = u as f32 / 16_777_216.0;
    let i = (unit * len as f32) as usize;
    i.min(len - 1)
}

#[test]
fn round_sig24_matches_f32() {
    for p in [0u128, 1, 0xFF_FFFF, 0x100_0000, 0x100_0001, 0x100_0002, 0x100_0003, 0x2FF_FFFF, 0x300_0001, 123_456_789, 0xFFFF_FFFF] {
        assert_eq!(round_sig24_exec(p), p as f32 as u128, "p = {p}");
    }
}

#[test]
fn pick_matches_f32_arithmetic() {
    let mut u: u32 = 0;
    while u < 0x100_0000 {
        for len in [1usize, 2, 3, 4, 6, 7, 10, 12, 46, 1000] {
            assert_eq!(pick_slot(u, len), float_pick(u, len), "u = {u}, len = {len}");
        }
        u += 997;
    }
    for u in [0xFF_FFFFu32, 0xFF_FFFE, 0xFF_FFF0, 0xDB_6DB6, 0xDB_6DB7, 0x92_4924, 0x92_4925] {
        for len in [3usize, 6, 7, 10, 12] {
            assert_eq!(pick_slot(u, len), float_pick(u, len), "u = {u}, len = {len}");
        }
    }
}

#[test]
fn scaled_floor_matches_f32() {
    for u in [0u32, 1, 0x15_5555, 0xFF_FFFF, 0xEA_AAAB, 0x80_0000] {
        let unit = u as f32 / 16_777_216.0;
        assert_eq!(scaled_floor_exec(u, 12), (unit * 12.0) as u32);
    }
}

#[test]
fn lcg_sequence_and_pick() {
    let mut g = Lcg::new(0);
    assert_eq!(g.next_u32(), 1u32.wrapping_mul(1664525).wrapping_add(1013904223));
    let mut h = Lcg::new(5);
    let s0 = 5u32.wrapping_mul(2654435761).wrapping_add(1);
    let s1 = s0.wrapping_mul(1664525).wrapping_add(1013904223);
    let picked = h.pick(&[10, 20, 30, 40]);
    assert_eq!(picked, [10, 20, 30, 40][float_pick(s1 >> 8, 4)]);
    let mut k = Lcg::new(5);
    assert_eq!(k.next_unit_bits(), s1 >> 8);
}

#[test]
fn random_preset_is_deterministic() {
    let a = random_preset(0xDEADBEEF);
    let b = random_preset(0xDEADBEEF);
    assert_eq!(a.name, b.name);
    assert_eq!(a.steps, b.steps);
    assert_eq!(a.curve, b.curve);
    assert_eq!(a.play_mode, b.play_mode);
    assert_eq!(a.trip_level, b.trip_level);
    assert_eq!(a.routes, b.routes);
    assert_eq!((a.step_dur, a.flux, a.morph, a.drift), (b.step_dur, b.flux, b.morph, b.drift));
    assert_eq!(a.lfo_a, b.lfo_a);
    let c = random_preset(0xDEADBEEE);
    assert!(a.steps != c.steps || a.step_dur != c.step_dur, "different seeds should differ");
}

#[test]
fn random_preset_is_valid_at_many_seeds() {
    for seed in 0..200u32 {
        let seed = seed.wrapping_mul(7919);
        let p = random_preset(seed);
        assert!(p.steps.len() >= 4 && p.steps.len() <= 16, "seed {seed}: bad step count {}", p.steps.len());
        assert!(p.steps.len() <= 15);
        assert!(check_preset_shape(PRESET_VERSION, p.steps.len()).is_ok());
        assert!(p.trip_level.get() <= 9);
        for s in &p.steps {
            assert!(s.dur_mul_slot < DUR_MUL_CHOICES);
            assert!(s.prob_slot < PROB_CHOICES);
            assert!([(1, 1), (1, 2), (2, 2), (1, 3), (1, 4)].contains(&s.cond));
        }
        assert!(p.step_dur < 0x100_0000 && p.flux < 0x100_0000 && p.morph < 0x100_0000 && p.drift < 0x100_0000);
        assert_eq!(p.name, format!("RND-{seed:08x}"));
    }
}

/// The draws of `random_preset`, replayed with plain `f32` arithmetic.
#[test]
fn random_preset_replays_the_draw_sequence() {
    for seed in [0u32, 1, 77, 0xDEAD_BEEF] {
        let p = random_preset(seed);
        let mut s = seed.wrapping_mul(2654435761).wrapping_add(1);
        let mut next = || {
            s = s.wrapping_mul(1664525).wrapping_add(1013904223);
            s
        };
        let mut unit = || (next() >> 8) as f32 / 16_777_216.0;
        let n = 4 + (unit() * 12.0) as usize;
        assert_eq!(p.steps.len(), n);
        for st in &p.steps {
            assert_eq!(st.dur_mul_slot, ((unit() * 7.0) as usize).min(6));
            assert_eq!(st.prob_slot, ((unit() * 10.0) as usize).min(9));
            assert_eq!(st.muted, unit() < 0.02);
            if unit() < 0.25 {
                let c = [TranCurve::Linear, TranCurve::EaseInOut, TranCurve::Silk, TranCurve::Snap, TranCurve::Bounce, TranCurve::Over];
                assert_eq!(st.curve_override, Some(c[((unit() * 6.0) as usize).min(5)]));
            } else {
                assert_eq!(st.curve_override, None);
            }
            if unit() < 0.15 {
                let c = [(1u8, 2u8), (2, 2), (1, 3), (1, 4)];
                assert_eq!(st.cond, c[((unit() * 4.0) as usize).min(3)]);
            } else {
                assert_eq!(st.cond, (1, 1));
            }
        }
        let _step_dur = unit();
        let curves = [TranCurve::Linear, TranCurve::EaseInOut, TranCurve::Silk, TranCurve::Silk, TranCurve::Snap, TranCurve::Bounce, TranCurve::Over];
        assert_eq!(p.curve, curves[((unit() * 7.0) as usize).min(6)]);
        let modes = [SeqPlayMode::Forward, SeqPlayMode::Forward, SeqPlayMode::Forward, SeqPlayMode::Reverse, SeqPlayMode::PingPong, SeqPlayMode::Random];
        assert_eq!(p.play_mode, modes[((unit() * 6.0) as usize).min(5)]);
        let level_raw = ((unit() + unit()) * 0.5 * 10.0) as u8;
        assert_eq!(p.trip_level.get(), level_raw.min(9));
    }
}

#[test]
fn random_preset_reroutes_only_listed_targets() {
    for seed in 0..50u32 {
        let p = random_preset(seed);
        let base = LfoRoutes::for_level(p.trip_level);
        for i in 6..16 {
            assert_eq!(p.routes.mp[i], base.mp[i]);
        }
        for j in [2usize, 3, 4, 7, 8, 10] {
            assert_eq!(p.routes.fb[j], base.fb[j], "feedback target {j} is never re-routed");
        }
        for s in p.routes.mp.iter().chain(p.routes.fb.iter()) {
            assert!([LfoSrc::Off, LfoSrc::A, LfoSrc::B].contains(s));
        }
    }
}

#[test]
fn rejects_future_version() {
    let p = random_preset(7);
    let e = check_preset_shape(PRESET_VERSION + 1, p.steps.len());
    assert!(e.is_err());
    assert_eq!(e.unwrap_err().message(), "preset version 3 is newer than this build (max 2)");
}

#[test]
fn rejects_empty_steps() {
    let p = random_preset(7);
    assert!(!p.steps.is_empty());
    let e = check_preset_shape(PRESET_VERSION, 0).unwrap_err();
    assert_eq!(e, PresetShapeError::NoSteps);
    assert_eq!(e.message(), "preset has zero steps");
}

#[test]
fn shape_errors_name_the_numbers() {
    assert_eq!(check_preset_shape(PRESET_VERSION + 97, 3), Err(PresetShapeError::TooNew(99)));
    assert_eq!(PresetShapeError::TooNew(99).message(), "preset version 99 is newer than this build (max 2)");
}

#[test]
fn rejects_too_many_steps_and_accepts_bounds() {
    let e = check_preset_shape(1, 33).unwrap_err();
    assert_eq!(e.message(), "preset has 33 steps (max 32)");
    assert!(check_preset_shape(1, 32).is_ok());
    assert!(check_preset_shape(2, 1).is_ok());
    assert_eq!(check_preset_shape(3, 0), Err(PresetShapeError::TooNew(3)), "the version is checked first");
}
