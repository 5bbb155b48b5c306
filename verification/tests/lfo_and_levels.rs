use crystal_viz::lfo::{lfo_mp_default, LfoSrc, LfoWave, MicSrc, MP_COLOR_SHIFT, MP_KSCALE};
use crystal_viz::routing::{LfoRoutes, FB_COLOR_SHIFT, FB_FOLD_ANGLE, FB_INJECT, FB_SATURATION, FB_ZOOM};
use crystal_viz::trip::TripLevel;

#[test]
fn lfo_src_cycles_off_a_b() {
    let mut s = LfoSrc::Off;
    s = s.next();
    assert_eq!(s, LfoSrc::A);
    s = s.next();
    assert_eq!(s, LfoSrc::B);
    s = s.next();
    assert_eq!(s, LfoSrc::Off);
}

#[test]
fn lfo_wave_and_mic_cycles_close() {
    let mut w = LfoWave::Sine;
    for _ in 0..6 {
        w = w.next();
    }
    assert_eq!(w, LfoWave::Sine);
    assert_eq!(LfoWave::Pulse.next(), LfoWave::Steps);
    assert_eq!(LfoWave::Saw.label(), "saw");
    let mut m = MicSrc::Off;
    for _ in 0..5 {
        m = m.next();
    }
    assert_eq!(m, MicSrc::Off);
    assert_eq!(MicSrc::Bass.label(), "B");
    assert_eq!(MicSrc::Off.label(), "\u{b7}");
    assert_eq!(LfoSrc::B.label(), "B");
    assert_eq!(lfo_mp_default(), [LfoSrc::Off; 16]);
}

#[test]
fn trip_level_clamps_to_valid_range() {
    assert_eq!(TripLevel::new(0).get(), 0);
    assert_eq!(TripLevel::new(9).get(), 9);
    assert_eq!(TripLevel::new(99).get(), 9);
    assert_eq!(TripLevel::new(0).dec().get(), 0);
    assert_eq!(TripLevel::new(9).inc().get(), 9);
}

#[test]
fn trip_level_feedback_gated_by_level() {
    for l in 0..=2u8 {
        assert!(!TripLevel::new(l).fb_enabled());
    }
    for l in 3..=9u8 {
        assert!(TripLevel::new(l).fb_enabled());
    }
}

#[test]
fn trip_level_labels_and_default() {
    assert_eq!(TripLevel::default().get(), 4);
    assert_eq!(TripLevel::new(0).label(), "0 still");
    assert_eq!(TripLevel::new(9).label(), "9 madness");
    assert_eq!(TripLevel::new(5).inc().get(), 6);
    assert_eq!(TripLevel::new(5).dec().get(), 4);
}

#[test]
fn trip_level_zero_is_silent() {
    let p = LfoRoutes::for_level(TripLevel::new(0));
    assert_eq!(p.routed_count(), 0, "level 0 must not route any LFO target");
    assert!(!TripLevel::new(0).fb_enabled(), "level 0 disables the feedback layer");
}

#[test]
fn trip_level_nine_is_madness() {
    let p = LfoRoutes::for_level(TripLevel::new(9));
    let r = p.routed_count();
    assert!(r >= 15, "level 9 should route >=15 LFO targets, got {r}");
    assert!(TripLevel::new(9).fb_enabled(), "level 9 enables feedback layer");
    assert_eq!(TripLevel::new(9).wave_a(), LfoWave::Steps);
    assert_eq!(TripLevel::new(9).wave_b(), LfoWave::Square);
}

#[test]
fn trip_level_scales_routed_targets_monotonically() {
    let mut prev = 0;
    for l in 0..=9u8 {
        let r = LfoRoutes::for_level(TripLevel::new(l)).routed_count();
        assert!(r >= prev, "routed-target count must be monotonic — level {l} got {r} after {prev}");
        prev = r;
    }
}

#[test]
fn routing_extremes_are_exact() {
    assert_eq!(LfoRoutes::for_level(TripLevel::new(0)).routed_count(), 0);
    for l in 7..=9u8 {
        assert_eq!(LfoRoutes::for_level(TripLevel::new(l)).routed_count(), 20);
    }
    let one = LfoRoutes::for_level(TripLevel::new(1));
    assert_eq!(one.mp[MP_COLOR_SHIFT], LfoSrc::A, "colour is routed first");
    assert_eq!(one.fb[FB_COLOR_SHIFT], LfoSrc::B);
    assert_eq!(one.mp[MP_KSCALE], LfoSrc::Off);
}

#[test]
fn tour_lfo_preset_fb_heavy_drives_feedback() {
    let p = LfoRoutes::fb_heavy();
    let active = p.fb.iter().enumerate().filter(|(j, s)| *j != FB_INJECT && **s != LfoSrc::Off).count();
    assert!(active >= 6, "fb_heavy preset should route at least 6 feedback params to an LFO, got {active}");
}

#[test]
fn tour_lfo_preset_has_both_engines_configured() {
    let p = LfoRoutes::for_level(TripLevel::default());
    let any_a = [p.mp[MP_KSCALE], p.fb[FB_SATURATION], p.mp[MP_COLOR_SHIFT]].into_iter().any(|s| s == LfoSrc::A);
    let any_b = [p.fb[FB_ZOOM], p.fb[FB_COLOR_SHIFT], p.fb[FB_FOLD_ANGLE]].into_iter().any(|s| s == LfoSrc::B);
    assert!(any_a && any_b, "the tour routing should use both engines");
}

#[test]
fn default_routes_breathe_hue_and_zoom() {
    let r = LfoRoutes::default_routes();
    assert_eq!(r.mp[MP_COLOR_SHIFT], LfoSrc::A);
    assert_eq!(r.routed_count(), 4);
    assert_eq!(LfoRoutes::unrouted().routed_count(), 0);
}

#[test]
fn trip_level_round_trips() {
    for l in 0..=9u8 {
        let x = TripLevel::new(l);
        if l < 9 {
            assert_eq!(x.inc().dec(), x);
        } else {
            assert_eq!(x.inc(), x);
        }
        if l > 0 {
            assert_eq!(x.dec().inc(), x);
        } else {
            assert_eq!(x.dec(), x);
        }
    }
}
