use crystal_viz::tour::{
    locked_tour_mode, next_crystal, phase_step, scene_picks, tour_mode, CrossfadeStyle, TourPhase, TourStyle,
    TOUR_MODE_COUNT,
};
use crystal_viz::trip::TripLevel;

#[test]
fn tour_field_params_level_zero_holds_mode_steady() {
    let lvl0 = TripLevel::new(0);
    let a = scene_picks(0, 3, lvl0);
    let b = scene_picks(4, 3, lvl0);
    assert_eq!(a.mode, b.mode, "level 0 should keep a single mode per crystal across time");
    assert!(!a.fb_enabled, "level 0 should disable the feedback layer");
}

#[test]
fn tour_field_params_level_nine_swaps_modes() {
    let lvl9 = TripLevel::new(9);
    let modes: Vec<u32> = (0..20).map(|scene| scene_picks(scene, 0, lvl9).mode).collect();
    let mut distinct = modes.clone();
    distinct.sort();
    distinct.dedup();
    assert!(distinct.len() >= 3, "level 9 should swap modes rapidly — got {distinct:?}");
}

#[test]
fn scene_picks_follow_the_scene_index() {
    let lvl = TripLevel::new(5);
    let p = scene_picks(6, 1, lvl);
    assert_eq!(p.mode, tour_mode((6 + 1) % TOUR_MODE_COUNT));
    assert!(!p.fb_enabled, "every third scene runs without feedback");
    assert_eq!(p.fb_mirror, 8);
    assert_eq!(p.fb_blend_mode, 2);
    assert!(p.motion_blur);
    let q = scene_picks(7, 1, lvl);
    assert!(q.fb_enabled);
    assert!(!q.motion_blur);
    assert_eq!(scene_picks(9, 0, TripLevel::new(2)).fb_enabled, false, "feedback needs level 3");
    assert_eq!(locked_tour_mode(15), 20);
    assert_eq!(tour_mode(0), 22);
}

#[test]
fn crossfade_styles_cycle() {
    let mut cursor = 0usize;
    let got: Vec<CrossfadeStyle> = (0..5).map(|_| CrossfadeStyle::next(&mut cursor)).collect();
    assert_eq!(got, vec![CrossfadeStyle::Silk, CrossfadeStyle::Rush, CrossfadeStyle::Drift, CrossfadeStyle::Ripple, CrossfadeStyle::Silk]);
    assert_eq!(cursor, 5);
    let mut last = usize::MAX;
    assert_eq!(CrossfadeStyle::next(&mut last), CrossfadeStyle::Ripple);
    assert_eq!(last, 0, "the cursor wraps");
}

#[test]
fn tour_style_toggles() {
    assert_eq!(TourStyle::default(), TourStyle::Curated);
    assert_eq!(TourStyle::Curated.next(), TourStyle::Random);
    assert_eq!(TourStyle::Random.next(), TourStyle::Curated);
    assert_eq!(TourStyle::Random.label(), "RANDOM");
}

#[test]
fn tour_phases_cycle_with_one_advance() {
    let s1 = phase_step(true, TourPhase::Settling, true);
    assert_eq!(s1.phase, TourPhase::Walking);
    assert!(s1.reset_timer && !s1.advance);
    let s2 = phase_step(true, s1.phase, true);
    assert_eq!(s2.phase, TourPhase::Fading);
    assert!(s2.advance);
    let s3 = phase_step(true, s2.phase, true);
    assert_eq!(s3.phase, TourPhase::Settling);
    assert!(s3.drop_previous && !s3.advance);
    let idle = phase_step(true, TourPhase::Walking, false);
    assert_eq!(idle.phase, TourPhase::Walking);
    assert!(!idle.reset_timer && !idle.advance);
    let off = phase_step(false, TourPhase::Walking, true);
    assert!(!off.advance);
    assert_eq!(next_crystal(4, 5), 0);
    assert_eq!(next_crystal(1, 5), 2);
}
