use crystal_viz::seq::{
    cond_default, cond_label, cond_next, cond_passes, lcg_step, SeqPlayMode, SeqStep, Sequencer,
    TranCurve, MAX_STEPS, PROB_ONE,
};

/// A running, manual sequencer over `n` always-playing steps at step 0.
fn make_seq(n: usize) -> Sequencer {
    let mut steps = Vec::new();
    for _ in 0..n {
        steps.push(SeqStep::new());
    }
    Sequencer {
        active: true,
        manual: true,
        steps,
        cur: 0,
        curve: TranCurve::Linear,
        selected: None,
        play_mode: SeqPlayMode::Forward,
        pp_dir: 1,
        rng_seed: 0x9E37_79B9,
    }
}

#[test]
fn cond_one_of_two_plays_alternate_visits() {
    assert!(cond_passes((1, 2), 1));
    assert!(!cond_passes((1, 2), 2));
    assert!(cond_passes((1, 2), 3));
    assert!(!cond_passes((2, 2), 1));
    assert!(cond_passes((2, 2), 2));
    assert!(cond_passes((1, 1), 7), "(1,1) must always pass");
}

#[test]
fn cond_labels_and_cycle() {
    assert_eq!(cond_default(), (1, 1));
    assert_eq!(cond_label((1, 1)), "--");
    assert_eq!(cond_label((2, 4)), "2:4");
    let mut c = cond_default();
    let mut seen = Vec::new();
    for _ in 0..7 {
        seen.push(c);
        c = cond_next(c);
    }
    assert_eq!(c, cond_default(), "the condition cycle returns to 1:1");
    assert_eq!(seen, vec![(1, 1), (1, 2), (2, 2), (1, 3), (1, 4), (4, 4), (1, 8)]);
    assert_eq!(cond_next((3, 7)), (1, 2), "an unknown condition moves to 1:2");
}

#[test]
fn cond_zero_period_always_plays() {
    assert!(cond_passes((1, 0), 5));
}

#[test]
fn manual_step_forward_advances_cur() {
    let mut seq = make_seq(4);
    assert_eq!(seq.cur, 0);
    seq.manual_step(1);
    assert_eq!(seq.cur, 1);
}

#[test]
fn manual_step_prev_wraps_around() {
    let mut seq = make_seq(4);
    seq.manual_step(-1);
    assert_eq!(seq.cur, 3, "prev from 0 should wrap to last");
}

#[test]
fn manual_step_forward_wraps_around() {
    let mut seq = make_seq(4);
    seq.cur = 3;
    seq.manual_step(1);
    assert_eq!(seq.cur, 0, "next from last should wrap to first");
}

#[test]
fn manual_step_skips_muted_forward() {
    let mut seq = make_seq(4);
    seq.steps[1].muted = true;
    seq.manual_step(1);
    assert_eq!(seq.cur, 2, "should skip muted step 1, land on 2");
}

#[test]
fn manual_step_skips_muted_backward() {
    let mut seq = make_seq(4);
    seq.cur = 2;
    seq.steps[1].muted = true;
    seq.manual_step(-1);
    assert_eq!(seq.cur, 0, "going back from 2, step 1 muted, should land on 0");
}

#[test]
fn manual_step_requires_active_for_rendering() {
    let mut seq = make_seq(4);
    seq.active = false;
    seq.manual = true;
    seq.manual_step(1);
    assert_eq!(seq.cur, 1, "cur changes regardless of active");
}

#[test]
fn add_step_after_inserts_correctly() {
    let mut seq = make_seq(3);
    seq.steps[0].curve_override = Some(TranCurve::Bounce);
    seq.cur = 2;
    assert_eq!(seq.add_step_after(0), Some(1));
    assert_eq!(seq.steps.len(), 4);
    assert_eq!(seq.cur, 3, "cur should shift when insert is before it");
    assert_eq!(seq.steps[1], seq.steps[0], "the new step copies step 0");
}

#[test]
fn remove_step_adjusts_cur() {
    let mut seq = make_seq(4);
    seq.cur = 2;
    seq.selected = Some(3);
    assert!(seq.remove_step(0));
    assert_eq!(seq.steps.len(), 3);
    assert_eq!(seq.cur, 1, "cur should shift down by 1");
    assert_eq!(seq.selected, Some(2), "selected should shift down by 1");
}

#[test]
fn remove_selected_step_clears_selection() {
    let mut seq = make_seq(4);
    seq.selected = Some(1);
    seq.remove_step(1);
    assert_eq!(seq.selected, None, "removing selected step clears selection");
}

#[test]
fn advance_next_all_muted_no_infinite_loop() {
    let mut seq = make_seq(3);
    for s in seq.steps.iter_mut() {
        s.muted = true;
    }
    seq.advance_next();
    assert!(seq.cur < seq.steps.len());
}

#[test]
fn remove_step_guards_min_one() {
    let mut seq = make_seq(1);
    assert!(!seq.remove_step(0));
    assert_eq!(seq.steps.len(), 1, "cannot remove last step");
}

#[test]
fn add_step_guards_max_32() {
    let mut seq = make_seq(32);
    assert_eq!(seq.add_step_after(0), None);
    assert_eq!(seq.steps.len(), 32, "cannot exceed 32 steps");
}

#[test]
fn play_mode_reverse_steps_backward() {
    let mut seq = make_seq(4);
    seq.play_mode = SeqPlayMode::Reverse;
    seq.cur = 2;
    seq.advance_next();
    assert_eq!(seq.cur, 1);
    seq.advance_next();
    assert_eq!(seq.cur, 0);
    seq.advance_next();
    assert_eq!(seq.cur, 3, "Reverse wraps from 0 to last");
}

#[test]
fn play_mode_pingpong_reverses_at_ends() {
    let mut seq = make_seq(3);
    seq.play_mode = SeqPlayMode::PingPong;
    seq.pp_dir = 1;
    seq.cur = 0;
    seq.advance_next();
    assert_eq!(seq.cur, 1);
    seq.advance_next();
    assert_eq!(seq.cur, 2);
    seq.advance_next();
    assert_eq!(seq.cur, 1, "should reverse off the end");
    seq.advance_next();
    assert_eq!(seq.cur, 0);
    seq.advance_next();
    assert_eq!(seq.cur, 1, "should reverse off the start");
}

#[test]
fn play_mode_pingpong_with_one_step_stays_put() {
    let mut seq = make_seq(1);
    seq.play_mode = SeqPlayMode::PingPong;
    seq.advance_next();
    assert_eq!(seq.cur, 0);
}

#[test]
fn play_mode_random_avoids_immediate_repeat() {
    let mut seq = make_seq(4);
    seq.play_mode = SeqPlayMode::Random;
    seq.rng_seed = 12345;
    for _ in 0..50 {
        let prev = seq.cur;
        seq.advance_next();
        assert_ne!(seq.cur, prev, "Random must not repeat current step");
    }
}

#[test]
fn play_mode_random_visits_multiple_steps() {
    let mut seq = make_seq(8);
    seq.play_mode = SeqPlayMode::Random;
    seq.rng_seed = 7;
    let mut visited = [false; 8];
    for _ in 0..200 {
        seq.advance_next();
        visited[seq.cur] = true;
    }
    let count = visited.iter().filter(|&&v| v).count();
    assert!(count >= 6, "Random should hit at least 6/8 steps, hit {count}");
}

#[test]
fn prob_zero_step_is_always_skipped() {
    let mut seq = make_seq(4);
    seq.play_mode = SeqPlayMode::Forward;
    seq.steps[1].prob = 0;
    seq.cur = 0;
    seq.advance_next();
    assert_eq!(seq.cur, 2, "prob=0 must be skipped");
}

#[test]
fn prob_one_step_always_plays() {
    let mut seq = make_seq(4);
    seq.steps[1].prob = PROB_ONE;
    seq.cur = 0;
    seq.advance_next();
    assert_eq!(seq.cur, 1);
}

#[test]
fn prob_half_step_lands_roughly_half_the_time() {
    let mut seq = make_seq(4);
    seq.steps[1].prob = 8_388_608;
    seq.rng_seed = 42;
    let mut plays = 0;
    for _ in 0..200 {
        seq.cur = 0;
        seq.play_mode = SeqPlayMode::Forward;
        seq.advance_next();
        if seq.cur == 1 {
            plays += 1;
        }
    }
    assert!(plays > 30 && plays < 170, "prob=0.5 should fire roughly half the time (got {plays}/200)");
}

#[test]
fn all_prob_zero_does_not_hang() {
    let mut seq = make_seq(3);
    for s in seq.steps.iter_mut() {
        s.prob = 0;
    }
    seq.advance_next();
    assert!(seq.cur < seq.steps.len());
}

#[test]
fn capture_appends_step() {
    let mut seq = make_seq(3);
    let idx = seq.capture().expect("capture should fit");
    assert_eq!(idx, 3);
    assert_eq!(seq.steps.len(), 4);
    assert!(!seq.steps[3].muted);
    assert_eq!(seq.steps[3].prob, PROB_ONE);
    assert_eq!(seq.steps[3], SeqStep::new());
}

#[test]
fn capture_blocked_at_32() {
    let mut seq = make_seq(32);
    let r = seq.capture();
    assert!(r.is_none(), "capture must refuse beyond 32 steps");
    assert_eq!(seq.steps.len(), MAX_STEPS);
}

#[test]
fn advance_skips_condition_failed_step() {
    let mut seq = make_seq(3);
    seq.manual = false;
    seq.steps[1].cond = (2, 2);
    seq.advance_next();
    assert_eq!(seq.cur, 2, "first visit to a (2,2) step must skip it");
    seq.advance_next();
    assert_eq!(seq.cur, 0);
    seq.advance_next();
    assert_eq!(seq.cur, 1, "second visit must play the (2,2) step");
}

#[test]
fn effective_curve_prefers_step_override() {
    let mut seq = make_seq(3);
    seq.curve = TranCurve::Linear;
    seq.steps[1].curve_override = Some(TranCurve::Snap);
    seq.cur = 1;
    assert_eq!(seq.effective_curve(), TranCurve::Snap);
}

#[test]
fn effective_curve_falls_back_to_global() {
    let mut seq = make_seq(3);
    seq.curve = TranCurve::Bounce;
    seq.cur = 1;
    assert_eq!(seq.effective_curve(), TranCurve::Bounce);
}

#[test]
fn new_sequencer_has_showcase_gates() {
    let seq = Sequencer::new();
    assert_eq!(seq.steps.len(), 8);
    assert!(!seq.active);
    assert_eq!(seq.curve, TranCurve::Silk);
    assert_eq!(seq.steps[1].curve_override, Some(TranCurve::Snap));
    assert_eq!(seq.steps[3].cond, (1, 2));
    assert_eq!(seq.steps[5].cond, (2, 2));
    assert_eq!(seq.steps[6].curve_override, Some(TranCurve::Over));
}

#[test]
fn visits_counted_on_landing() {
    let mut seq = make_seq(3);
    seq.advance_next();
    assert_eq!(seq.cur, 1);
    assert_eq!(seq.steps[1].visits, 1, "landing counts a visit");
}

#[test]
fn insert_then_remove_restores_pattern() {
    let mut seq = make_seq(5);
    seq.steps[2].muted = true;
    seq.cur = 3;
    seq.selected = Some(4);
    let before = seq.steps.clone();
    let pos = seq.add_step_after(1).unwrap();
    assert!(seq.remove_step(pos));
    assert_eq!(seq.steps, before);
    assert_eq!(seq.cur, 3);
    assert_eq!(seq.selected, Some(4));
}

#[test]
fn apply_preset_clears_visits_and_rewinds() {
    let mut seq = make_seq(2);
    let mut steps = vec![SeqStep::new(), SeqStep::new(), SeqStep::new()];
    steps[1].visits = 9;
    seq.cur = 1;
    seq.pp_dir = -1;
    seq.apply_preset(steps, TranCurve::Over, SeqPlayMode::PingPong);
    assert_eq!(seq.steps.len(), 3);
    assert_eq!(seq.steps[1].visits, 0);
    assert_eq!(seq.cur, 0);
    assert_eq!(seq.pp_dir, 1);
    assert_eq!(seq.curve, TranCurve::Over);
    assert_eq!(seq.play_mode, SeqPlayMode::PingPong);
}

#[test]
fn lcg_step_matches_knuth_constants() {
    assert_eq!(lcg_step(0), 1013904223);
    assert_eq!(lcg_step(1), 1013904223u32.wrapping_add(1664525));
}

#[test]
fn curve_and_mode_labels_cycle() {
    assert_eq!(TranCurve::Linear.label(), "LINEAR");
    assert_eq!(TranCurve::Over.next(), TranCurve::Linear);
    assert_eq!(SeqPlayMode::Random.next(), SeqPlayMode::Forward);
    assert_eq!(SeqPlayMode::PingPong.label(), "PP");
}

#[test]
fn prob_zero_step_skipped_even_on_a_zero_draw() {
    // 634785765 is an LCG state whose next 24-bit draw is 0.
    assert_eq!(lcg_step(634785765) >> 8, 0);
    let mut seq = make_seq(2);
    seq.manual = false;
    seq.steps[1].prob = 0;
    seq.rng_seed = 634785765;
    seq.advance_next();
    assert_eq!(seq.cur, 0, "a probability-0 step never plays");
}
