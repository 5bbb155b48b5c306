use crystal_viz::midi::note;
use crystal_viz::midi::{parse_message, MidiState, NOTES_QUEUE_CAP, STATUS_CC, STATUS_NOTE_ON};
use crystal_viz::modes::{mode_info, mode_names, modes, ModeArea, MODE_COUNT};

#[test]
fn note_constants_match_documented_ids() {
    assert_eq!(note::FB_AUTO_TOGGLE, 36, "C2");
    assert_eq!(note::TOUR_TOGGLE, 38, "D2");
    assert_eq!(note::SEQ_TOGGLE, 40, "E2");
    assert_eq!(note::SEQ_PREV, 41, "F2");
    assert_eq!(note::SEQ_NEXT, 43, "G2");
    assert_eq!(note::SEQ_CAPTURE, 45, "A2");
}

#[test]
fn notes_queue_cap_is_pinned() {
    assert_eq!(NOTES_QUEUE_CAP, 64);
}

#[test]
fn status_constants() {
    assert_eq!(STATUS_CC, 0xB0);
    assert_eq!(STATUS_NOTE_ON, 0x90);
}

#[test]
fn midi_state_default_is_empty() {
    let s = MidiState::default();
    for v in s.cc {
        assert_eq!(v, 0);
    }
    for v in s.cc_set {
        assert!(!v);
    }
    assert!(s.notes.is_empty());
    assert!(s.last_cc.is_none());
    assert!(s.port_name.is_none());
}

#[test]
fn parse_empty_message_is_noop() {
    let mut s = MidiState::default();
    assert!(!parse_message(&[], &mut s));
    assert!(s.last_cc.is_none());
    assert!(s.notes.is_empty());
}

#[test]
fn parse_truncated_cc_is_noop() {
    let mut s = MidiState::default();
    assert!(!parse_message(&[0xB0], &mut s));
    assert!(!parse_message(&[0xB0, 7], &mut s));
    assert!(s.last_cc.is_none());
    for set in s.cc_set {
        assert!(!set);
    }
}

#[test]
fn parse_truncated_note_is_noop() {
    let mut s = MidiState::default();
    assert!(!parse_message(&[0x90], &mut s));
    assert!(!parse_message(&[0x90, 60], &mut s));
    assert!(s.notes.is_empty());
}

#[test]
fn parse_cc_updates_cc_cc_set_and_last_cc() {
    let mut s = MidiState::default();
    assert!(parse_message(&[0xB5, 22, 64], &mut s));
    assert!((s.cc[22] as f32 / 127.0 - 64.0 / 127.0).abs() < 1e-4);
    assert!(s.cc_set[22]);
    assert_eq!(s.last_cc, Some((22, 64)));
    assert!(parse_message(&[0xB0, 1, 0], &mut s));
    assert!((s.cc[1] as f32 / 127.0).abs() < 1e-6);
    assert!(parse_message(&[0xB0, 1, 127], &mut s));
    assert!((s.cc[1] as f32 / 127.0 - 1.0).abs() < 1e-4);
}

#[test]
fn parse_note_on_velocity_zero_is_ignored() {
    let mut s = MidiState::default();
    assert!(!parse_message(&[0x90, 60, 0], &mut s));
    assert!(s.notes.is_empty());
}

#[test]
fn parse_note_on_velocity_positive_queues() {
    let mut s = MidiState::default();
    assert!(parse_message(&[0x90, 36, 100], &mut s));
    assert!(parse_message(&[0x95, 38, 64], &mut s));
    assert_eq!(s.notes, vec![36, 38]);
}

#[test]
fn parse_note_off_status_is_ignored() {
    let mut s = MidiState::default();
    assert!(!parse_message(&[0x80, 60, 64], &mut s));
    assert!(s.notes.is_empty());
}

#[test]
fn parse_unknown_status_is_ignored() {
    let mut s = MidiState::default();
    for status in [0xE0u8, 0xD0, 0xC0] {
        assert!(!parse_message(&[status, 0x10, 0x20], &mut s));
    }
    assert!(s.last_cc.is_none());
    assert!(s.notes.is_empty());
}

#[test]
fn parse_notes_queue_caps_at_constant() {
    let mut s = MidiState::default();
    for i in 0..(NOTES_QUEUE_CAP + 10) as u8 {
        parse_message(&[0x90, i % 100, 100], &mut s);
    }
    assert_eq!(s.notes.len(), NOTES_QUEUE_CAP, "queue must cap exactly at NOTES_QUEUE_CAP");
}

#[test]
fn parse_out_of_range_cc_byte_is_ignored() {
    let mut s = MidiState::default();
    assert!(!parse_message(&[0xB0, 0x80, 64], &mut s));
    for set in s.cc_set {
        assert!(!set);
    }
}

#[test]
fn parse_keeps_port_name() {
    let mut s = MidiState::default();
    s.port_name = Some("pad".to_string());
    parse_message(&[0xB0, 3, 3], &mut s);
    assert_eq!(s.port_name.as_deref(), Some("pad"));
}

#[test]
fn modes_are_indexed_in_order() {
    for (i, m) in modes().iter().enumerate() {
        assert_eq!(m.idx, i, "MODES[{}] has idx {}", i, m.idx);
    }
}

#[test]
fn names_match_modes() {
    let names = mode_names();
    for (i, m) in modes().iter().enumerate() {
        assert_eq!(names[i], m.name);
    }
}

#[test]
fn mode_count_and_areas() {
    assert_eq!(modes().len(), MODE_COUNT);
    assert_eq!(mode_info(0).area(), ModeArea::Crystal);
    assert_eq!(mode_info(12).area(), ModeArea::Reciprocal);
    assert_eq!(mode_info(22).area(), ModeArea::Electronic);
    assert_eq!(mode_info(33).area(), ModeArea::Materials);
    assert_eq!(mode_info(36).area(), ModeArea::Classical);
    assert_eq!(mode_info(29).area(), ModeArea::Fields);
    assert_eq!(mode_info(45).area(), ModeArea::Fractal);
    assert_eq!(ModeArea::Reciprocal.label(), "Reciprocal");
    assert_eq!(ModeArea::Fractal.title(), "Crystal Fractals");
    assert_eq!(ModeArea::all().len(), 7);
}

#[test]
fn mode_entries_carry_their_texts() {
    let m = mode_info(0);
    assert_eq!(m.name, "3D ISO");
    assert_eq!(m.tagline, "Ray-marched isosurface of the crystal-field scalar.");
    assert_eq!(m.equations, &["f(r) = Σᵢ aᵢ sin(Gᵢ·r + φᵢ)", "surface: f(r) = c", "shading: n̂ = −∇f / |∇f|"]);
    assert!(m.notes.starts_with("Camera orbits"));
    assert_eq!(mode_info(45).name, "MULTIBROT FIELD");
    let all = modes();
    assert_eq!(all[17].tagline, mode_info(17).tagline);
    assert_eq!(all[36].equations.len(), 5);
}
