use crystal_viz::bench::{chrono_stamp, stamp_for, BenchOpts};
use crystal_viz::cli::{flag_value, forward_frames, has_flag, parse_resolution, parse_u32_arg, pingpong_copies, FrameCopy, PingPongError};
use crystal_viz::kpath::{kpath_route, kpoint_label_list, next_segment, segment_ends};
use crystal_viz::morph::{hkl_shells, morph_pairs, MorphPair, MAX_G};
use crystal_viz::poscar::numeric::UintError;
use crystal_viz::symmetry::CrystalSystem;
use crystal_viz::text::{decimal_string, push_hex};

fn args(v: &[&str]) -> Vec<String> {
    v.iter().map(|s| s.to_string()).collect()
}

#[test]
fn bench_opts_default() {
    let o = BenchOpts::default();
    assert_eq!((o.width, o.height, o.warmup, o.iters, o.force_fallback), (1280, 720, 8, 120, false));
}

#[test]
fn chrono_stamp_is_decimal_seconds() {
    let s = chrono_stamp();
    assert!(!s.is_empty() && s.chars().all(|c| c.is_ascii_digit()));
    assert!(s.parse::<u64>().unwrap() > 1_600_000_000);
    assert_eq!(stamp_for(0), "0");
    assert_eq!(stamp_for(1_700_000_123), "1700000123");
}

#[test]
fn decimal_and_hex_rendering() {
    assert_eq!(decimal_string(0), "0");
    assert_eq!(decimal_string(u64::MAX), u64::MAX.to_string());
    let mut s = String::from("RND-");
    push_hex(&mut s, 0xBEEF, 8);
    assert_eq!(s, "RND-0000beef");
}

#[test]
fn flags_and_values() {
    let a = args(&["--render", "p.json", "--out", "dir", "--pingpong-loop", "--fps"]);
    assert_eq!(flag_value(&a, "--render").as_deref(), Some("p.json"));
    assert_eq!(flag_value(&a, "--out").as_deref(), Some("dir"));
    assert_eq!(flag_value(&a, "--fps"), None, "a flag at the end has no value");
    assert_eq!(flag_value(&a, "--res"), None);
    assert!(has_flag(&a, "--pingpong-loop"));
    assert!(!has_flag(&a, "--encode"));
    let b = args(&["--out", "--out", "x"]);
    assert_eq!(flag_value(&b, "--out").as_deref(), Some("--out"), "the first occurrence wins");
}

#[test]
fn resolution_and_counts() {
    assert_eq!(parse_resolution("1280x720"), Some((1280, 720)));
    assert_eq!(parse_resolution("1920X1080"), None);
    assert_eq!(parse_resolution("10x20x30"), None);
    assert_eq!(parse_resolution("x720"), None);
    assert_eq!(parse_resolution("+64x+48"), Some((64, 48)));
    assert_eq!(parse_resolution("4294967296x1"), None);
    assert_eq!(parse_u32_arg("60"), Ok(60));
    assert_eq!(parse_u32_arg("6o"), Err(UintError::InvalidDigit));
    assert_eq!(parse_u32_arg(""), Err(UintError::Empty));
    assert_eq!(parse_u32_arg("4294967296"), Err(UintError::PosOverflow));
}

#[test]
fn pingpong_mirrors_forward_frames() {
    assert_eq!(forward_frames(10), 6);
    assert_eq!(pingpong_copies(1), Err(PingPongError::TooShort));
    assert_eq!(PingPongError::TooShort.message(), "ping-pong loop needs at least two forward frames");
    assert_eq!(pingpong_copies(2).unwrap(), vec![]);
    let v = pingpong_copies(10).unwrap();
    assert_eq!(
        v,
        vec![
            FrameCopy { src: 4, dst: 6 },
            FrameCopy { src: 3, dst: 7 },
            FrameCopy { src: 2, dst: 8 },
            FrameCopy { src: 1, dst: 9 },
        ]
    );
    let w = pingpong_copies(11).unwrap();
    assert_eq!(w.len(), 5);
    assert_eq!(w[4], FrameCopy { src: 0, dst: 10 });
}

#[test]
fn kpaths_stay_on_their_points() {
    for sys in [
        CrystalSystem::Cubic,
        CrystalSystem::Hexagonal,
        CrystalSystem::Trigonal,
        CrystalSystem::Tetragonal,
        CrystalSystem::Orthorhombic,
        CrystalSystem::Monoclinic,
        CrystalSystem::Triclinic,
    ] {
        let labels = kpoint_label_list(sys);
        let route = kpath_route(sys);
        assert_eq!(labels[0], "Γ");
        assert_eq!(route[0], 0);
        assert_eq!(*route.last().unwrap(), 0);
        assert!(route.iter().all(|&i| i < labels.len()));
    }
    assert_eq!(kpoint_label_list(CrystalSystem::Cubic), vec!["Γ", "X", "W", "K", "L", "U", "M"]);
    assert_eq!(kpath_route(CrystalSystem::Trigonal), vec![0, 1, 2, 0, 3, 1, 4, 0]);
    assert_eq!(next_segment(9, 11), 0);
    assert_eq!(next_segment(3, 11), 4);
    let r = kpath_route(CrystalSystem::Cubic);
    assert_eq!(segment_ends(&r, 0), (0, 1));
    assert_eq!(segment_ends(&r, 10), (0, 0));
}

#[test]
fn morph_pairs_match_then_reuse_then_append() {
    let from = vec![[1, 0, 0], [0, 1, 0], [0, 0, 1], [1, 1, 0]];
    let to = vec![[0, 0, 1], [2, 0, 0], [1, 0, 0], [0, 2, 0], [0, 0, 2]];
    let p = morph_pairs(&from, &to);
    assert_eq!(
        p,
        vec![
            MorphPair { from: Some(0), to: Some(2) },
            MorphPair { from: Some(1), to: Some(1) },
            MorphPair { from: Some(2), to: Some(0) },
            MorphPair { from: Some(3), to: Some(3) },
            MorphPair { from: None, to: Some(4) },
        ]
    );
}

#[test]
fn morph_duplicate_target_uses_last_and_bank_is_bounded() {
    let from = vec![[1, 0, 0]];
    let to = vec![[1, 0, 0], [1, 0, 0]];
    assert_eq!(
        morph_pairs(&from, &to),
        vec![MorphPair { from: Some(0), to: Some(1) }, MorphPair { from: None, to: Some(0) }]
    );
    let big_from: Vec<[i32; 3]> = (0..100).map(|i| [i, 0, 0]).collect();
    let big_to: Vec<[i32; 3]> = (0..150).map(|i| [0, i + 1, 0]).collect();
    let p = morph_pairs(&big_from, &big_to);
    assert_eq!(p.len(), MAX_G);
    assert!(p[..100].iter().enumerate().all(|(i, m)| m.from == Some(i) && m.to == Some(i)));
    assert_eq!(p[100], MorphPair { from: None, to: Some(100) });
    assert_eq!(p[127], MorphPair { from: None, to: Some(127) });
    let mut targets: Vec<usize> = p.iter().filter_map(|m| m.to).collect();
    targets.sort();
    targets.dedup();
    assert_eq!(targets.len(), p.len(), "no target is handed out twice");
}

#[test]
fn morph_keeps_every_target_when_both_fit() {
    let from: Vec<[i32; 3]> = (0..60).map(|i| [i, 1, 0]).collect();
    let to: Vec<[i32; 3]> = (0..90).map(|i| [i / 2, 1 - (i % 2), 0]).collect();
    let p = morph_pairs(&from, &to);
    for j in 0..to.len() {
        assert!(p.iter().any(|m| m.to == Some(j)), "target {j} is kept");
    }
    assert!(p.len() <= MAX_G);
}

#[test]
fn morph_from_empty_source_takes_targets_in_order() {
    let to: Vec<[i32; 3]> = (0..3).map(|i| [i, i, i]).collect();
    let p = morph_pairs(&vec![], &to);
    assert_eq!(p, (0..3).map(|j| MorphPair { from: None, to: Some(j) }).collect::<Vec<_>>());
}

#[test]
fn hkl_shells_match_the_triple_loop() {
    for max_shell in [-3i32, 0, 1, 2, 3] {
        let mut want = Vec::new();
        let range = max_shell + 1;
        for h in -range..=range {
            for k in -range..=range {
                for l in -range..=range {
                    let shell = h.abs().max(k.abs()).max(l.abs());
                    if shell == 0 || shell > max_shell {
                        continue;
                    }
                    want.push([h, k, l]);
                }
            }
        }
        assert_eq!(hkl_shells(max_shell), want, "max_shell = {max_shell}");
    }
    assert_eq!(hkl_shells(1).len(), 26);
    assert_eq!(hkl_shells(2).len(), 124);
}

#[test]
fn morph_matches_negative_and_extreme_indices() {
    let from = vec![[-1, 0, 0], [0, -1, 0], [i32::MIN, i32::MAX, -1], [0, 0, -1]];
    let to = vec![[0, 0, -1], [i32::MIN, i32::MAX, -1], [-1, 0, 0], [0, -1, 0], [i32::MAX, i32::MIN, 0]];
    assert_eq!(
        morph_pairs(&from, &to),
        vec![
            MorphPair { from: Some(0), to: Some(2) },
            MorphPair { from: Some(1), to: Some(3) },
            MorphPair { from: Some(2), to: Some(1) },
            MorphPair { from: Some(3), to: Some(0) },
            MorphPair { from: None, to: Some(4) },
        ]
    );
}

#[test]
fn morph_slot_count_is_the_larger_field() {
    let a: Vec<[i32; 3]> = (0..7).map(|i| [i, 0, 0]).collect();
    let b: Vec<[i32; 3]> = (3..12).map(|i| [i, 0, 0]).collect();
    assert_eq!(morph_pairs(&a, &b).len(), 9);
    assert_eq!(morph_pairs(&b, &a).len(), 9);
    let c: Vec<[i32; 3]> = (0..200).map(|i| [0, 0, i]).collect();
    assert_eq!(morph_pairs(&a, &c).len(), MAX_G);
}
