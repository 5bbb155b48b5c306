use crystal_viz::poscar::lines::{char_vec, first_visible_char, is_white, split_lines, split_tokens};
use crystal_viz::poscar::numeric::{float_literal, unsigned_value, UintError};
use crystal_viz::poscar::{Axis, PoscarError, PoscarLayout};

fn chars(s: &str) -> Vec<char> {
    s.chars().collect()
}

fn strings(v: &[Vec<char>]) -> Vec<String> {
    v.iter().map(|c| c.iter().collect()).collect()
}

const NACL5: &str = "NaCl rock salt\n1.0\n5.64 0.0 0.0\n0.0 5.64 0.0\n0.0 0.0 5.64\nNa Cl\n1 1\nDirect\n0.0 0.0 0.0\n0.5 0.5 0.5\n";

#[test]
fn parses_vasp5_direct() {
    let p = PoscarLayout::parse(NACL5).unwrap();
    assert_eq!(p.scale, "1.0");
    assert_eq!(p.lattice.len(), 3);
    assert_eq!(p.lattice[0], vec!["5.64", "0.0", "0.0"]);
    assert_eq!(p.lattice[2], vec!["0.0", "0.0", "5.64"]);
    assert!(p.direct);
    assert_eq!(p.atoms.len(), 2);
    assert_eq!(p.atoms[0].species, "Na");
    assert_eq!(p.atoms[1].species, "Cl");
    assert_eq!((p.atoms[1].x.as_str(), p.atoms[1].y.as_str(), p.atoms[1].z.as_str()), ("0.5", "0.5", "0.5"));
}

#[test]
fn parses_vasp4_with_unnamed_species() {
    let src = "old style\n2.0\n1 0 0\n0 1 0\n0 0 1\n2 1\nCartesian\n0 0 0\n1 1 1\n2 2 2\n";
    let p = PoscarLayout::parse(src).unwrap();
    assert!(!p.direct);
    assert_eq!(p.scale, "2.0");
    let sp: Vec<&str> = p.atoms.iter().map(|a| a.species.as_str()).collect();
    assert_eq!(sp, vec!["X0", "X0", "X1"]);
}

#[test]
fn selective_dynamics_line_is_skipped_and_inline_labels_win() {
    let src = "sd\n1\n1 0 0\n0 1 0\n0 0 1\nO\n2\nSelective dynamics\ndirect\n0 0 0 T T T\n\n   \n0.5 0.5 0.5 Fe3+ extra\n";
    let p = PoscarLayout::parse(src).unwrap();
    assert!(p.direct);
    assert_eq!(p.atoms.len(), 2, "blank lines between atoms are skipped");
    assert_eq!(p.atoms[0].species, "T", "a fourth token starting with a letter labels the atom");
    assert_eq!(p.atoms[1].species, "Fe3+");
}

#[test]
fn numeric_fourth_token_keeps_header_species() {
    let src = "c\n1\n1 0 0\n0 1 0\n0 0 1\nSi\n1\nC\n0.25 0.25 0.25 1\n";
    let p = PoscarLayout::parse(src).unwrap();
    assert!(!p.direct);
    assert_eq!(p.atoms[0].species, "Si");
}

#[test]
fn counts_beyond_names_are_ignored() {
    let src = "c\n1\n1 0 0\n0 1 0\n0 0 1\nSi\n1 5\nD\n0 0 0\n";
    let p = PoscarLayout::parse(src).unwrap();
    assert_eq!(p.atoms.len(), 1, "species and counts pair up only as far as both go");
}

#[test]
fn crlf_lines_and_scale_with_comment() {
    let src = "win\r\n  1.5 ! scale\r\n1 0 0\r\n0 1 0\r\n0 0 1\r\nNa\r\n1\r\nDirect\r\n0 0 0\r\n";
    let p = PoscarLayout::parse(src).unwrap();
    assert_eq!(p.scale, "1.5");
    assert_eq!(p.atoms[0].z, "0");
}

#[test]
fn float_tokens_of_every_shape_are_accepted() {
    let src = "f\n-1e0\n+1. .5 5E-1\ninf -NaN 1e+3\n0 0 1\nH\n1\nd\n1e400 -0.0 +Infinity\n";
    let p = PoscarLayout::parse(src).unwrap();
    assert_eq!(p.lattice[1], vec!["inf", "-NaN", "1e+3"]);
    assert_eq!(p.atoms[0].x, "1e400");
}

fn err(src: &str) -> PoscarError {
    match PoscarLayout::parse(src) {
        Ok(_) => panic!("expected an error"),
        Err(e) => e,
    }
}

#[test]
fn every_error_and_its_message() {
    let cases: Vec<(&str, PoscarError, &str)> = vec![
        ("", PoscarError::EofComment, "EOF at comment line"),
        ("title", PoscarError::EofScale, "EOF at scale"),
        ("t\n   \n", PoscarError::EmptyScale, "empty scale line"),
        ("t\n1.0.0\n", PoscarError::BadScale, "bad scale: invalid float literal"),
        ("t\n1\n1 0 0\n", PoscarError::EofLattice(1), "EOF at lattice row 1"),
        ("t\n1\n1 0 zero\n", PoscarError::BadLatticeValue, "lattice: invalid float literal"),
        ("t\n1\n1 0 0\n0 1\n", PoscarError::ShortLatticeRow(1), "lattice row 1 has fewer than 3 values"),
        ("t\n1\n1 0 0\n0 1 0\n0 0 1\n", PoscarError::EofSpecies, "EOF at species/counts"),
        ("t\n1\n1 0 0\n0 1 0\n0 0 1\nNa Cl\n", PoscarError::EofCounts, "EOF at counts"),
        (
            "t\n1\n1 0 0\n0 1 0\n0 0 1\nNa\n1a\n",
            PoscarError::BadCount(UintError::InvalidDigit),
            "count: invalid digit found in string",
        ),
        (
            "t\n1\n1 0 0\n0 1 0\n0 0 1\nNa\n99999999999999999999999\n",
            PoscarError::BadCount(UintError::PosOverflow),
            "count: number too large to fit in target type",
        ),
        ("t\n1\n1 0 0\n0 1 0\n0 0 1\n1\n", PoscarError::EofCoordType, "EOF at coord type"),
        (
            "t\n1\n1 0 0\n0 1 0\n0 0 1\n1\nSelective\n",
            PoscarError::EofCoordTypeAfterSelective,
            "EOF at coord type (after S.D.)",
        ),
        ("t\n1\n1 0 0\n0 1 0\n0 0 1\n2\nD\n0 0 0\n", PoscarError::EofAtoms, "EOF: not enough atom positions"),
        ("t\n1\n1 0 0\n0 1 0\n0 0 1\n1\nD\n0 0\n", PoscarError::MissingCoord(Axis::Z), "atom: missing z"),
        ("t\n1\n1 0 0\n0 1 0\n0 0 1\n1\nD\n0 y 0\n", PoscarError::BadCoord(Axis::Y), "y: invalid float literal"),
        ("t\n1\n1 0 0\n0 1 0\n0 0 1\n1\nD\nx\n", PoscarError::BadCoord(Axis::X), "x: invalid float literal"),
    ];
    for (src, want, text) in cases {
        let e = err(src);
        assert_eq!(e, want, "source {src:?}");
        assert_eq!(e.message(), text);
    }
    assert_eq!(PoscarError::EofLattice(0).message(), "EOF at lattice row 0");
    assert_eq!(PoscarError::MissingCoord(Axis::X).message(), "atom: missing x");
    assert_eq!(PoscarError::BadCount(UintError::Empty).message(), "count: cannot parse integer from empty string");
}

#[test]
fn invalid_float_before_short_row() {
    assert_eq!(err("t\n1\nq\n"), PoscarError::BadLatticeValue);
    assert_eq!(err("t\n1\n1 2\n"), PoscarError::ShortLatticeRow(0));
}

#[test]
fn u32_overflow_on_line_six_means_names() {
    // A first token that is not a u32 (here too large) is taken as a species name.
    let src = "t\n1\n1 0 0\n0 1 0\n0 0 1\n4294967296\n1\nD\n0 0 0\n";
    let p = PoscarLayout::parse(src).unwrap();
    assert_eq!(p.atoms[0].species, "4294967296");
}

#[test]
fn whitespace_matches_std() {
    for u in 0u32..=0x10FFFF {
        if let Some(c) = char::from_u32(u) {
            assert_eq!(is_white(c), c.is_whitespace(), "U+{u:04X}");
        }
    }
}

#[test]
fn float_grammar_matches_std() {
    let samples = [
        "0", "1", "-1", "+1", "1.", ".5", ".", "+.", "-.", "1e5", "1E5", "1e+5", "1e-5", "1e", "e5", "1.5e",
        "1.e3", ".e3", "inf", "INF", "-inf", "+Infinity", "infinit", "infinityy", "nan", "NaN", "-nan", "nana",
        "1_000", "0x10", "1.2.3", "++1", "+-1", "1e5.0", "5.64", "0.000", "1e99999", "١", "1,5", "", "+", "-",
        "e", "E", "1ee5", "1e+", "1e-", "00.00", "9.", "inF", "iNfInItY",
    ];
    for s in samples {
        assert_eq!(float_literal(&chars(s)), s.parse::<f32>().is_ok(), "token {s:?}");
    }
}

#[test]
fn unsigned_parse_matches_std() {
    let samples = [
        "0", "1", "+1", "-1", "+", "-", "", "4294967295", "4294967296", "99999999999999999999", "12a", "a12",
        "007", "+0", "1 2", "18446744073709551615", "18446744073709551616", "99999999999999999999x",
    ];
    for s in samples {
        let got = unsigned_value(&chars(s), u32::MAX as usize);
        match s.parse::<u32>() {
            Ok(v) => assert_eq!(got, Ok(v as usize), "{s:?}"),
            Err(e) => {
                let kind = match e.kind() {
                    std::num::IntErrorKind::Empty => UintError::Empty,
                    std::num::IntErrorKind::InvalidDigit => UintError::InvalidDigit,
                    _ => UintError::PosOverflow,
                };
                assert_eq!(got, Err(kind), "{s:?}");
            }
        }
        let got64 = unsigned_value(&chars(s), usize::MAX);
        assert_eq!(got64.is_ok(), s.parse::<usize>().is_ok(), "{s:?}");
    }
}

#[test]
fn lines_and_tokens_match_std() {
    let samples = ["", "\n", "a", "a\n", "a\nb", "a\r\nb\r\n", "a\rb", "x\r", "\n\n", " a  b \t c ", "\r\n", "a\n\r\n"];
    for s in samples {
        let got = strings(&split_lines(&chars(s)));
        let want: Vec<String> = s.lines().map(String::from).collect();
        assert_eq!(got, want, "lines of {s:?}");
        for line in s.lines() {
            let got = strings(&split_tokens(&chars(line)));
            let want: Vec<String> = line.split_whitespace().map(String::from).collect();
            assert_eq!(got, want, "tokens of {line:?}");
            let first = first_visible_char(&chars(line));
            assert_eq!(first, line.trim().chars().next());
        }
    }
    assert_eq!(char_vec("Γ-x"), vec!['Γ', '-', 'x']);
}
