//! Element symbols: the alphabetic part of a species label ("Na+" → "Na"),
//! atomic numbers, and the glyph used to draw each element.
use vstd::prelude::*;

verus! {

pub open spec fn is_ascii_alpha(c: char) -> bool {
    ('a' <= c && c <= 'z') || ('A' <= c && c <= 'Z')
}

/// Longest prefix of `s` made of ASCII letters.
pub open spec fn alpha_prefix(s: Seq<char>) -> Seq<char>
    decreases s.len(),
{
    if s.len() > 0 && is_ascii_alpha(s[0]) {
        seq![s[0]] + alpha_prefix(s.drop_first())
    } else {
        Seq::empty()
    }
}

proof fn lemma_alpha_prefix_take(s: Seq<char>, k: int)
    requires
        0 <= k <= s.len(),
        forall|i: int| 0 <= i < k ==> is_ascii_alpha(s[i]),
        k == s.len() || !is_ascii_alpha(s[k]),
    ensures
        alpha_prefix(s) == s.take(k),
    decreases k,
{
    if k == 0 {
        assert(s.take(0) =~= Seq::<char>::empty());
    } else {
        lemma_alpha_prefix_take(s.drop_first(), k - 1);
        assert(seq![s[0]] + s.drop_first().take(k - 1) =~= s.take(k));
    }
}

pub(crate) fn ascii_alpha(c: char) -> (r: bool)
    ensures
        r == is_ascii_alpha(c),
{
    ('a' <= c && c <= 'z') || ('A' <= c && c <= 'Z')
}

/// Length of the alphabetic prefix of `sym`.
fn alpha_prefix_len(sym: &str) -> (k: usize)
    ensures
        k <= sym@.len(),
        alpha_prefix(sym@) == sym@.take(k as int),
{
    let n = sym.unicode_len();
    let mut k: usize = 0;
    while k < n && ascii_alpha(sym.get_char(k))
        invariant
            n == sym@.len(),
            k <= n,
            forall|i: int| 0 <= i < k ==> is_ascii_alpha(sym@[i]),
        decreases n - k,
    {
        k = k + 1;
    }
    proof {
        lemma_alpha_prefix_take(sym@, k as int);
    }
    k
}

/// Whether the first `k` characters of `sym` spell exactly `lit`.
fn prefix_is(sym: &str, k: usize, lit: &str) -> (r: bool)
    requires
        k <= sym@.len(),
    ensures
        r == (sym@.take(k as int) == lit@),
{
    let m = lit.unicode_len();
    if m != k {
        proof {
            assert(sym@.take(k as int).len() != lit@.len());
        }
        return false;
    }
    let mut i: usize = 0;
    while i < k
        invariant
            m == k,
            m == lit@.len(),
            k <= sym@.len(),
            i <= k,
            forall|j: int| 0 <= j < i ==> sym@[j] == lit@[j],
        decreases k - i,
    {
        if sym.get_char(i) != lit.get_char(i) {
            proof {
                assert(sym@.take(k as int)[i as int] != lit@[i as int]);
            }
            return false;
        }
        i = i + 1;
    }
    assert(sym@.take(k as int) =~= lit@);
    true
}

/// The element symbol of a species label: its leading ASCII letters.
pub fn element_symbol(sym: &str) -> (r: String)
    ensures
        r@ == alpha_prefix(sym@),
{
    let k = alpha_prefix_len(sym);
    let s = sym.substring_char(0, k);
    String::from_str(s)
}

/// Glyph used for an atom in the ball-and-stick view.
#[derive(Debug, Clone, Copy, PartialEq, Eq, Structural)]
pub enum ShapeKind {
    Sphere,
    Octahedron,
    Cube,
}

pub open spec fn spec_shape_for(p: Seq<char>) -> ShapeKind {
    if p == "F"@ || p == "Cl"@ || p == "Br"@ || p == "I"@ || p == "At"@ {
        ShapeKind::Octahedron
    } else if p == "O"@ || p == "S"@ || p == "Se"@ || p == "Te"@ {
        ShapeKind::Cube
    } else {
        ShapeKind::Sphere
    }
}

/// Halogens are drawn as octahedra, chalcogens as cubes, everything else as spheres.
pub fn shape_for(sym: &str) -> (r: ShapeKind)
    ensures
        r == spec_shape_for(alpha_prefix(sym@)),
{
    let k = alpha_prefix_len(sym);
    if prefix_is(sym, k, "F") || prefix_is(sym, k, "Cl") || prefix_is(sym, k, "Br") || prefix_is(
        sym,
        k,
        "I",
    ) || prefix_is(sym, k, "At") {
        ShapeKind::Octahedron
    } else if prefix_is(sym, k, "O") || prefix_is(sym, k, "S") || prefix_is(sym, k, "Se")
        || prefix_is(sym, k, "Te") {
        ShapeKind::Cube
    } else {
        ShapeKind::Sphere
    }
}

/// Atomic number of an element symbol, 6 (carbon) for unknown symbols.
pub open spec fn spec_element_z(p: Seq<char>) -> u8 {
    if p == "H"@ {
        1
    } else if p == "He"@ {
        2
    } else if p == "Li"@ {
        3
    } else if p == "Be"@ {
        4
    } else if p == "B"@ {
        5
    } else if p == "C"@ {
        6
    } else if p == "N"@ {
        7
    } else if p == "O"@ {
        8
    } else if p == "F"@ {
        9
    } else if p == "Ne"@ {
        10
    } else if p == "Na"@ {
        11
    } else if p == "Mg"@ {
        12
    } else if p == "Al"@ {
        13
    } else if p == "Si"@ {
        14
    } else if p == "P"@ {
        15
    } else if p == "S"@ {
        16
    } else if p == "Cl"@ {
        17
    } else if p == "K"@ {
        19
    } else if p == "Ca"@ {
        20
    } else if p == "Ti"@ {
        22
    } else if p == "Fe"@ {
        26
    } else if p == "Cu"@ {
        29
    } else if p == "Zn"@ {
        30
    } else if p == "Ga"@ {
        31
    } else if p == "Ge"@ {
        32
    } else if p == "As"@ {
        33
    } else if p == "Se"@ {
        34
    } else if p == "Br"@ {
        35
    } else if p == "Ag"@ {
        47
    } else if p == "I"@ {
        53
    } else if p == "Au"@ {
        79
    } else if p == "Pb"@ {
        82
    } else {
        6
    }
}

/// Atomic number of the species' element (carbon, 6, when unknown); used as
/// the scattering weight of the atom.
pub fn element_z(sym: &str) -> (z: u8)
    ensures
        z == spec_element_z(alpha_prefix(sym@)),
{
    let k = alpha_prefix_len(sym);
    if prefix_is(sym, k, "H") {
        1
    } else if prefix_is(sym, k, "He") {
        2
    } else if prefix_is(sym, k, "Li") {
        3
    } else if prefix_is(sym, k, "Be") {
        4
    } else if prefix_is(sym, k, "B") {
        5
    } else if prefix_is(sym, k, "C") {
        6
    } else if prefix_is(sym, k, "N") {
        7
    } else if prefix_is(sym, k, "O") {
        8
    } else if prefix_is(sym, k, "F") {
        9
    } else if prefix_is(sym, k, "Ne") {
        10
    } else if prefix_is(sym, k, "Na") {
        11
    } else if prefix_is(sym, k, "Mg") {
        12
    } else if prefix_is(sym, k, "Al") {
        13
    } else if prefix_is(sym, k, "Si") {
        14
    } else if prefix_is(sym, k, "P") {
        15
    } else if prefix_is(sym, k, "S") {
        16
    } else if prefix_is(sym, k, "Cl") {
        17
    } else if prefix_is(sym, k, "K") {
        19
    } else if prefix_is(sym, k, "Ca") {
        20
    } else if prefix_is(sym, k, "Ti") {
        22
    } else if prefix_is(sym, k, "Fe") {
        26
    } else if prefix_is(sym, k, "Cu") {
        29
    } else if prefix_is(sym, k, "Zn") {
        30
    } else if prefix_is(sym, k, "Ga") {
        31
    } else if prefix_is(sym, k, "Ge") {
        32
    } else if prefix_is(sym, k, "As") {
        33
    } else if prefix_is(sym, k, "Se") {
        34
    } else if prefix_is(sym, k, "Br") {
        35
    } else if prefix_is(sym, k, "Ag") {
        47
    } else if prefix_is(sym, k, "I") {
        53
    } else if prefix_is(sym, k, "Au") {
        79
    } else if prefix_is(sym, k, "Pb") {
        82
    } else {
        6
    }
}

/// The elements with a known atomic number: symbol and number.
pub open spec fn atomic_numbers() -> Seq<(Seq<char>, u8)> {
    seq![
        (seq!['H'], 1u8),
        (seq!['H', 'e'], 2u8),
        (seq!['L', 'i'], 3u8),
        (seq!['B', 'e'], 4u8),
        (seq!['B'], 5u8),
        (seq!['C'], 6u8),
        (seq!['N'], 7u8),
        (seq!['O'], 8u8),
        (seq!['F'], 9u8),
        (seq!['N', 'e'], 10u8),
        (seq!['N', 'a'], 11u8),
        (seq!['M', 'g'], 12u8),
        (seq!['A', 'l'], 13u8),
        (seq!['S', 'i'], 14u8),
        (seq!['P'], 15u8),
        (seq!['S'], 16u8),
        (seq!['C', 'l'], 17u8),
        (seq!['K'], 19u8),
        (seq!['C', 'a'], 20u8),
        (seq!['T', 'i'], 22u8),
        (seq!['F', 'e'], 26u8),
        (seq!['C', 'u'], 29u8),
        (seq!['Z', 'n'], 30u8),
        (seq!['G', 'a'], 31u8),
        (seq!['G', 'e'], 32u8),
        (seq!['A', 's'], 33u8),
        (seq!['S', 'e'], 34u8),
        (seq!['B', 'r'], 35u8),
        (seq!['A', 'g'], 47u8),
        (seq!['I'], 53u8),
        (seq!['A', 'u'], 79u8),
        (seq!['P', 'b'], 82u8),
    ]
}

/// Every element of the table gets its own atomic number, and every other
/// symbol gets carbon's, 6.
pub proof fn law_element_z_table()
    ensures
        forall|i: int|
            0 <= i < atomic_numbers().len() ==> spec_element_z(#[trigger] atomic_numbers()[i].0)
                == atomic_numbers()[i].1,
        forall|p: Seq<char>|
            (forall|i: int| 0 <= i < atomic_numbers().len() ==> #[trigger] atomic_numbers()[i].0 != p)
                ==> spec_element_z(p) == 6,
{
    reveal_strlit("H");
    assert("H"@ =~= seq!['H']);
    reveal_strlit("He");
    assert("He"@ =~= seq!['H', 'e']);
    reveal_strlit("Li");
    assert("Li"@ =~= seq!['L', 'i']);
    reveal_strlit("Be");
    assert("Be"@ =~= seq!['B', 'e']);
    reveal_strlit("B");
    assert("B"@ =~= seq!['B']);
    reveal_strlit("C");
    assert("C"@ =~= seq!['C']);
    reveal_strlit("N");
    assert("N"@ =~= seq!['N']);
    reveal_strlit("O");
    assert("O"@ =~= seq!['O']);
    reveal_strlit("F");
    assert("F"@ =~= seq!['F']);
    reveal_strlit("Ne");
    assert("Ne"@ =~= seq!['N', 'e']);
    reveal_strlit("Na");
    assert("Na"@ =~= seq!['N', 'a']);
    reveal_strlit("Mg");
    assert("Mg"@ =~= seq!['M', 'g']);
    reveal_strlit("Al");
    assert("Al"@ =~= seq!['A', 'l']);
    reveal_strlit("Si");
    assert("Si"@ =~= seq!['S', 'i']);
    reveal_strlit("P");
    assert("P"@ =~= seq!['P']);
    reveal_strlit("S");
    assert("S"@ =~= seq!['S']);
    reveal_strlit("Cl");
    assert("Cl"@ =~= seq!['C', 'l']);
    reveal_strlit("K");
    assert("K"@ =~= seq!['K']);
    reveal_strlit("Ca");
    assert("Ca"@ =~= seq!['C', 'a']);
    reveal_strlit("Ti");
    assert("Ti"@ =~= seq!['T', 'i']);
    reveal_strlit("Fe");
    assert("Fe"@ =~= seq!['F', 'e']);
    reveal_strlit("Cu");
    assert("Cu"@ =~= seq!['C', 'u']);
    reveal_strlit("Zn");
    assert("Zn"@ =~= seq!['Z', 'n']);
    reveal_strlit("Ga");
    assert("Ga"@ =~= seq!['G', 'a']);
    reveal_strlit("Ge");
    assert("Ge"@ =~= seq!['G', 'e']);
    reveal_strlit("As");
    assert("As"@ =~= seq!['A', 's']);
    reveal_strlit("Se");
    assert("Se"@ =~= seq!['S', 'e']);
    reveal_strlit("Br");
    assert("Br"@ =~= seq!['B', 'r']);
    reveal_strlit("Ag");
    assert("Ag"@ =~= seq!['A', 'g']);
    reveal_strlit("I");
    assert("I"@ =~= seq!['I']);
    reveal_strlit("Au");
    assert("Au"@ =~= seq!['A', 'u']);
    reveal_strlit("Pb");
    assert("Pb"@ =~= seq!['P', 'b']);
    assert forall|i: int|
        0 <= i < atomic_numbers().len() implies spec_element_z(#[trigger] atomic_numbers()[i].0)
            == atomic_numbers()[i].1 by {
        let t = atomic_numbers();
        if i == 0 {
            assert(t[0].0 == "H"@);
            assert(spec_element_z(t[0].0) == t[0].1);
        } else if i == 1 {
            assert(t[1].0 == "He"@);
            assert(spec_element_z(t[1].0) == t[1].1);
        } else if i == 2 {
            assert(t[2].0 == "Li"@);
            assert("Li"@[0] != "He"@[0]);
            assert(spec_element_z(t[2].0) == t[2].1);
        } else if i == 3 {
            assert(t[3].0 == "Be"@);
            assert("Be"@[0] != "He"@[0]);
            assert("Be"@[0] != "Li"@[0]);
            assert(spec_element_z(t[3].0) == t[3].1);
        } else if i == 4 {
            assert(t[4].0 == "B"@);
            assert("B"@[0] != "H"@[0]);
            assert(spec_element_z(t[4].0) == t[4].1);
        } else if i == 5 {
            assert(t[5].0 == "C"@);
            assert("C"@[0] != "H"@[0]);
            assert("C"@[0] != "B"@[0]);
            assert(spec_element_z(t[5].0) == t[5].1);
        } else if i == 6 {
            assert(t[6].0 == "N"@);
            assert("N"@[0] != "H"@[0]);
            assert("N"@[0] != "B"@[0]);
            assert("N"@[0] != "C"@[0]);
            assert(spec_element_z(t[6].0) == t[6].1);
        } else if i == 7 {
            assert(t[7].0 == "O"@);
            assert("O"@[0] != "H"@[0]);
            assert("O"@[0] != "B"@[0]);
            assert("O"@[0] != "C"@[0]);
            assert("O"@[0] != "N"@[0]);
            assert(spec_element_z(t[7].0) == t[7].1);
        } else if i == 8 {
            assert(t[8].0 == "F"@);
            assert("F"@[0] != "H"@[0]);
            assert("F"@[0] != "B"@[0]);
            assert("F"@[0] != "C"@[0]);
            assert("F"@[0] != "N"@[0]);
            assert("F"@[0] != "O"@[0]);
            assert(spec_element_z(t[8].0) == t[8].1);
        } else if i == 9 {
            assert(t[9].0 == "Ne"@);
            assert("Ne"@[0] != "He"@[0]);
            assert("Ne"@[0] != "Li"@[0]);
            assert("Ne"@[0] != "Be"@[0]);
            assert(spec_element_z(t[9].0) == t[9].1);
        } else if i == 10 {
            assert(t[10].0 == "Na"@);
            assert("Na"@[0] != "He"@[0]);
            assert("Na"@[0] != "Li"@[0]);
            assert("Na"@[0] != "Be"@[0]);
            assert("Na"@[1] != "Ne"@[1]);
            assert(spec_element_z(t[10].0) == t[10].1);
        } else if i == 11 {
            assert(t[11].0 == "Mg"@);
            assert("Mg"@[0] != "He"@[0]);
            assert("Mg"@[0] != "Li"@[0]);
            assert("Mg"@[0] != "Be"@[0]);
            assert("Mg"@[0] != "Ne"@[0]);
            assert("Mg"@[0] != "Na"@[0]);
            assert(spec_element_z(t[11].0) == t[11].1);
        } else if i == 12 {
            assert(t[12].0 == "Al"@);
            assert("Al"@[0] != "He"@[0]);
            assert("Al"@[0] != "Li"@[0]);
            assert("Al"@[0] != "Be"@[0]);
            assert("Al"@[0] != "Ne"@[0]);
            assert("Al"@[0] != "Na"@[0]);
            assert("Al"@[0] != "Mg"@[0]);
            assert(spec_element_z(t[12].0) == t[12].1);
        } else if i == 13 {
            assert(t[13].0 == "Si"@);
            assert("Si"@[0] != "He"@[0]);
            assert("Si"@[0] != "Li"@[0]);
            assert("Si"@[0] != "Be"@[0]);
            assert("Si"@[0] != "Ne"@[0]);
            assert("Si"@[0] != "Na"@[0]);
            assert("Si"@[0] != "Mg"@[0]);
            assert("Si"@[0] != "Al"@[0]);
            assert(spec_element_z(t[13].0) == t[13].1);
        } else if i == 14 {
            assert(t[14].0 == "P"@);
            assert("P"@[0] != "H"@[0]);
            assert("P"@[0] != "B"@[0]);
            assert("P"@[0] != "C"@[0]);
            assert("P"@[0] != "N"@[0]);
            assert("P"@[0] != "O"@[0]);
            assert("P"@[0] != "F"@[0]);
            assert(spec_element_z(t[14].0) == t[14].1);
        } else if i == 15 {
            assert(t[15].0 == "S"@);
            assert("S"@[0] != "H"@[0]);
            assert("S"@[0] != "B"@[0]);
            assert("S"@[0] != "C"@[0]);
            assert("S"@[0] != "N"@[0]);
            assert("S"@[0] != "O"@[0]);
            assert("S"@[0] != "F"@[0]);
            assert("S"@[0] != "P"@[0]);
            assert(spec_element_z(t[15].0) == t[15].1);
        } else if i == 16 {
            assert(t[16].0 == "Cl"@);
            assert("Cl"@[0] != "He"@[0]);
            assert("Cl"@[0] != "Li"@[0]);
            assert("Cl"@[0] != "Be"@[0]);
            assert("Cl"@[0] != "Ne"@[0]);
            assert("Cl"@[0] != "Na"@[0]);
            assert("Cl"@[0] != "Mg"@[0]);
            assert("Cl"@[0] != "Al"@[0]);
            assert("Cl"@[0] != "Si"@[0]);
            assert(spec_element_z(t[16].0) == t[16].1);
        } else if i == 17 {
            assert(t[17].0 == "K"@);
            assert("K"@[0] != "H"@[0]);
            assert("K"@[0] != "B"@[0]);
            assert("K"@[0] != "C"@[0]);
            assert("K"@[0] != "N"@[0]);
            assert("K"@[0] != "O"@[0]);
            assert("K"@[0] != "F"@[0]);
            assert("K"@[0] != "P"@[0]);
            assert("K"@[0] != "S"@[0]);
            assert(spec_element_z(t[17].0) == t[17].1);
        } else if i == 18 {
            assert(t[18].0 == "Ca"@);
            assert("Ca"@[0] != "He"@[0]);
            assert("Ca"@[0] != "Li"@[0]);
            assert("Ca"@[0] != "Be"@[0]);
            assert("Ca"@[0] != "Ne"@[0]);
            assert("Ca"@[0] != "Na"@[0]);
            assert("Ca"@[0] != "Mg"@[0]);
            assert("Ca"@[0] != "Al"@[0]);
            assert("Ca"@[0] != "Si"@[0]);
            assert("Ca"@[1] != "Cl"@[1]);
            assert(spec_element_z(t[18].0) == t[18].1);
        } else if i == 19 {
            assert(t[19].0 == "Ti"@);
            assert("Ti"@[0] != "He"@[0]);
            assert("Ti"@[0] != "Li"@[0]);
            assert("Ti"@[0] != "Be"@[0]);
            assert("Ti"@[0] != "Ne"@[0]);
            assert("Ti"@[0] != "Na"@[0]);
            assert("Ti"@[0] != "Mg"@[0]);
            assert("Ti"@[0] != "Al"@[0]);
            assert("Ti"@[0] != "Si"@[0]);
            assert("Ti"@[0] != "Cl"@[0]);
            assert("Ti"@[0] != "Ca"@[0]);
            assert(spec_element_z(t[19].0) == t[19].1);
        } else if i == 20 {
            assert(t[20].0 == "Fe"@);
            assert("Fe"@[0] != "He"@[0]);
            assert("Fe"@[0] != "Li"@[0]);
            assert("Fe"@[0] != "Be"@[0]);
            assert("Fe"@[0] != "Ne"@[0]);
            assert("Fe"@[0] != "Na"@[0]);
            assert("Fe"@[0] != "Mg"@[0]);
            assert("Fe"@[0] != "Al"@[0]);
            assert("Fe"@[0] != "Si"@[0]);
            assert("Fe"@[0] != "Cl"@[0]);
            assert("Fe"@[0] != "Ca"@[0]);
            assert("Fe"@[0] != "Ti"@[0]);
            assert(spec_element_z(t[20].0) == t[20].1);
        } else if i == 21 {
            assert(t[21].0 == "Cu"@);
            assert("Cu"@[0] != "He"@[0]);
            assert("Cu"@[0] != "Li"@[0]);
            assert("Cu"@[0] != "Be"@[0]);
            assert("Cu"@[0] != "Ne"@[0]);
            assert("Cu"@[0] != "Na"@[0]);
            assert("Cu"@[0] != "Mg"@[0]);
            assert("Cu"@[0] != "Al"@[0]);
            assert("Cu"@[0] != "Si"@[0]);
            assert("Cu"@[1] != "Cl"@[1]);
            assert("Cu"@[1] != "Ca"@[1]);
            assert("Cu"@[0] != "Ti"@[0]);
            assert("Cu"@[0] != "Fe"@[0]);
            assert(spec_element_z(t[21].0) == t[21].1);
        } else if i == 22 {
            assert(t[22].0 == "Zn"@);
            assert("Zn"@[0] != "He"@[0]);
            assert("Zn"@[0] != "Li"@[0]);
            assert("Zn"@[0] != "Be"@[0]);
            assert("Zn"@[0] != "Ne"@[0]);
            assert("Zn"@[0] != "Na"@[0]);
            assert("Zn"@[0] != "Mg"@[0]);
            assert("Zn"@[0] != "Al"@[0]);
            assert("Zn"@[0] != "Si"@[0]);
            assert("Zn"@[0] != "Cl"@[0]);
            assert("Zn"@[0] != "Ca"@[0]);
            assert("Zn"@[0] != "Ti"@[0]);
            assert("Zn"@[0] != "Fe"@[0]);
            assert("Zn"@[0] != "Cu"@[0]);
            assert(spec_element_z(t[22].0) == t[22].1);
        } else if i == 23 {
            assert(t[23].0 == "Ga"@);
            assert("Ga"@[0] != "He"@[0]);
            assert("Ga"@[0] != "Li"@[0]);
            assert("Ga"@[0] != "Be"@[0]);
            assert("Ga"@[0] != "Ne"@[0]);
            assert("Ga"@[0] != "Na"@[0]);
            assert("Ga"@[0] != "Mg"@[0]);
            assert("Ga"@[0] != "Al"@[0]);
            assert("Ga"@[0] != "Si"@[0]);
            assert("Ga"@[0] != "Cl"@[0]);
            assert("Ga"@[0] != "Ca"@[0]);
            assert("Ga"@[0] != "Ti"@[0]);
            assert("Ga"@[0] != "Fe"@[0]);
            assert("Ga"@[0] != "Cu"@[0]);
            assert("Ga"@[0] != "Zn"@[0]);
            assert(spec_element_z(t[23].0) == t[23].1);
        } else if i == 24 {
            assert(t[24].0 == "Ge"@);
            assert("Ge"@[0] != "He"@[0]);
            assert("Ge"@[0] != "Li"@[0]);
            assert("Ge"@[0] != "Be"@[0]);
            assert("Ge"@[0] != "Ne"@[0]);
            assert("Ge"@[0] != "Na"@[0]);
            assert("Ge"@[0] != "Mg"@[0]);
            assert("Ge"@[0] != "Al"@[0]);
            assert("Ge"@[0] != "Si"@[0]);
            assert("Ge"@[0] != "Cl"@[0]);
            assert("Ge"@[0] != "Ca"@[0]);
            assert("Ge"@[0] != "Ti"@[0]);
            assert("Ge"@[0] != "Fe"@[0]);
            assert("Ge"@[0] != "Cu"@[0]);
            assert("Ge"@[0] != "Zn"@[0]);
            assert("Ge"@[1] != "Ga"@[1]);
            assert(spec_element_z(t[24].0) == t[24].1);
        } else if i == 25 {
            assert(t[25].0 == "As"@);
            assert("As"@[0] != "He"@[0]);
            assert("As"@[0] != "Li"@[0]);
            assert("As"@[0] != "Be"@[0]);
            assert("As"@[0] != "Ne"@[0]);
            assert("As"@[0] != "Na"@[0]);
            assert("As"@[0] != "Mg"@[0]);
            assert("As"@[1] != "Al"@[1]);
            assert("As"@[0] != "Si"@[0]);
            assert("As"@[0] != "Cl"@[0]);
            assert("As"@[0] != "Ca"@[0]);
            assert("As"@[0] != "Ti"@[0]);
            assert("As"@[0] != "Fe"@[0]);
            assert("As"@[0] != "Cu"@[0]);
            assert("As"@[0] != "Zn"@[0]);
            assert("As"@[0] != "Ga"@[0]);
            assert("As"@[0] != "Ge"@[0]);
            assert(spec_element_z(t[25].0) == t[25].1);
        } else if i == 26 {
            assert(t[26].0 == "Se"@);
            assert("Se"@[0] != "He"@[0]);
            assert("Se"@[0] != "Li"@[0]);
            assert("Se"@[0] != "Be"@[0]);
            assert("Se"@[0] != "Ne"@[0]);
            assert("Se"@[0] != "Na"@[0]);
            assert("Se"@[0] != "Mg"@[0]);
            assert("Se"@[0] != "Al"@[0]);
            assert("Se"@[1] != "Si"@[1]);
            assert("Se"@[0] != "Cl"@[0]);
            assert("Se"@[0] != "Ca"@[0]);
            assert("Se"@[0] != "Ti"@[0]);
            assert("Se"@[0] != "Fe"@[0]);
            assert("Se"@[0] != "Cu"@[0]);
            assert("Se"@[0] != "Zn"@[0]);
            assert("Se"@[0] != "Ga"@[0]);
            assert("Se"@[0] != "Ge"@[0]);
            assert("Se"@[0] != "As"@[0]);
            assert(spec_element_z(t[26].0) == t[26].1);
        } else if i == 27 {
            assert(t[27].0 == "Br"@);
            assert("Br"@[0] != "He"@[0]);
            assert("Br"@[0] != "Li"@[0]);
            assert("Br"@[1] != "Be"@[1]);
            assert("Br"@[0] != "Ne"@[0]);
            assert("Br"@[0] != "Na"@[0]);
            assert("Br"@[0] != "Mg"@[0]);
            assert("Br"@[0] != "Al"@[0]);
            assert("Br"@[0] != "Si"@[0]);
            assert("Br"@[0] != "Cl"@[0]);
            assert("Br"@[0] != "Ca"@[0]);
            assert("Br"@[0] != "Ti"@[0]);
            assert("Br"@[0] != "Fe"@[0]);
            assert("Br"@[0] != "Cu"@[0]);
            assert("Br"@[0] != "Zn"@[0]);
            assert("Br"@[0] != "Ga"@[0]);
            assert("Br"@[0] != "Ge"@[0]);
            assert("Br"@[0] != "As"@[0]);
            assert("Br"@[0] != "Se"@[0]);
            assert(spec_element_z(t[27].0) == t[27].1);
        } else if i == 28 {
            assert(t[28].0 == "Ag"@);
            assert("Ag"@[0] != "He"@[0]);
            assert("Ag"@[0] != "Li"@[0]);
            assert("Ag"@[0] != "Be"@[0]);
            assert("Ag"@[0] != "Ne"@[0]);
            assert("Ag"@[0] != "Na"@[0]);
            assert("Ag"@[0] != "Mg"@[0]);
            assert("Ag"@[1] != "Al"@[1]);
            assert("Ag"@[0] != "Si"@[0]);
            assert("Ag"@[0] != "Cl"@[0]);
            assert("Ag"@[0] != "Ca"@[0]);
            assert("Ag"@[0] != "Ti"@[0]);
            assert("Ag"@[0] != "Fe"@[0]);
            assert("Ag"@[0] != "Cu"@[0]);
            assert("Ag"@[0] != "Zn"@[0]);
            assert("Ag"@[0] != "Ga"@[0]);
            assert("Ag"@[0] != "Ge"@[0]);
            assert("Ag"@[1] != "As"@[1]);
            assert("Ag"@[0] != "Se"@[0]);
            assert("Ag"@[0] != "Br"@[0]);
            assert(spec_element_z(t[28].0) == t[28].1);
        } else if i == 29 {
            assert(t[29].0 == "I"@);
            assert("I"@[0] != "H"@[0]);
            assert("I"@[0] != "B"@[0]);
            assert("I"@[0] != "C"@[0]);
            assert("I"@[0] != "N"@[0]);
            assert("I"@[0] != "O"@[0]);
            assert("I"@[0] != "F"@[0]);
            assert("I"@[0] != "P"@[0]);
            assert("I"@[0] != "S"@[0]);
            assert("I"@[0] != "K"@[0]);
            assert(spec_element_z(t[29].0) == t[29].1);
        } else if i == 30 {
            assert(t[30].0 == "Au"@);
            assert("Au"@[0] != "He"@[0]);
            assert("Au"@[0] != "Li"@[0]);
            assert("Au"@[0] != "Be"@[0]);
            assert("Au"@[0] != "Ne"@[0]);
            assert("Au"@[0] != "Na"@[0]);
            assert("Au"@[0] != "Mg"@[0]);
            assert("Au"@[1] != "Al"@[1]);
            assert("Au"@[0] != "Si"@[0]);
            assert("Au"@[0] != "Cl"@[0]);
            assert("Au"@[0] != "Ca"@[0]);
            assert("Au"@[0] != "Ti"@[0]);
            assert("Au"@[0] != "Fe"@[0]);
            assert("Au"@[0] != "Cu"@[0]);
            assert("Au"@[0] != "Zn"@[0]);
            assert("Au"@[0] != "Ga"@[0]);
            assert("Au"@[0] != "Ge"@[0]);
            assert("Au"@[1] != "As"@[1]);
            assert("Au"@[0] != "Se"@[0]);
            assert("Au"@[0] != "Br"@[0]);
            assert("Au"@[1] != "Ag"@[1]);
            assert(spec_element_z(t[30].0) == t[30].1);
        } else {
            assert(t[31].0 == "Pb"@);
            assert("Pb"@[0] != "He"@[0]);
            assert("Pb"@[0] != "Li"@[0]);
            assert("Pb"@[0] != "Be"@[0]);
            assert("Pb"@[0] != "Ne"@[0]);
            assert("Pb"@[0] != "Na"@[0]);
            assert("Pb"@[0] != "Mg"@[0]);
            assert("Pb"@[0] != "Al"@[0]);
            assert("Pb"@[0] != "Si"@[0]);
            assert("Pb"@[0] != "Cl"@[0]);
            assert("Pb"@[0] != "Ca"@[0]);
            assert("Pb"@[0] != "Ti"@[0]);
            assert("Pb"@[0] != "Fe"@[0]);
            assert("Pb"@[0] != "Cu"@[0]);
            assert("Pb"@[0] != "Zn"@[0]);
            assert("Pb"@[0] != "Ga"@[0]);
            assert("Pb"@[0] != "Ge"@[0]);
            assert("Pb"@[0] != "As"@[0]);
            assert("Pb"@[0] != "Se"@[0]);
            assert("Pb"@[0] != "Br"@[0]);
            assert("Pb"@[0] != "Ag"@[0]);
            assert("Pb"@[0] != "Au"@[0]);
            assert(spec_element_z(t[31].0) == t[31].1);
        }
    }
    assert forall|p: Seq<char>|
        (forall|i: int| 0 <= i < atomic_numbers().len() ==> #[trigger] atomic_numbers()[i].0 != p)
            implies spec_element_z(p) == 6 by {
        let t = atomic_numbers();
        assert(t[0].0 != p);
        assert(t[1].0 != p);
        assert(t[2].0 != p);
        assert(t[3].0 != p);
        assert(t[4].0 != p);
        assert(t[5].0 != p);
        assert(t[6].0 != p);
        assert(t[7].0 != p);
        assert(t[8].0 != p);
        assert(t[9].0 != p);
        assert(t[10].0 != p);
        assert(t[11].0 != p);
        assert(t[12].0 != p);
        assert(t[13].0 != p);
        assert(t[14].0 != p);
        assert(t[15].0 != p);
        assert(t[16].0 != p);
        assert(t[17].0 != p);
        assert(t[18].0 != p);
        assert(t[19].0 != p);
        assert(t[20].0 != p);
        assert(t[21].0 != p);
        assert(t[22].0 != p);
        assert(t[23].0 != p);
        assert(t[24].0 != p);
        assert(t[25].0 != p);
        assert(t[26].0 != p);
        assert(t[27].0 != p);
        assert(t[28].0 != p);
        assert(t[29].0 != p);
        assert(t[30].0 != p);
        assert(t[31].0 != p);
    }
}

/// The halogens, drawn as octahedra.
pub open spec fn halogens() -> Seq<Seq<char>> {
    seq![seq!['F'], seq!['C', 'l'], seq!['B', 'r'], seq!['I'], seq!['A', 't']]
}

/// The chalcogens, drawn as cubes.
pub open spec fn chalcogens() -> Seq<Seq<char>> {
    seq![seq!['O'], seq!['S'], seq!['S', 'e'], seq!['T', 'e']]
}

/// Exactly the halogens are drawn as octahedra and exactly the chalcogens as
/// cubes; every other element is a sphere.
pub proof fn law_shape_groups(p: Seq<char>)
    ensures
        spec_shape_for(p) == ShapeKind::Octahedron <==> halogens().contains(p),
        spec_shape_for(p) == ShapeKind::Cube <==> chalcogens().contains(p),
        spec_shape_for(p) == ShapeKind::Sphere <==> !halogens().contains(p) && !chalcogens().contains(p),
{
    reveal_strlit("F");
    assert("F"@ =~= seq!['F']);
    reveal_strlit("Cl");
    assert("Cl"@ =~= seq!['C', 'l']);
    reveal_strlit("Br");
    assert("Br"@ =~= seq!['B', 'r']);
    reveal_strlit("I");
    assert("I"@ =~= seq!['I']);
    reveal_strlit("At");
    assert("At"@ =~= seq!['A', 't']);
    reveal_strlit("O");
    assert("O"@ =~= seq!['O']);
    reveal_strlit("S");
    assert("S"@ =~= seq!['S']);
    reveal_strlit("Se");
    assert("Se"@ =~= seq!['S', 'e']);
    reveal_strlit("Te");
    assert("Te"@ =~= seq!['T', 'e']);
    let h = halogens();
    let c = chalcogens();
    assert(h[0] == seq!['F']);
    assert(h[1] == seq!['C', 'l']);
    assert(h[2] == seq!['B', 'r']);
    assert(h[3] == seq!['I']);
    assert(h[4] == seq!['A', 't']);
    assert(c[0] == seq!['O']);
    assert(c[1] == seq!['S']);
    assert(c[2] == seq!['S', 'e']);
    assert(c[3] == seq!['T', 'e']);
    if p == seq!['F'] {
        assert(h[0] == p);
    }
    if p == seq!['C', 'l'] {
        assert(h[1] == p);
    }
    if p == seq!['B', 'r'] {
        assert(h[2] == p);
    }
    if p == seq!['I'] {
        assert(h[3] == p);
    }
    if p == seq!['A', 't'] {
        assert(h[4] == p);
    }
    if p == seq!['O'] {
        assert(c[0] == p);
        assert(seq!['O'][0] != seq!['F'][0]);
        assert(seq!['O'][0] != seq!['I'][0]);
    }
    if p == seq!['S'] {
        assert(c[1] == p);
        assert(seq!['S'][0] != seq!['F'][0]);
        assert(seq!['S'][0] != seq!['I'][0]);
    }
    if p == seq!['S', 'e'] {
        assert(c[2] == p);
        assert(seq!['S', 'e'][0] != seq!['C', 'l'][0]);
        assert(seq!['S', 'e'][0] != seq!['B', 'r'][0]);
        assert(seq!['S', 'e'][0] != seq!['A', 't'][0]);
    }
    if p == seq!['T', 'e'] {
        assert(c[3] == p);
        assert(seq!['T', 'e'][0] != seq!['C', 'l'][0]);
        assert(seq!['T', 'e'][0] != seq!['B', 'r'][0]);
        assert(seq!['T', 'e'][0] != seq!['A', 't'][0]);
    }
    if h.contains(p) {
        let i = choose|i: int| 0 <= i < h.len() && h[i] == p;
        assert(i == 0 || i == 1 || i == 2 || i == 3 || i == 4);
    }
    if c.contains(p) {
        let i = choose|i: int| 0 <= i < c.len() && c[i] == p;
        assert(i == 0 || i == 1 || i == 2 || i == 3);
    }
}

} // verus!
