//! Structure of a VASP POSCAR file: header, lattice, species and counts,
//! coordinate mode and atom lines, checked token by token.
//!
//! Numbers stay as the tokens that spell them; each one is checked against
//! the grammar that `f32::from_str` accepts, so the caller's conversion of a
//! token cannot fail.
use vstd::prelude::*;
use crate::text::{push_decimal, spec_decimal};
use crate::species::{ascii_alpha, is_ascii_alpha};
use self::lines::{
    char_vec, char_views, first_visible, first_visible_char, lines, split_lines, split_tokens,
    tokens,
};
use self::numeric::{
    float_literal, is_float_literal, lower, lower_code, parse_unsigned, unsigned_value, UintError,
};

pub mod lines;
pub mod numeric;

verus! {

/// One of the three coordinates of an atom line.
#[derive(Clone, Copy, PartialEq, Eq, Structural, Debug)]
pub enum Axis {
    X,
    Y,
    Z,
}

/// Why a text is not a POSCAR file, one variant per message of the reader.
#[derive(Clone, Copy, PartialEq, Eq, Structural, Debug)]
pub enum PoscarError {
    EofComment,
    EofScale,
    EmptyScale,
    BadScale,
    EofLattice(usize),
    BadLatticeValue,
    ShortLatticeRow(usize),
    EofSpecies,
    EofCounts,
    BadCount(UintError),
    EofCoordType,
    EofCoordTypeAfterSelective,
    EofAtoms,
    MissingCoord(Axis),
    BadCoord(Axis),
}

pub open spec fn uint_error_text(k: UintError) -> Seq<char> {
    match k {
        UintError::Empty => "cannot parse integer from empty string"@,
        UintError::InvalidDigit => "invalid digit found in string"@,
        UintError::PosOverflow => "number too large to fit in target type"@,
    }
}

pub open spec fn axis_name(a: Axis) -> Seq<char> {
    match a {
        Axis::X => "x"@,
        Axis::Y => "y"@,
        Axis::Z => "z"@,
    }
}

/// The reader's message for each error.
pub open spec fn error_text(e: PoscarError) -> Seq<char> {
    match e {
        PoscarError::EofComment => "EOF at comment line"@,
        PoscarError::EofScale => "EOF at scale"@,
        PoscarError::EmptyScale => "empty scale line"@,
        PoscarError::BadScale => "bad scale: invalid float literal"@,
        PoscarError::EofLattice(i) => "EOF at lattice row "@ + spec_decimal(i as nat),
        PoscarError::BadLatticeValue => "lattice: invalid float literal"@,
        PoscarError::ShortLatticeRow(i) => "lattice row "@ + spec_decimal(i as nat)
            + " has fewer than 3 values"@,
        PoscarError::EofSpecies => "EOF at species/counts"@,
        PoscarError::EofCounts => "EOF at counts"@,
        PoscarError::BadCount(k) => "count: "@ + uint_error_text(k),
        PoscarError::EofCoordType => "EOF at coord type"@,
        PoscarError::EofCoordTypeAfterSelective => "EOF at coord type (after S.D.)"@,
        PoscarError::EofAtoms => "EOF: not enough atom positions"@,
        PoscarError::MissingCoord(a) => "atom: missing "@ + axis_name(a),
        PoscarError::BadCoord(a) => axis_name(a) + ": invalid float literal"@,
    }
}

fn uint_error_str(k: UintError) -> (r: &'static str)
    ensures
        r@ == uint_error_text(k),
{
    match k {
        UintError::Empty => "cannot parse integer from empty string",
        UintError::InvalidDigit => "invalid digit found in string",
        UintError::PosOverflow => "number too large to fit in target type",
    }
}

fn axis_str(a: Axis) -> (r: &'static str)
    ensures
        r@ == axis_name(a),
{
    match a {
        Axis::X => "x",
        Axis::Y => "y",
        Axis::Z => "z",
    }
}

impl PoscarError {
    /// The message text, as the reader words it.
    pub fn message(&self) -> (r: String)
        ensures
            r@ == error_text(*self),
    {
        match *self {
            PoscarError::EofComment => String::from_str("EOF at comment line"),
            PoscarError::EofScale => String::from_str("EOF at scale"),
            PoscarError::EmptyScale => String::from_str("empty scale line"),
            PoscarError::BadScale => String::from_str("bad scale: invalid float literal"),
            PoscarError::EofLattice(i) => {
                let mut s = String::from_str("EOF at lattice row ");
                push_decimal(&mut s, i as u64);
                s
            },
            PoscarError::BadLatticeValue => String::from_str("lattice: invalid float literal"),
            PoscarError::ShortLatticeRow(i) => {
                let mut s = String::from_str("lattice row ");
                push_decimal(&mut s, i as u64);
                s.append(" has fewer than 3 values");
                s
            },
            PoscarError::EofSpecies => String::from_str("EOF at species/counts"),
            PoscarError::EofCounts => String::from_str("EOF at counts"),
            PoscarError::BadCount(k) => {
                let mut s = String::from_str("count: ");
                s.append(uint_error_str(k));
                s
            },
            PoscarError::EofCoordType => String::from_str("EOF at coord type"),
            PoscarError::EofCoordTypeAfterSelective => String::from_str(
                "EOF at coord type (after S.D.)",
            ),
            PoscarError::EofAtoms => String::from_str("EOF: not enough atom positions"),
            PoscarError::MissingCoord(a) => {
                let mut s = String::from_str("atom: missing ");
                s.append(axis_str(a));
                s
            },
            PoscarError::BadCoord(a) => {
                let mut s = String::from_str(axis_str(a));
                s.append(": invalid float literal");
                s
            },
        }
    }
}

/// An atom line: the species label in force and the three coordinate tokens.
pub struct AtomModel {
    pub species: Seq<char>,
    pub x: Seq<char>,
    pub y: Seq<char>,
    pub z: Seq<char>,
}

/// What a POSCAR file holds: the scale token, three rows of three lattice
/// tokens, whether positions are fractional ("Direct"), and the atoms in order.
pub struct PoscarModel {
    pub scale: Seq<char>,
    pub lattice: Seq<Seq<Seq<char>>>,
    pub direct: bool,
    pub atoms: Seq<AtomModel>,
}

/// At most the first three elements of `s`.
pub open spec fn first_three<T>(s: Seq<T>) -> Seq<T> {
    if s.len() <= 3 {
        s
    } else {
        s.take(3)
    }
}

/// Lattice row `i`, read from line `2 + i`.
pub open spec fn lattice_row(l: Seq<Seq<char>>, i: int) -> Result<Seq<Seq<char>>, PoscarError> {
    if l.len() <= 2 + i {
        Err(PoscarError::EofLattice(i as usize))
    } else {
        let tk = first_three(tokens(l[2 + i]));
        if exists|j: int| 0 <= j < tk.len() && !is_float_literal(#[trigger] tk[j]) {
            Err(PoscarError::BadLatticeValue)
        } else if tk.len() < 3 {
            Err(PoscarError::ShortLatticeRow(i as usize))
        } else {
            Ok(tk)
        }
    }
}

/// Lattice rows `i..3` appended to `acc`, the first failing row deciding the error.
pub open spec fn lattice_rows(l: Seq<Seq<char>>, i: int, acc: Seq<Seq<Seq<char>>>) -> Result<
    Seq<Seq<Seq<char>>>,
    PoscarError,
>
    decreases 3 - i,
{
    if i >= 3 {
        Ok(acc)
    } else {
        match lattice_row(l, i) {
            Err(e) => Err(e),
            Ok(r) => lattice_rows(l, i + 1, acc.push(r)),
        }
    }
}

/// The name given to species `i` of a file without a names line.
pub open spec fn unnamed_species_name(i: int) -> Seq<char> {
    seq!['X'] + spec_decimal(i as nat)
}

/// Counts `tk[i..]` appended to `acc`; the first token that is not a `usize`
/// decides the error.
pub open spec fn read_counts(tk: Seq<Seq<char>>, i: int, acc: Seq<usize>) -> Result<
    Seq<usize>,
    PoscarError,
>
    decreases tk.len() - i,
{
    if i < 0 || i >= tk.len() {
        Ok(acc)
    } else {
        match parse_unsigned(tk[i], usize::MAX as nat) {
            Err(k) => Err(PoscarError::BadCount(k)),
            Ok(v) => read_counts(tk, i + 1, acc.push(v as usize)),
        }
    }
}

/// Whether the first visible character of `line` is the letter `w` in either case.
pub open spec fn leads_with(line: Seq<char>, w: char) -> bool {
    match first_visible(line) {
        Some(c) => lower_code(c) == w as u32,
        None => false,
    }
}

/// The first line at or after `pos` that is not blank, or `l.len()`.
pub open spec fn next_filled(l: Seq<Seq<char>>, pos: int) -> int
    decreases l.len() - pos,
{
    if pos >= l.len() {
        l.len() as int
    } else if first_visible(l[pos]) is None {
        next_filled(l, pos + 1)
    } else {
        pos
    }
}

/// An atom line: three coordinates, and a fourth token that names the species
/// when it starts with an ASCII letter.
pub open spec fn atom_line(line: Seq<char>, label: Seq<char>) -> Result<AtomModel, PoscarError> {
    let tk = tokens(line);
    if tk.len() < 1 {
        Err(PoscarError::MissingCoord(Axis::X))
    } else if !is_float_literal(tk[0]) {
        Err(PoscarError::BadCoord(Axis::X))
    } else if tk.len() < 2 {
        Err(PoscarError::MissingCoord(Axis::Y))
    } else if !is_float_literal(tk[1]) {
        Err(PoscarError::BadCoord(Axis::Y))
    } else if tk.len() < 3 {
        Err(PoscarError::MissingCoord(Axis::Z))
    } else if !is_float_literal(tk[2]) {
        Err(PoscarError::BadCoord(Axis::Z))
    } else {
        let species = if tk.len() > 3 && tk[3].len() > 0 && is_ascii_alpha(tk[3][0]) {
            tk[3]
        } else {
            label
        };
        Ok(AtomModel { species, x: tk[0], y: tk[1], z: tk[2] })
    }
}

/// `n` atoms of species `label` read from line `pos` on, blank lines skipped,
/// appended to `acc`; with the line after the last one read.
pub open spec fn atom_run(
    l: Seq<Seq<char>>,
    pos: int,
    label: Seq<char>,
    n: nat,
    acc: Seq<AtomModel>,
) -> Result<(Seq<AtomModel>, int), PoscarError>
    decreases n,
{
    if n == 0 {
        Ok((acc, pos))
    } else {
        let p = next_filled(l, pos);
        if p >= l.len() {
            Err(PoscarError::EofAtoms)
        } else {
            match atom_line(l[p], label) {
                Err(e) => Err(e),
                Ok(a) => atom_run(l, p + 1, label, (n - 1) as nat, acc.push(a)),
            }
        }
    }
}

/// The atoms of species `k..` (as far as both names and counts go), read from
/// line `pos` on and appended to `acc`.
pub open spec fn atom_groups(
    l: Seq<Seq<char>>,
    pos: int,
    names: Seq<Seq<char>>,
    counts: Seq<usize>,
    k: int,
    acc: Seq<AtomModel>,
) -> Result<Seq<AtomModel>, PoscarError>
    decreases names.len() - k,
{
    if k < 0 || k >= names.len() || k >= counts.len() {
        Ok(acc)
    } else {
        match atom_run(l, pos, names[k], counts[k] as nat, acc) {
            Err(e) => Err(e),
            Ok(r) => atom_groups(l, r.1, names, counts, k + 1, r.0),
        }
    }
}

/// From the coordinate-mode line `next` on.
pub open spec fn after_counts(
    l: Seq<Seq<char>>,
    next: int,
    scale: Seq<char>,
    rows: Seq<Seq<Seq<char>>>,
    names: Seq<Seq<char>>,
    counts: Seq<usize>,
) -> Result<PoscarModel, PoscarError> {
    if l.len() <= next {
        Err(PoscarError::EofCoordType)
    } else if leads_with(l[next], 's') && l.len() <= next + 1 {
        Err(PoscarError::EofCoordTypeAfterSelective)
    } else {
        let mode = if leads_with(l[next], 's') {
            next + 1
        } else {
            next
        };
        match atom_groups(l, mode + 1, names, counts, 0, Seq::empty()) {
            Err(e) => Err(e),
            Ok(atoms) => Ok(
                PoscarModel { scale, lattice: rows, direct: leads_with(l[mode], 'd'), atoms },
            ),
        }
    }
}

/// Whether line 5 holds species names: its first token exists and is not a `u32`.
pub open spec fn names_line(t5: Seq<Seq<char>>) -> bool {
    t5.len() > 0 && parse_unsigned(t5[0], u32::MAX as nat) is Err
}

/// From the species/counts line on.
pub open spec fn after_lattice(l: Seq<Seq<char>>, scale: Seq<char>, rows: Seq<Seq<Seq<char>>>) -> Result<
    PoscarModel,
    PoscarError,
> {
    if l.len() <= 5 {
        Err(PoscarError::EofSpecies)
    } else {
        let t5 = tokens(l[5]);
        if names_line(t5) && l.len() <= 6 {
            Err(PoscarError::EofCounts)
        } else {
            let names = if names_line(t5) {
                t5
            } else {
                Seq::new(t5.len(), |i: int| unnamed_species_name(i))
            };
            let counts_line = if names_line(t5) {
                l[6]
            } else {
                l[5]
            };
            let next = if names_line(t5) {
                7int
            } else {
                6int
            };
            match read_counts(tokens(counts_line), 0, Seq::empty()) {
                Err(e) => Err(e),
                Ok(counts) => after_counts(l, next, scale, rows, names, counts),
            }
        }
    }
}

/// What reading the text `src` as a POSCAR file gives.
pub open spec fn parse_model(src: Seq<char>) -> Result<PoscarModel, PoscarError> {
    let l = lines(src);
    if l.len() < 1 {
        Err(PoscarError::EofComment)
    } else if l.len() < 2 {
        Err(PoscarError::EofScale)
    } else if tokens(l[1]).len() == 0 {
        Err(PoscarError::EmptyScale)
    } else if !is_float_literal(tokens(l[1])[0]) {
        Err(PoscarError::BadScale)
    } else {
        match lattice_rows(l, 0, Seq::empty()) {
            Err(e) => Err(e),
            Ok(rows) => after_lattice(l, tokens(l[1])[0], rows),
        }
    }
}

/// Every atom of `atoms` has three coordinate tokens that `f32::from_str` accepts.
pub open spec fn atoms_numeric(atoms: Seq<AtomModel>) -> bool {
    forall|k: int|
        0 <= k < atoms.len() ==> is_float_literal(#[trigger] atoms[k].x) && is_float_literal(
            atoms[k].y,
        ) && is_float_literal(atoms[k].z)
}

/// Every row of `rows` holds three tokens that `f32::from_str` accepts.
pub open spec fn rows_numeric(rows: Seq<Seq<Seq<char>>>) -> bool {
    forall|i: int|
        0 <= i < rows.len() ==> (#[trigger] rows[i]).len() == 3 && forall|j: int|
            0 <= j < 3 ==> is_float_literal(#[trigger] rows[i][j])
}

proof fn lemma_lattice_rows_numeric(l: Seq<Seq<char>>, i: int, acc: Seq<Seq<Seq<char>>>)
    requires
        0 <= i <= 3,
        rows_numeric(acc),
        acc.len() == i,
        lattice_rows(l, i, acc) is Ok,
    ensures
        rows_numeric(lattice_rows(l, i, acc)->Ok_0),
        (lattice_rows(l, i, acc)->Ok_0).len() == 3,
    decreases 3 - i,
{
    if i < 3 {
        let r = lattice_row(l, i)->Ok_0;
        let tk = first_three(tokens(l[2 + i]));
        assert(r == tk);
        assert forall|j: int| 0 <= j < 3 implies is_float_literal(#[trigger] r[j]) by {
            assert(is_float_literal(tk[j]));
        }
        lemma_lattice_rows_numeric(l, i + 1, acc.push(r));
    }
}

proof fn lemma_atom_run_numeric(
    l: Seq<Seq<char>>,
    pos: int,
    label: Seq<char>,
    n: nat,
    acc: Seq<AtomModel>,
)
    requires
        atoms_numeric(acc),
        atom_run(l, pos, label, n, acc) is Ok,
    ensures
        atoms_numeric((atom_run(l, pos, label, n, acc)->Ok_0).0),
    decreases n,
{
    if n > 0 {
        let p = next_filled(l, pos);
        let a = atom_line(l[p], label)->Ok_0;
        assert(atoms_numeric(acc.push(a)));
        lemma_atom_run_numeric(l, p + 1, label, (n - 1) as nat, acc.push(a));
    }
}

proof fn lemma_atom_groups_numeric(
    l: Seq<Seq<char>>,
    pos: int,
    names: Seq<Seq<char>>,
    counts: Seq<usize>,
    k: int,
    acc: Seq<AtomModel>,
)
    requires
        atoms_numeric(acc),
        atom_groups(l, pos, names, counts, k, acc) is Ok,
    ensures
        atoms_numeric(atom_groups(l, pos, names, counts, k, acc)->Ok_0),
    decreases names.len() - k,
{
    if !(k < 0 || k >= names.len() || k >= counts.len()) {
        lemma_atom_run_numeric(l, pos, names[k], counts[k] as nat, acc);
        let r = atom_run(l, pos, names[k], counts[k] as nat, acc)->Ok_0;
        lemma_atom_groups_numeric(l, r.1, names, counts, k + 1, r.0);
    }
}

/// Every number a successful read returns (scale, the three lattice rows of
/// three values, each atom's three coordinates) is a token that
/// `f32::from_str` accepts.
pub proof fn law_numbers_are_float_literals(src: Seq<char>)
    requires
        parse_model(src) is Ok,
    ensures
        is_float_literal((parse_model(src)->Ok_0).scale),
        (parse_model(src)->Ok_0).lattice.len() == 3,
        rows_numeric((parse_model(src)->Ok_0).lattice),
        atoms_numeric((parse_model(src)->Ok_0).atoms),
{
    let l = lines(src);
    lemma_lattice_rows_numeric(l, 0, Seq::empty());
    let rows = lattice_rows(l, 0, Seq::empty())->Ok_0;
    let t5 = tokens(l[5]);
    let names = if names_line(t5) {
        t5
    } else {
        Seq::new(t5.len(), |i: int| unnamed_species_name(i))
    };
    let counts_line = if names_line(t5) {
        l[6]
    } else {
        l[5]
    };
    let next = if names_line(t5) {
        7int
    } else {
        6int
    };
    let counts = read_counts(tokens(counts_line), 0, Seq::empty())->Ok_0;
    let mode = if leads_with(l[next], 's') {
        next + 1
    } else {
        next
    };
    lemma_atom_groups_numeric(l, mode + 1, names, counts, 0, Seq::empty());
}

/// The characters of each string in `v`.
pub open spec fn string_views(v: Seq<String>) -> Seq<Seq<char>> {
    v.map_values(|x: String| x@)
}

/// An atom line as read: species label and coordinate tokens.
pub struct PoscarAtom {
    pub species: String,
    pub x: String,
    pub y: String,
    pub z: String,
}

impl View for PoscarAtom {
    type V = AtomModel;

    open spec fn view(&self) -> AtomModel {
        AtomModel { species: self.species@, x: self.x@, y: self.y@, z: self.z@ }
    }
}

/// A POSCAR file as read: every number is a token that `f32::from_str` accepts.
pub struct PoscarLayout {
    pub scale: String,
    pub lattice: Vec<Vec<String>>,
    pub direct: bool,
    pub atoms: Vec<PoscarAtom>,
}

pub open spec fn rows_view(rows: Seq<Vec<String>>) -> Seq<Seq<Seq<char>>> {
    rows.map_values(|r: Vec<String>| string_views(r@))
}

pub open spec fn atoms_view(atoms: Seq<PoscarAtom>) -> Seq<AtomModel> {
    atoms.map_values(|a: PoscarAtom| a@)
}

impl View for PoscarLayout {
    type V = PoscarModel;

    open spec fn view(&self) -> PoscarModel {
        PoscarModel {
            scale: self.scale@,
            lattice: rows_view(self.lattice@),
            direct: self.direct,
            atoms: atoms_view(self.atoms@),
        }
    }
}

/// `String: FromIterator<char>`: the string made of `chars`, in order.
#[verifier::external_body]
fn string_of(chars: &Vec<char>) -> (s: String)
    ensures
        s@ == chars@,
{
    chars.iter().collect()
}

#[verifier::loop_isolation(false)]
fn read_lattice(l: &Vec<Vec<char>>) -> (r: Result<Vec<Vec<String>>, PoscarError>)
    ensures
        match r {
            Ok(rows) => lattice_rows(char_views(l@), 0, Seq::empty()) == Ok::<
                Seq<Seq<Seq<char>>>,
                PoscarError,
            >(rows_view(rows@)),
            Err(e) => lattice_rows(char_views(l@), 0, Seq::empty()) == Err::<
                Seq<Seq<Seq<char>>>,
                PoscarError,
            >(e),
        },
{
    let ghost lv = char_views(l@);
    let mut rows: Vec<Vec<String>> = Vec::new();
    let mut i: usize = 0;
    assert(rows_view(rows@) =~= Seq::<Seq<Seq<char>>>::empty());
    while i < 3
        invariant
            i <= 3,
            lv == char_views(l@),
            lattice_rows(lv, i as int, rows_view(rows@)) == lattice_rows(lv, 0, Seq::empty()),
        decreases 3 - i,
    {
        if l.len() <= 2 + i {
            return Err(PoscarError::EofLattice(i));
        }
        let tk = split_tokens(&l[2 + i]);
        let ghost tkv = first_three(tokens(lv[2 + i]));
        let m = if tk.len() < 3 {
            tk.len()
        } else {
            3
        };
        assert(tkv.len() == m);
        let mut j: usize = 0;
        while j < m
            invariant
                j <= m,
                m <= tk@.len(),
                tkv.len() == m,
                char_views(tk@) == tokens(lv[2 + i]),
                forall|q: int| 0 <= q < j ==> is_float_literal(#[trigger] tkv[q]),
            decreases m - j,
        {
            assert(tkv[j as int] == tk@[j as int]@);
            if !float_literal(&tk[j]) {
                return Err(PoscarError::BadLatticeValue);
            }
            j = j + 1;
        }
        if m < 3 {
            return Err(PoscarError::ShortLatticeRow(i));
        }
        let mut row: Vec<String> = Vec::new();
        row.push(string_of(&tk[0]));
        row.push(string_of(&tk[1]));
        row.push(string_of(&tk[2]));
        assert(string_views(row@) =~= tkv);
        assert(rows_view(rows@.push(row)) =~= rows_view(rows@).push(tkv));
        rows.push(row);
        i = i + 1;
    }
    Ok(rows)
}

#[verifier::loop_isolation(false)]
fn read_count_tokens(tk: &Vec<Vec<char>>) -> (r: Result<Vec<usize>, PoscarError>)
    ensures
        match r {
            Ok(c) => read_counts(char_views(tk@), 0, Seq::empty()) == Ok::<
                Seq<usize>,
                PoscarError,
            >(c@),
            Err(e) => read_counts(char_views(tk@), 0, Seq::empty()) == Err::<
                Seq<usize>,
                PoscarError,
            >(e),
        },
{
    let ghost tv = char_views(tk@);
    let mut counts: Vec<usize> = Vec::new();
    let mut i: usize = 0;
    while i < tk.len()
        invariant
            i <= tk@.len(),
            read_counts(tv, i as int, counts@) == read_counts(tv, 0, Seq::empty()),
        decreases tk@.len() - i,
    {
        assert(tv[i as int] == tk@[i as int]@);
        match unsigned_value(&tk[i], usize::MAX) {
            Err(k) => {
                return Err(PoscarError::BadCount(k));
            },
            Ok(v) => {
                counts.push(v);
            },
        }
        i = i + 1;
    }
    Ok(counts)
}

/// Names for `n` species when the file gives none.
fn unnamed_species(n: usize) -> (names: Vec<String>)
    ensures
        string_views(names@) == Seq::new(n as nat, |i: int| unnamed_species_name(i)),
{
    let mut names: Vec<String> = Vec::new();
    let mut i: usize = 0;
    while i < n
        invariant
            i <= n,
            string_views(names@) == Seq::new(i as nat, |q: int| unnamed_species_name(q)),
        decreases n - i,
    {
        let mut s = String::from_str("X");
        proof {
            reveal_strlit("X");
        }
        push_decimal(&mut s, i as u64);
        assert(s@ == unnamed_species_name(i as int));
        assert(string_views(names@.push(s)) =~= string_views(names@).push(s@));
        assert(string_views(names@).push(s@) =~= Seq::new(
            (i + 1) as nat,
            |q: int| unnamed_species_name(q),
        ));
        names.push(s);
        i = i + 1;
    }
    names
}

/// Each token as a string.
fn token_strings(tk: &Vec<Vec<char>>) -> (names: Vec<String>)
    ensures
        string_views(names@) == char_views(tk@),
{
    let mut names: Vec<String> = Vec::new();
    let mut i: usize = 0;
    while i < tk.len()
        invariant
            i <= tk@.len(),
            string_views(names@) == char_views(tk@).take(i as int),
        decreases tk@.len() - i,
    {
        let s = string_of(&tk[i]);
        assert(string_views(names@.push(s)) =~= string_views(names@).push(s@));
        assert(string_views(names@).push(s@) =~= char_views(tk@).take(i + 1));
        names.push(s);
        i = i + 1;
    }
    assert(char_views(tk@).take(tk@.len() as int) =~= char_views(tk@));
    names
}

fn leads_with_letter(line: &Vec<char>, w: char) -> (r: bool)
    requires
        'a' <= w && w <= 'z',
    ensures
        r == leads_with(line@, w),
{
    match first_visible_char(line) {
        Some(c) => lower(c) == w as u32,
        None => false,
    }
}

fn read_atom_line(line: &Vec<char>, label: &String) -> (r: Result<PoscarAtom, PoscarError>)
    ensures
        match r {
            Ok(a) => atom_line(line@, label@) == Ok::<AtomModel, PoscarError>(a@),
            Err(e) => atom_line(line@, label@) == Err::<AtomModel, PoscarError>(e),
        },
{
    let tk = split_tokens(line);
    let ghost tv = tokens(line@);
    assert(forall|q: int| 0 <= q < tk@.len() ==> tv[q] == (#[trigger] tk@[q])@);
    if tk.len() < 1 {
        return Err(PoscarError::MissingCoord(Axis::X));
    }
    if !float_literal(&tk[0]) {
        return Err(PoscarError::BadCoord(Axis::X));
    }
    if tk.len() < 2 {
        return Err(PoscarError::MissingCoord(Axis::Y));
    }
    if !float_literal(&tk[1]) {
        return Err(PoscarError::BadCoord(Axis::Y));
    }
    if tk.len() < 3 {
        return Err(PoscarError::MissingCoord(Axis::Z));
    }
    if !float_literal(&tk[2]) {
        return Err(PoscarError::BadCoord(Axis::Z));
    }
    let species = if tk.len() > 3 && tk[3].len() > 0 && ascii_alpha(tk[3][0]) {
        string_of(&tk[3])
    } else {
        label.clone()
    };
    Ok(PoscarAtom { species, x: string_of(&tk[0]), y: string_of(&tk[1]), z: string_of(&tk[2]) })
}

#[verifier::loop_isolation(false)]
fn read_atoms(l: &Vec<Vec<char>>, start: usize, names: &Vec<String>, counts: &Vec<usize>) -> (r:
    Result<Vec<PoscarAtom>, PoscarError>)
    requires
        start <= l@.len(),
    ensures
        match r {
            Ok(a) => atom_groups(
                char_views(l@),
                start as int,
                string_views(names@),
                counts@,
                0,
                Seq::empty(),
            ) == Ok::<Seq<AtomModel>, PoscarError>(atoms_view(a@)),
            Err(e) => atom_groups(
                char_views(l@),
                start as int,
                string_views(names@),
                counts@,
                0,
                Seq::empty(),
            ) == Err::<Seq<AtomModel>, PoscarError>(e),
        },
{
    let ghost lv = char_views(l@);
    let ghost nv = string_views(names@);
    let ghost goal = atom_groups(lv, start as int, nv, counts@, 0, Seq::empty());
    let n = l.len();
    let mut atoms: Vec<PoscarAtom> = Vec::new();
    let mut pos = start;
    let mut k: usize = 0;
    assert(atoms_view(atoms@) =~= Seq::<AtomModel>::empty());
    while k < names.len() && k < counts.len()
        invariant
            pos <= n,
            k <= names@.len(),
            atom_groups(lv, pos as int, nv, counts@, k as int, atoms_view(atoms@)) == goal,
        decreases names@.len() - k,
    {
        let cnt = counts[k];
        let label = &names[k];
        let ghost pos0 = pos as int;
        let ghost acc0 = atoms_view(atoms@);
        assert(nv[k as int] == label@);
        assert(atom_groups(lv, pos0, nv, counts@, k as int, acc0) == goal);
        let mut j: usize = 0;
        while j < cnt
            invariant
                j <= cnt,
                pos <= n,
                atom_run(lv, pos as int, label@, (cnt - j) as nat, atoms_view(atoms@)) == atom_run(
                    lv,
                    pos0,
                    label@,
                    cnt as nat,
                    acc0,
                ),
            decreases cnt - j,
        {
            let ghost p0 = pos as int;
            while pos < n && first_visible_char(&l[pos]).is_none()
                invariant
                    p0 <= pos <= n,
                    next_filled(lv, pos as int) == next_filled(lv, p0),
                decreases n - pos,
            {
                pos = pos + 1;
            }
            if pos >= n {
                return Err(PoscarError::EofAtoms);
            }
            assert(next_filled(lv, pos as int) == pos);
            assert(lv[pos as int] == l@[pos as int]@);
            match read_atom_line(&l[pos], label) {
                Err(e) => {
                    return Err(e);
                },
                Ok(a) => {
                    assert(atoms_view(atoms@.push(a)) =~= atoms_view(atoms@).push(a@));
                    atoms.push(a);
                },
            }
            pos = pos + 1;
            j = j + 1;
        }
        k = k + 1;
    }
    Ok(atoms)
}

impl PoscarLayout {
    /// Reads `src` as a POSCAR file (VASP 4 or 5, optional "Selective
    /// dynamics" line, direct or Cartesian coordinates).
    pub fn parse(src: &str) -> (r: Result<PoscarLayout, PoscarError>)
        ensures
            match r {
                Ok(p) => parse_model(src@) == Ok::<PoscarModel, PoscarError>(p@),
                Err(e) => parse_model(src@) == Err::<PoscarModel, PoscarError>(e),
            },
    {
        let chars = char_vec(src);
        let l = split_lines(&chars);
        let ghost lv = lines(src@);
        assert(forall|q: int| 0 <= q < l@.len() ==> lv[q] == (#[trigger] l@[q])@);
        if l.len() < 1 {
            return Err(PoscarError::EofComment);
        }
        if l.len() < 2 {
            return Err(PoscarError::EofScale);
        }
        let st = split_tokens(&l[1]);
        if st.len() == 0 {
            return Err(PoscarError::EmptyScale);
        }
        assert(tokens(lv[1])[0] == st@[0]@);
        if !float_literal(&st[0]) {
            return Err(PoscarError::BadScale);
        }
        let scale = string_of(&st[0]);
        let lattice = match read_lattice(&l) {
            Err(e) => {
                return Err(e);
            },
            Ok(rows) => rows,
        };
        if l.len() <= 5 {
            return Err(PoscarError::EofSpecies);
        }
        let t5 = split_tokens(&l[5]);
        let named = t5.len() > 0 && unsigned_value(&t5[0], u32::MAX as usize).is_err();
        assert(named == names_line(tokens(lv[5])));
        if named && l.len() <= 6 {
            return Err(PoscarError::EofCounts);
        }
        let names = if named {
            token_strings(&t5)
        } else {
            unnamed_species(t5.len())
        };
        let ct = if named {
            split_tokens(&l[6])
        } else {
            t5
        };
        let next: usize = if named {
            7
        } else {
            6
        };
        let counts = match read_count_tokens(&ct) {
            Err(e) => {
                return Err(e);
            },
            Ok(c) => c,
        };
        if l.len() <= next {
            return Err(PoscarError::EofCoordType);
        }
        let sd = leads_with_letter(&l[next], 's');
        if sd && l.len() <= next + 1 {
            return Err(PoscarError::EofCoordTypeAfterSelective);
        }
        let mode = if sd {
            next + 1
        } else {
            next
        };
        let direct = leads_with_letter(&l[mode], 'd');
        let atoms = match read_atoms(&l, mode + 1, &names, &counts) {
            Err(e) => {
                return Err(e);
            },
            Ok(a) => a,
        };
        Ok(PoscarLayout { scale, lattice, direct, atoms })
    }
}

} // verus!
