//! Crystal-system classification from lattice geometry.
use vstd::prelude::*;

verus! {

/// The seven crystal systems.
#[derive(Debug, Clone, Copy, PartialEq, Eq, Structural)]
pub enum CrystalSystem {
    Cubic,
    Hexagonal,
    Trigonal,
    Tetragonal,
    Orthorhombic,
    Monoclinic,
    Triclinic,
}

impl CrystalSystem {
    pub open spec fn spec_name(self) -> Seq<char> {
        match self {
            CrystalSystem::Cubic => "Cubic"@,
            CrystalSystem::Hexagonal => "Hexagonal"@,
            CrystalSystem::Trigonal => "Trigonal (Rhombohedral)"@,
            CrystalSystem::Tetragonal => "Tetragonal"@,
            CrystalSystem::Orthorhombic => "Orthorhombic"@,
            CrystalSystem::Monoclinic => "Monoclinic"@,
            CrystalSystem::Triclinic => "Triclinic"@,
        }
    }

    /// Display name.
    pub fn name(self) -> (r: &'static str)
        ensures
            r@ == self.spec_name(),
    {
        match self {
            CrystalSystem::Cubic => "Cubic",
            CrystalSystem::Hexagonal => "Hexagonal",
            CrystalSystem::Trigonal => "Trigonal (Rhombohedral)",
            CrystalSystem::Tetragonal => "Tetragonal",
            CrystalSystem::Orthorhombic => "Orthorhombic",
            CrystalSystem::Monoclinic => "Monoclinic",
            CrystalSystem::Triclinic => "Triclinic",
        }
    }
}

/// Geometric relations of a lattice with vectors a, b, c and angles
/// α (b∧c), β (a∧c), γ (a∧b): lengths equal within 0.2 % of |a|, angles
/// within one degree of a target or of each other.
#[derive(Debug, Clone, Copy, PartialEq, Eq, Structural)]
pub struct LatticeRelations {
    pub a_eq_b: bool,
    pub b_eq_c: bool,
    pub alpha_90: bool,
    pub beta_90: bool,
    pub gamma_90: bool,
    pub gamma_120: bool,
    pub alpha_eq_beta: bool,
    pub beta_eq_gamma: bool,
}

/// The crystal system of a lattice with the given relations, tested from
/// the most symmetric system down.
pub open spec fn spec_classify(r: LatticeRelations) -> CrystalSystem {
    if r.a_eq_b && r.b_eq_c && r.alpha_90 && r.beta_90 && r.gamma_90 {
        CrystalSystem::Cubic
    } else if r.a_eq_b && r.alpha_90 && r.beta_90 && r.gamma_120 {
        CrystalSystem::Hexagonal
    } else if r.a_eq_b && r.b_eq_c && r.alpha_eq_beta && r.beta_eq_gamma && !r.alpha_90 {
        CrystalSystem::Trigonal
    } else if r.a_eq_b && r.alpha_90 && r.beta_90 && r.gamma_90 {
        CrystalSystem::Tetragonal
    } else if r.alpha_90 && r.beta_90 && r.gamma_90 {
        CrystalSystem::Orthorhombic
    } else if r.alpha_90 && r.gamma_90 {
        CrystalSystem::Monoclinic
    } else {
        CrystalSystem::Triclinic
    }
}

/// Classifies the crystal system from the lattice relations.
pub fn classify(r: LatticeRelations) -> (s: CrystalSystem)
    ensures
        s == spec_classify(r),
{
    if r.a_eq_b && r.b_eq_c && r.alpha_90 && r.beta_90 && r.gamma_90 {
        CrystalSystem::Cubic
    } else if r.a_eq_b && r.alpha_90 && r.beta_90 && r.gamma_120 {
        CrystalSystem::Hexagonal
    } else if r.a_eq_b && r.b_eq_c && r.alpha_eq_beta && r.beta_eq_gamma && !r.alpha_90 {
        CrystalSystem::Trigonal
    } else if r.a_eq_b && r.alpha_90 && r.beta_90 && r.gamma_90 {
        CrystalSystem::Tetragonal
    } else if r.alpha_90 && r.beta_90 && r.gamma_90 {
        CrystalSystem::Orthorhombic
    } else if r.alpha_90 && r.gamma_90 {
        CrystalSystem::Monoclinic
    } else {
        CrystalSystem::Triclinic
    }
}

/// A lattice with three right angles is at least orthorhombic (never
/// monoclinic or triclinic), and one whose α and γ are not both right is
/// triclinic unless it is hexagonal or trigonal.
pub proof fn law_classify_right_angles(r: LatticeRelations)
    ensures
        r.alpha_90 && r.beta_90 && r.gamma_90 ==> spec_classify(r) != CrystalSystem::Monoclinic
            && spec_classify(r) != CrystalSystem::Triclinic,
        !(r.alpha_90 && r.gamma_90) ==> spec_classify(r) == CrystalSystem::Triclinic || spec_classify(r)
            == CrystalSystem::Hexagonal || spec_classify(r) == CrystalSystem::Trigonal,
{
}

/// What each crystal system asks of a lattice. Cubic: three equal lengths and
/// three right angles. Tetragonal: three right angles and |a| = |b|, but not
/// all three lengths equal. Orthorhombic: three right angles with |a| ≠ |b|.
/// Hexagonal: |a| = |b|, α = β = 90°, γ = 120°. Trigonal: three equal
/// lengths and three equal angles that are not right. Monoclinic: α = γ = 90°
/// and β not right. Triclinic: none of these. (A γ that reads both as 90° and
/// as 120° counts as hexagonal.)
pub proof fn law_classify_systems(r: LatticeRelations)
    ensures
        spec_classify(r) == CrystalSystem::Cubic <==> (r.a_eq_b && r.b_eq_c && r.alpha_90
            && r.beta_90 && r.gamma_90),
        spec_classify(r) == CrystalSystem::Tetragonal ==> r.a_eq_b && !r.b_eq_c && r.alpha_90
            && r.beta_90 && r.gamma_90,
        r.a_eq_b && !r.b_eq_c && r.alpha_90 && r.beta_90 && r.gamma_90 && !r.gamma_120
            ==> spec_classify(r) == CrystalSystem::Tetragonal,
        spec_classify(r) == CrystalSystem::Orthorhombic <==> (!r.a_eq_b && r.alpha_90 && r.beta_90
            && r.gamma_90),
        spec_classify(r) == CrystalSystem::Hexagonal ==> r.a_eq_b && r.alpha_90 && r.beta_90
            && r.gamma_120,
        r.a_eq_b && r.alpha_90 && r.beta_90 && !r.gamma_90 && r.gamma_120 ==> spec_classify(r)
            == CrystalSystem::Hexagonal,
        spec_classify(r) == CrystalSystem::Trigonal <==> (r.a_eq_b && r.b_eq_c && r.alpha_eq_beta
            && r.beta_eq_gamma && !r.alpha_90),
        spec_classify(r) == CrystalSystem::Monoclinic <==> (r.alpha_90 && r.gamma_90 && !r.beta_90),
        spec_classify(r) == CrystalSystem::Triclinic <==> (!(r.alpha_90 && r.gamma_90) && !(
        r.a_eq_b && r.b_eq_c && r.alpha_eq_beta && r.beta_eq_gamma && !r.alpha_90) && !(r.a_eq_b
            && r.alpha_90 && r.beta_90 && r.gamma_120)),
{
}

} // verus!
