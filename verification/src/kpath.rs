//! High-symmetry points of the Brillouin zone and the path the k-point
//! walker follows through them, one set per crystal system.
use vstd::prelude::*;
use crate::symmetry::CrystalSystem;

verus! {

/// Labels of the high-symmetry points of `sys`, Γ first.
pub open spec fn kpoint_labels(sys: CrystalSystem) -> Seq<Seq<char>> {
    match sys {
        CrystalSystem::Cubic => seq!["Γ"@, "X"@, "W"@, "K"@, "L"@, "U"@, "M"@],
        CrystalSystem::Hexagonal => seq!["Γ"@, "M"@, "K"@, "A"@, "L"@, "H"@],
        CrystalSystem::Trigonal => seq!["Γ"@, "Z"@, "F"@, "L"@, "Q"@],
        CrystalSystem::Tetragonal => seq!["Γ"@, "X"@, "M"@, "Z"@, "R"@, "A"@],
        CrystalSystem::Orthorhombic => seq!["Γ"@, "X"@, "Y"@, "Z"@, "S"@, "T"@, "U"@, "R"@],
        CrystalSystem::Monoclinic => seq!["Γ"@, "Y"@, "M"@, "Z"@, "B"@, "D"@],
        CrystalSystem::Triclinic => seq!["Γ"@, "X"@, "Y"@, "Z"@, "R"@, "V"@],
    }
}

/// The walk through the points of `sys`, as indices into its labels.
pub open spec fn kpath_route_of(sys: CrystalSystem) -> Seq<usize> {
    match sys {
        CrystalSystem::Cubic => seq![0usize, 1, 2, 3, 0, 4, 5, 2, 4, 3, 0],
        CrystalSystem::Hexagonal => seq![0usize, 2, 1, 0, 3, 5, 4, 3, 2, 5, 0],
        CrystalSystem::Trigonal => seq![0usize, 1, 2, 0, 3, 1, 4, 0],
        CrystalSystem::Tetragonal => seq![0usize, 1, 2, 0, 3, 4, 5, 3, 1, 4, 2, 5, 0],
        CrystalSystem::Orthorhombic => seq![0usize, 1, 4, 2, 0, 3, 6, 7, 5, 3, 1, 6, 2, 5, 0],
        CrystalSystem::Monoclinic => seq![0usize, 1, 2, 4, 0, 3, 5, 0],
        CrystalSystem::Triclinic => seq![0usize, 1, 4, 2, 0, 3, 4, 5, 0],
    }
}

pub open spec fn str_views(v: Seq<&'static str>) -> Seq<Seq<char>> {
    v.map_values(|s: &'static str| s@)
}

/// Labels of the high-symmetry points of `sys`.
pub fn kpoint_label_list(sys: CrystalSystem) -> (r: Vec<&'static str>)
    ensures
        str_views(r@) == kpoint_labels(sys),
{
    let r: Vec<&'static str> = match sys {
        CrystalSystem::Cubic => vec!["Γ", "X", "W", "K", "L", "U", "M"],
        CrystalSystem::Hexagonal => vec!["Γ", "M", "K", "A", "L", "H"],
        CrystalSystem::Trigonal => vec!["Γ", "Z", "F", "L", "Q"],
        CrystalSystem::Tetragonal => vec!["Γ", "X", "M", "Z", "R", "A"],
        CrystalSystem::Orthorhombic => vec!["Γ", "X", "Y", "Z", "S", "T", "U", "R"],
        CrystalSystem::Monoclinic => vec!["Γ", "Y", "M", "Z", "B", "D"],
        CrystalSystem::Triclinic => vec!["Γ", "X", "Y", "Z", "R", "V"],
    };
    assert(str_views(r@) =~= kpoint_labels(sys));
    r
}

/// The walk of `sys`.
pub fn kpath_route(sys: CrystalSystem) -> (r: Vec<usize>)
    ensures
        r@ == kpath_route_of(sys),
{
    let r: Vec<usize> = match sys {
        CrystalSystem::Cubic => vec![0, 1, 2, 3, 0, 4, 5, 2, 4, 3, 0],
        CrystalSystem::Hexagonal => vec![0, 2, 1, 0, 3, 5, 4, 3, 2, 5, 0],
        CrystalSystem::Trigonal => vec![0, 1, 2, 0, 3, 1, 4, 0],
        CrystalSystem::Tetragonal => vec![0, 1, 2, 0, 3, 4, 5, 3, 1, 4, 2, 5, 0],
        CrystalSystem::Orthorhombic => vec![0, 1, 4, 2, 0, 3, 6, 7, 5, 3, 1, 6, 2, 5, 0],
        CrystalSystem::Monoclinic => vec![0, 1, 2, 4, 0, 3, 5, 0],
        CrystalSystem::Triclinic => vec![0, 1, 4, 2, 0, 3, 4, 5, 0],
    };
    assert(r@ =~= kpath_route_of(sys));
    r
}

/// Segment after `seg` on a walk of `path_len` points, wrapping to the
/// first segment after the last.
pub fn next_segment(seg: usize, path_len: usize) -> (r: usize)
    requires
        seg + 1 < path_len,
    ensures
        r as int == (seg as int + 1) % (path_len as int - 1),
        r + 1 < path_len,
{
    (seg + 1) % (path_len - 1)
}

/// Indices of the two points that bound segment `seg` of `path`.
pub fn segment_ends(path: &Vec<usize>, seg: usize) -> (r: (usize, usize))
    requires
        seg < path@.len(),
    ensures
        r.0 == path@[seg as int],
        r.1 == path@[if seg + 1 < path@.len() {
            seg + 1
        } else {
            path@.len() - 1
        }],
{
    let b = if seg < path.len() - 1 {
        seg + 1
    } else {
        path.len() - 1
    };
    (path[seg], path[b])
}

/// Every step of a walk names an existing point, and every walk starts and
/// ends at Γ.
pub proof fn law_route_stays_on_points(sys: CrystalSystem)
    ensures
        forall|i: int|
            0 <= i < kpath_route_of(sys).len() ==> (#[trigger] kpath_route_of(sys)[i])
                < kpoint_labels(sys).len(),
        kpath_route_of(sys).len() >= 2,
        kpath_route_of(sys)[0] == 0,
        kpath_route_of(sys).last() == 0,
        kpoint_labels(sys)[0] == "Γ"@,
{
}

} // verus!
