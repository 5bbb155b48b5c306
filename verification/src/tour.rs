//! Auto-tour decisions: style toggle, the order of scene cross-fade styles,
//! and the discrete picks of each curated scene.
use vstd::prelude::*;
use crate::trip::TripLevel;

verus! {

/// How the auto-tour chooses its scenes.
#[derive(Clone, Copy, PartialEq, Eq, Debug, Structural)]
pub enum TourStyle {
    Curated,
    Random,
}

impl TourStyle {
    pub open spec fn spec_next(self) -> TourStyle {
        match self {
            TourStyle::Curated => TourStyle::Random,
            TourStyle::Random => TourStyle::Curated,
        }
    }

    pub open spec fn spec_label(self) -> Seq<char> {
        match self {
            TourStyle::Curated => "CURATED"@,
            TourStyle::Random => "RANDOM"@,
        }
    }

    /// The other style.
    pub fn next(self) -> (r: TourStyle)
        ensures
            r == self.spec_next(),
            r != self,
    {
        match self {
            TourStyle::Curated => TourStyle::Random,
            TourStyle::Random => TourStyle::Curated,
        }
    }

    pub fn label(self) -> (r: &'static str)
        ensures
            r@ == self.spec_label(),
    {
        match self {
            TourStyle::Curated => "CURATED",
            TourStyle::Random => "RANDOM",
        }
    }
}

impl Default for TourStyle {
    fn default() -> (r: TourStyle)
        ensures
            r == TourStyle::Curated,
    {
        TourStyle::Curated
    }
}

/// Temporal personality of a scene melt.
#[derive(Clone, Copy, PartialEq, Eq, Debug, Structural)]
pub enum CrossfadeStyle {
    Silk,
    Rush,
    Drift,
    Ripple,
}

impl CrossfadeStyle {
    /// The styles in the order they are handed out.
    pub open spec fn all() -> Seq<CrossfadeStyle> {
        seq![CrossfadeStyle::Silk, CrossfadeStyle::Rush, CrossfadeStyle::Drift, CrossfadeStyle::Ripple]
    }

    /// The style at `cursor` (cycling through all four), advancing the cursor
    /// with wrap-around.
    pub fn next(cursor: &mut usize) -> (r: CrossfadeStyle)
        ensures
            r == Self::all()[(*old(cursor) % 4) as int],
            *final(cursor) == (if *old(cursor) == usize::MAX {
                0
            } else {
                *old(cursor) + 1
            }),
    {
        let c = *cursor;
        let r = match c % 4 {
            0 => CrossfadeStyle::Silk,
            1 => CrossfadeStyle::Rush,
            2 => CrossfadeStyle::Drift,
            _ => CrossfadeStyle::Ripple,
        };
        *cursor = if c == usize::MAX {
            0
        } else {
            c + 1
        };
        r
    }
}

/// Stage of the tour's stay on one crystal.
#[derive(Clone, Copy, PartialEq, Eq, Debug, Structural)]
pub enum TourPhase {
    Settling,
    Walking,
    Fading,
}

/// What one tick of the tour decides: the phase after it, whether the phase
/// timer restarts, whether the tour moves on to the next crystal, and whether
/// the previous crystal's image is let go.
#[derive(Clone, Copy, PartialEq, Eq, Debug, Structural)]
pub struct PhaseStep {
    pub phase: TourPhase,
    pub reset_timer: bool,
    pub advance: bool,
    pub drop_previous: bool,
}

/// One tick of an active (or inactive) tour in `phase`, where `time_up` says
/// that the phase has lasted its duration: settling gives way to walking,
/// walking ends by moving to the next crystal and fading, and fading ends by
/// letting the previous image go and settling again.
pub open spec fn spec_phase_step(active: bool, phase: TourPhase, time_up: bool) -> PhaseStep {
    if !active || !time_up {
        PhaseStep { phase, reset_timer: false, advance: false, drop_previous: false }
    } else {
        match phase {
            TourPhase::Settling => PhaseStep {
                phase: TourPhase::Walking,
                reset_timer: true,
                advance: false,
                drop_previous: false,
            },
            TourPhase::Walking => PhaseStep {
                phase: TourPhase::Fading,
                reset_timer: true,
                advance: true,
                drop_previous: false,
            },
            TourPhase::Fading => PhaseStep {
                phase: TourPhase::Settling,
                reset_timer: true,
                advance: false,
                drop_previous: true,
            },
        }
    }
}

/// The tour's decision for one tick.
pub fn phase_step(active: bool, phase: TourPhase, time_up: bool) -> (r: PhaseStep)
    ensures
        r == spec_phase_step(active, phase, time_up),
{
    if !active || !time_up {
        return PhaseStep { phase, reset_timer: false, advance: false, drop_previous: false };
    }
    match phase {
        TourPhase::Settling => PhaseStep {
            phase: TourPhase::Walking,
            reset_timer: true,
            advance: false,
            drop_previous: false,
        },
        TourPhase::Walking => PhaseStep {
            phase: TourPhase::Fading,
            reset_timer: true,
            advance: true,
            drop_previous: false,
        },
        TourPhase::Fading => PhaseStep {
            phase: TourPhase::Settling,
            reset_timer: true,
            advance: false,
            drop_previous: true,
        },
    }
}

/// The crystal the tour visits after `idx` among `total`, wrapping around.
pub fn next_crystal(idx: usize, total: usize) -> (r: usize)
    requires
        total > 0,
        idx < usize::MAX,
    ensures
        r == (idx + 1) % (total as int),
        r < total,
{
    (idx + 1) % total
}

/// A tick changes nothing unless the tour is active and the phase is up; an
/// expiry always restarts the timer and moves settling → walking → fading →
/// settling. The tour moves on to the next crystal exactly when a walk ends,
/// and lets the previous image go exactly when a fade ends.
pub proof fn law_phase_step(active: bool, phase: TourPhase, time_up: bool)
    ensures
        ({
            let r = spec_phase_step(active, phase, time_up);
            &&& !(active && time_up) ==> r.phase == phase && !r.reset_timer && !r.advance
                && !r.drop_previous
            &&& active && time_up ==> r.reset_timer && r.phase != phase
            &&& active && time_up && phase == TourPhase::Settling ==> r.phase == TourPhase::Walking
            &&& active && time_up && phase == TourPhase::Walking ==> r.phase == TourPhase::Fading
            &&& active && time_up && phase == TourPhase::Fading ==> r.phase == TourPhase::Settling
            &&& r.advance <==> active && time_up && phase == TourPhase::Walking
            &&& r.drop_previous <==> active && time_up && phase == TourPhase::Fading
        }),
{
}

/// Three expiries of an active tour bring any phase back to itself, moving
/// on to the next crystal exactly once on the way.
pub proof fn law_tour_cycle(phase: TourPhase)
    ensures
        ({
            let s1 = spec_phase_step(true, phase, true);
            let s2 = spec_phase_step(true, s1.phase, true);
            let s3 = spec_phase_step(true, s2.phase, true);
            &&& s3.phase == phase
            &&& (if s1.advance { 1int } else { 0int }) + (if s2.advance { 1int } else { 0int }) + (
            if s3.advance { 1int } else { 0int }) == 1
        }),
{
}

/// Number of modes in the curated tour list.
pub const TOUR_MODE_COUNT: usize = 14;

/// The curated tour's mode list.
pub open spec fn tour_modes() -> Seq<u32> {
    seq![22u32, 20, 14, 21, 10, 17, 27, 4, 28, 15, 18, 12, 23, 29]
}

/// Entry `i` of the curated tour's mode list.
pub fn tour_mode(i: usize) -> (r: u32)
    requires
        i < TOUR_MODE_COUNT,
    ensures
        r == tour_modes()[i as int],
{
    let modes: [u32; 14] = [22, 20, 14, 21, 10, 17, 27, 4, 28, 15, 18, 12, 23, 29];
    assert(modes@ =~= tour_modes());
    modes[i]
}

/// Mirror modes a curated scene cycles through.
pub open spec fn scene_mirrors() -> Seq<u32> {
    seq![0u32, 1, 3, 5, 6, 7, 8, 9]
}

/// The discrete choices of one curated tour scene.
#[derive(Clone, Copy, PartialEq, Eq, Debug, Structural)]
pub struct ScenePicks {
    pub mode: u32,
    pub fb_enabled: bool,
    pub fb_mirror: u32,
    pub fb_blend_mode: u32,
    pub motion_blur: bool,
}

/// Picks of curated scene number `scene` for crystal `crystal_idx`: below
/// level 2 the mode depends on the crystal only; feedback runs from level 3
/// on, in two scenes out of three; mirror and blend mode cycle with the scene,
/// and motion blur is on in one scene out of four.
pub open spec fn spec_scene_picks(scene: nat, crystal_idx: nat, level: int) -> ScenePicks {
    let mode_scene = if level < 2 {
        0
    } else {
        scene
    };
    ScenePicks {
        mode: tour_modes()[((mode_scene + crystal_idx) % 14) as int],
        fb_enabled: level >= 3 && scene % 3 != 0,
        fb_mirror: scene_mirrors()[(scene % 8) as int],
        fb_blend_mode: (scene % 4) as u32,
        motion_blur: scene % 4 == 2,
    }
}

/// The discrete picks of a curated tour scene.
pub fn scene_picks(scene: usize, crystal_idx: usize, level: TripLevel) -> (r: ScenePicks)
    ensures
        r == spec_scene_picks(scene as nat, crystal_idx as nat, level.value()),
{
    let lv = level.get();
    let mode_scene: usize = if lv < 2 {
        0
    } else {
        scene
    };
    let mirrors: [u32; 8] = [0, 1, 3, 5, 6, 7, 8, 9];
    assert(mirrors@ =~= scene_mirrors());
    let idx = ((mode_scene % TOUR_MODE_COUNT) + (crystal_idx % TOUR_MODE_COUNT)) % TOUR_MODE_COUNT;
    assert(idx == (mode_scene + crystal_idx) % 14) by {
        vstd::arithmetic::div_mod::lemma_add_mod_noop(mode_scene as int, crystal_idx as int, 14);
    }
    ScenePicks {
        mode: tour_mode(idx),
        fb_enabled: level.fb_enabled() && scene % 3 != 0,
        fb_mirror: mirrors[scene % 8],
        fb_blend_mode: (scene % 4) as u32,
        motion_blur: scene % 4 == 2,
    }
}

/// The mode a random-style tour holds for crystal `crystal_idx` below level 2.
pub fn locked_tour_mode(crystal_idx: usize) -> (r: u32)
    ensures
        r == tour_modes()[(crystal_idx % 14) as int],
{
    tour_mode(crystal_idx % TOUR_MODE_COUNT)
}

/// Below level 2 a curated scene's mode depends on the crystal alone.
pub proof fn law_low_level_holds_mode(s1: nat, s2: nat, crystal_idx: nat, level: int)
    requires
        level < 2,
    ensures
        spec_scene_picks(s1, crystal_idx, level).mode == spec_scene_picks(s2, crystal_idx, level).mode,
{
}

/// From level 2 on, consecutive curated scenes of one crystal use different modes.
pub proof fn law_scenes_swap_modes(scene: nat, crystal_idx: nat, level: int)
    requires
        level >= 2,
    ensures
        spec_scene_picks(scene, crystal_idx, level).mode != spec_scene_picks(
            scene + 1,
            crystal_idx,
            level,
        ).mode,
{
    let a = (scene + crystal_idx) % 14;
    let b = (scene + 1 + crystal_idx) % 14;
    assert(b == (a + 1) % 14) by {
        vstd::arithmetic::div_mod::lemma_add_mod_noop((scene + crystal_idx) as int, 1, 14);
    }
    assert(tour_modes()[a as int] != tour_modes()[b as int]);
}

/// Feedback never runs in a curated scene below level 3.
pub proof fn law_feedback_needs_level_three(scene: nat, crystal_idx: nat, level: int)
    requires
        spec_scene_picks(scene, crystal_idx, level).fb_enabled,
    ensures
        level >= 3,
{
}

/// How curated scenes cycle: the mode walks the fourteen-mode tour list from
/// the crystal's entry (held at that entry below level 2), the blend mode is the scene
/// number mod 4, motion blur is on exactly in the scene of blend mode 2 (one
/// scene in four), feedback runs from level 3 on in all but every third
/// scene, and the mirror mode repeats every eight scenes and changes from one
/// scene to the next.
pub proof fn law_scene_cycles(scene: nat, crystal_idx: nat, level: int)
    ensures
        ({
            let p = spec_scene_picks(scene, crystal_idx, level);
            &&& p.mode == seq![22u32, 20, 14, 21, 10, 17, 27, 4, 28, 15, 18, 12, 23, 29][(((if level
                < 2 {
                0
            } else {
                scene
            }) + crystal_idx) % 14) as int]
            &&& p.fb_mirror == seq![0u32, 1, 3, 5, 6, 7, 8, 9][(scene % 8) as int]
            &&& p.fb_blend_mode == scene % 4
            &&& p.motion_blur <==> scene % 4 == 2
            &&& p.motion_blur <==> p.fb_blend_mode == 2
            &&& p.fb_enabled <==> level >= 3 && scene % 3 != 0
            &&& p.fb_mirror == spec_scene_picks(scene + 8, crystal_idx, level).fb_mirror
            &&& p.fb_mirror != spec_scene_picks(scene + 1, crystal_idx, level).fb_mirror
        }),
        spec_scene_picks(scene + 4, crystal_idx, level).motion_blur == spec_scene_picks(
            scene,
            crystal_idx,
            level,
        ).motion_blur,
        (if spec_scene_picks(scene, crystal_idx, level).motion_blur { 1int } else { 0int }) + (
        if spec_scene_picks(scene + 1, crystal_idx, level).motion_blur { 1int } else { 0int }) + (
        if spec_scene_picks(scene + 2, crystal_idx, level).motion_blur { 1int } else { 0int }) + (
        if spec_scene_picks(scene + 3, crystal_idx, level).motion_blur { 1int } else { 0int })
            == 1,
{
    assert((scene + 8) % 8 == scene % 8);
    assert((scene + 4) % 4 == scene % 4);
    let m = scene % 8;
    assert((scene + 1) % 8 == (m + 1) % 8);
    assert(scene_mirrors()[m as int] != scene_mirrors()[((m + 1) % 8) as int]);
}

} // verus!
