//! Trip level: one knob from stillness (0) to total madness (9).
use vstd::prelude::*;
use crate::lfo::LfoWave;

verus! {

/// Intensity level, always in `0..=MAX_VAL`.
#[derive(Clone, Copy, PartialEq, Eq, Debug, Structural)]
pub struct TripLevel(u8);

impl TripLevel {
    pub const MAX_VAL: u8 = 9;

    /// The level's value.
    pub closed spec fn value(self) -> int {
        self.0 as int
    }

    pub open spec fn wf(self) -> bool {
        0 <= self.value() <= 9
    }

    /// Clamps `v` to `0..=9`.
    pub fn new(v: u8) -> (r: TripLevel)
        ensures
            r.wf(),
            r.value() == if v <= 9 { v as int } else { 9 },
    {
        if v <= Self::MAX_VAL {
            TripLevel(v)
        } else {
            TripLevel(Self::MAX_VAL)
        }
    }

    pub fn get(self) -> (r: u8)
        ensures
            r as int == self.value(),
    {
        self.0
    }

    /// The level one up, saturating at 9.
    pub closed spec fn spec_inc(self) -> TripLevel {
        if self.0 < 9 {
            TripLevel((self.0 + 1) as u8)
        } else {
            TripLevel(9)
        }
    }

    /// The level one down, saturating at 0.
    pub closed spec fn spec_dec(self) -> TripLevel {
        if self.0 > 0 {
            TripLevel((self.0 - 1) as u8)
        } else {
            TripLevel(0)
        }
    }

    /// One level up, saturating at 9.
    pub fn inc(self) -> (r: TripLevel)
        requires
            self.wf(),
        ensures
            r == self.spec_inc(),
            r.wf(),
            r.value() == if self.value() < 9 { self.value() + 1 } else { 9 },
    {
        if self.0 < Self::MAX_VAL {
            TripLevel(self.0 + 1)
        } else {
            TripLevel(Self::MAX_VAL)
        }
    }

    /// One level down, saturating at 0.
    pub fn dec(self) -> (r: TripLevel)
        ensures
            r == self.spec_dec(),
            r.value() == if self.value() > 0 { self.value() - 1 } else { 0 },
            self.wf() ==> r.wf(),
    {
        if self.0 > 0 {
            TripLevel(self.0 - 1)
        } else {
            TripLevel(0)
        }
    }

    pub open spec fn spec_wave_a(self) -> LfoWave {
        if self.value() <= 2 {
            LfoWave::Sine
        } else if self.value() <= 5 {
            LfoWave::Triangle
        } else if self.value() <= 7 {
            LfoWave::Saw
        } else if self.value() == 8 {
            LfoWave::Pulse
        } else {
            LfoWave::Steps
        }
    }

    pub open spec fn spec_wave_b(self) -> LfoWave {
        if self.value() <= 1 {
            LfoWave::Sine
        } else if self.value() <= 4 {
            LfoWave::Triangle
        } else if self.value() <= 6 {
            LfoWave::Saw
        } else if self.value() == 7 {
            LfoWave::Pulse
        } else {
            LfoWave::Square
        }
    }

    /// Wave of LFO bank A: sine → triangle → saw → pulse → steps as the level rises.
    pub fn wave_a(self) -> (r: LfoWave)
        ensures
            r == self.spec_wave_a(),
    {
        match self.0 {
            0..=2 => LfoWave::Sine,
            3..=5 => LfoWave::Triangle,
            6..=7 => LfoWave::Saw,
            8 => LfoWave::Pulse,
            _ => LfoWave::Steps,
        }
    }

    /// Wave of LFO bank B: sine → triangle → saw → pulse → square as the level rises.
    pub fn wave_b(self) -> (r: LfoWave)
        ensures
            r == self.spec_wave_b(),
    {
        match self.0 {
            0..=1 => LfoWave::Sine,
            2..=4 => LfoWave::Triangle,
            5..=6 => LfoWave::Saw,
            7 => LfoWave::Pulse,
            _ => LfoWave::Square,
        }
    }

    /// The feedback layer is active from level 3 up.
    pub fn fb_enabled(self) -> (r: bool)
        ensures
            r == (self.value() >= 3),
    {
        self.0 >= 3
    }

    pub open spec fn spec_label(self) -> Seq<char> {
        let v = self.value();
        if v == 0 {
            "0 still"@
        } else if v == 1 {
            "1 drift"@
        } else if v == 2 {
            "2 calm"@
        } else if v == 3 {
            "3 sway"@
        } else if v == 4 {
            "4 flow"@
        } else if v == 5 {
            "5 swirl"@
        } else if v == 6 {
            "6 churn"@
        } else if v == 7 {
            "7 wobble"@
        } else if v == 8 {
            "8 strobe"@
        } else {
            "9 madness"@
        }
    }

    pub fn label(self) -> (r: &'static str)
        ensures
            r@ == self.spec_label(),
    {
        match self.0 {
            0 => "0 still",
            1 => "1 drift",
            2 => "2 calm",
            3 => "3 sway",
            4 => "4 flow",
            5 => "5 swirl",
            6 => "6 churn",
            7 => "7 wobble",
            8 => "8 strobe",
            _ => "9 madness",
        }
    }
}

/// Two levels with the same value are the same level.
pub proof fn lemma_level_determined_by_value(a: TripLevel, b: TripLevel)
    ensures
        a.value() == b.value() ==> a == b,
{
}

/// One level up then one down gives back the level below 9, and one down
/// then one up gives it back above 0; both steps saturate at the ends.
pub proof fn law_trip_round_trip(x: TripLevel)
    requires
        x.wf(),
    ensures
        x.value() < 9 ==> x.spec_inc().spec_dec() == x,
        x.value() > 0 ==> x.spec_dec().spec_inc() == x,
        x.value() == 9 ==> x.spec_inc() == x,
        x.value() == 0 ==> x.spec_dec() == x,
        x.spec_inc().value() == if x.value() < 9 { x.value() + 1 } else { 9 },
        x.spec_dec().value() == if x.value() > 0 { x.value() - 1 } else { 0 },
{
}

/// How busy an LFO wave is: sine, triangle, saw, pulse, then square or steps.
pub open spec fn wave_intensity(w: LfoWave) -> int {
    match w {
        LfoWave::Sine => 0,
        LfoWave::Triangle => 1,
        LfoWave::Saw => 2,
        LfoWave::Pulse => 3,
        LfoWave::Square => 4,
        LfoWave::Steps => 4,
    }
}

/// The waves of the two LFO banks by level. Bank A is sine at 0–2, triangle
/// at 3–5, saw at 6–7, pulse at 8 and steps at 9; bank B runs one level
/// ahead of A (sine 0–1, triangle 2–4, saw 5–6, pulse 7) and ends on square
/// at 8–9. Neither bank's wave ever gets calmer as the level rises.
pub proof fn law_wave_bands(x: TripLevel, y: TripLevel)
    requires
        x.wf(),
        y.wf(),
    ensures
        x.spec_wave_a() == LfoWave::Sine <==> x.value() <= 2,
        x.spec_wave_a() == LfoWave::Triangle <==> 3 <= x.value() <= 5,
        x.spec_wave_a() == LfoWave::Saw <==> 6 <= x.value() <= 7,
        x.spec_wave_a() == LfoWave::Pulse <==> x.value() == 8,
        x.spec_wave_a() == LfoWave::Steps <==> x.value() == 9,
        x.spec_wave_b() == LfoWave::Square <==> x.value() >= 8,
        x.value() <= 7 ==> x.spec_wave_b() == x.spec_inc().spec_wave_a(),
        x.value() <= y.value() ==> wave_intensity(x.spec_wave_a()) <= wave_intensity(
            y.spec_wave_a(),
        ) && wave_intensity(x.spec_wave_b()) <= wave_intensity(y.spec_wave_b()),
{
}

impl Default for TripLevel {
    fn default() -> (r: TripLevel)
        ensures
            r.value() == 4,
            r.wf(),
    {
        TripLevel(4)
    }
}


} // verus!
