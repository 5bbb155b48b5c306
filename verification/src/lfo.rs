//! LFO and microphone modulation sources, and the routing of parameters to them.
use vstd::prelude::*;

verus! {

/// Number of generic per-mode parameter slots.
pub const MP_SLOTS: usize = 16;
pub const MP_KSCALE: usize = 0;
pub const MP_SPEED: usize = 1;
pub const MP_FIELD_MIX: usize = 2;
pub const MP_ISO_LEVEL: usize = 3;
pub const MP_COLOR_SHIFT: usize = 4;
pub const MP_ZOOM: usize = 5;
pub const MP_W_LATTICE: usize = 6;
pub const MP_W_MOTIF: usize = 7;
pub const MP_W_BAND: usize = 8;

/// LFO waveform shape.
#[derive(Clone, Copy, PartialEq, Eq, Debug, Structural)]
pub enum LfoWave {
    Sine,
    Triangle,
    Saw,
    Square,
    Pulse,
    Steps,
}

impl LfoWave {
    /// Position of the wave in the cycling order.
    pub open spec fn ord(self) -> int {
        match self {
            LfoWave::Sine => 0,
            LfoWave::Triangle => 1,
            LfoWave::Saw => 2,
            LfoWave::Square => 3,
            LfoWave::Pulse => 4,
            LfoWave::Steps => 5,
        }
    }

    pub open spec fn spec_label(self) -> Seq<char> {
        match self {
            LfoWave::Sine => "sine"@,
            LfoWave::Triangle => "triangle"@,
            LfoWave::Saw => "saw"@,
            LfoWave::Square => "square"@,
            LfoWave::Pulse => "pulse"@,
            LfoWave::Steps => "steps"@,
        }
    }

    /// The next wave in the UI cycle (wraps after `Steps`).
    pub fn next(self) -> (r: LfoWave)
        ensures
            r == self.spec_next(),
            r.ord() == (self.ord() + 1) % 6,
    {
        match self {
            LfoWave::Sine => LfoWave::Triangle,
            LfoWave::Triangle => LfoWave::Saw,
            LfoWave::Saw => LfoWave::Square,
            LfoWave::Square => LfoWave::Pulse,
            LfoWave::Pulse => LfoWave::Steps,
            LfoWave::Steps => LfoWave::Sine,
        }
    }

    pub fn label(self) -> (r: &'static str)
        ensures
            r@ == self.spec_label(),
    {
        match self {
            LfoWave::Sine => "sine",
            LfoWave::Triangle => "triangle",
            LfoWave::Saw => "saw",
            LfoWave::Square => "square",
            LfoWave::Pulse => "pulse",
            LfoWave::Steps => "steps",
        }
    }
}

impl Default for LfoWave {
    fn default() -> (r: LfoWave)
        ensures
            r == LfoWave::Sine,
    {
        LfoWave::Sine
    }
}


impl LfoWave {
    pub open spec fn spec_next(self) -> LfoWave {
        match self {
            LfoWave::Sine => LfoWave::Triangle,
            LfoWave::Triangle => LfoWave::Saw,
            LfoWave::Saw => LfoWave::Square,
            LfoWave::Square => LfoWave::Pulse,
            LfoWave::Pulse => LfoWave::Steps,
            LfoWave::Steps => LfoWave::Sine,
        }
    }
}

/// Which LFO bank drives a target parameter.
#[derive(Clone, Copy, PartialEq, Eq, Debug, Structural)]
pub enum LfoSrc {
    Off,
    A,
    B,
}

impl LfoSrc {
    pub open spec fn spec_next(self) -> LfoSrc {
        match self {
            LfoSrc::Off => LfoSrc::A,
            LfoSrc::A => LfoSrc::B,
            LfoSrc::B => LfoSrc::Off,
        }
    }

    pub open spec fn spec_label(self) -> Seq<char> {
        match self {
            LfoSrc::Off => "~"@,
            LfoSrc::A => "A"@,
            LfoSrc::B => "B"@,
        }
    }

    /// Off → A → B → Off.
    pub fn next(self) -> (r: LfoSrc)
        ensures
            r == self.spec_next(),
    {
        match self {
            LfoSrc::Off => LfoSrc::A,
            LfoSrc::A => LfoSrc::B,
            LfoSrc::B => LfoSrc::Off,
        }
    }

    pub fn label(self) -> (r: &'static str)
        ensures
            r@ == self.spec_label(),
    {
        match self {
            LfoSrc::Off => "~",
            LfoSrc::A => "A",
            LfoSrc::B => "B",
        }
    }
}

impl Default for LfoSrc {
    fn default() -> (r: LfoSrc)
        ensures
            r == LfoSrc::Off,
    {
        LfoSrc::Off
    }
}

/// Which audio band (or none) drives a parameter.
#[derive(Clone, Copy, PartialEq, Eq, Debug, Structural)]
pub enum MicSrc {
    Off,
    Amp,
    Bass,
    Mid,
    Treble,
}

impl MicSrc {
    pub open spec fn spec_next(self) -> MicSrc {
        match self {
            MicSrc::Off => MicSrc::Amp,
            MicSrc::Amp => MicSrc::Bass,
            MicSrc::Bass => MicSrc::Mid,
            MicSrc::Mid => MicSrc::Treble,
            MicSrc::Treble => MicSrc::Off,
        }
    }

    pub open spec fn spec_label(self) -> Seq<char> {
        match self {
            MicSrc::Off => "\u{b7}"@,
            MicSrc::Amp => "A"@,
            MicSrc::Bass => "B"@,
            MicSrc::Mid => "M"@,
            MicSrc::Treble => "T"@,
        }
    }

    /// Off → Amp → Bass → Mid → Treble → Off.
    pub fn next(self) -> (r: MicSrc)
        ensures
            r == self.spec_next(),
    {
        match self {
            MicSrc::Off => MicSrc::Amp,
            MicSrc::Amp => MicSrc::Bass,
            MicSrc::Bass => MicSrc::Mid,
            MicSrc::Mid => MicSrc::Treble,
            MicSrc::Treble => MicSrc::Off,
        }
    }

    pub fn label(self) -> (r: &'static str)
        ensures
            r@ == self.spec_label(),
    {
        match self {
            MicSrc::Off => "\u{b7}",
            MicSrc::Amp => "A",
            MicSrc::Bass => "B",
            MicSrc::Mid => "M",
            MicSrc::Treble => "T",
        }
    }
}

impl Default for MicSrc {
    fn default() -> (r: MicSrc)
        ensures
            r == MicSrc::Off,
    {
        MicSrc::Off
    }
}

/// Every parameter slot unrouted.
pub fn lfo_mp_default() -> (r: [LfoSrc; MP_SLOTS])
    ensures
        forall|i: int| 0 <= i < MP_SLOTS ==> r[i] == LfoSrc::Off,
{
    [LfoSrc::Off; MP_SLOTS]
}

/// Each source returns to itself after a full cycle of `next`.
pub proof fn lemma_sources_cycle(w: LfoWave, s: LfoSrc, m: MicSrc)
    ensures
        w.spec_next().spec_next().spec_next().spec_next().spec_next().spec_next() == w,
        s.spec_next().spec_next().spec_next() == s,
        m.spec_next().spec_next().spec_next().spec_next().spec_next() == m,
{
}

} // verus!
