use vstd::prelude::*;

verus! {

/// The twelve pitch classes of the chromatic scale.
#[derive(Debug, Clone, Copy, PartialEq, Eq, Hash, Structural)]
pub enum Pitch {
    C,
    CSharp,
    D,
    DSharp,
    E,
    F,
    FSharp,
    G,
    GSharp,
    A,
    ASharp,
    B,
}

impl Pitch {
    /// Position of the pitch class within the octave, `C` being 0.
    pub open spec fn spec_semitone(self) -> u8 {
        match self {
            Pitch::C => 0,
            Pitch::CSharp => 1,
            Pitch::D => 2,
            Pitch::DSharp => 3,
            Pitch::E => 4,
            Pitch::F => 5,
            Pitch::FSharp => 6,
            Pitch::G => 7,
            Pitch::GSharp => 8,
            Pitch::A => 9,
            Pitch::ASharp => 10,
            Pitch::B => 11,
        }
    }

    /// The pitch class at a semitone position below 12.
    pub open spec fn spec_from_semitone(semitone: u8) -> Option<Pitch> {
        if semitone == 0 {
            Some(Pitch::C)
        } else if semitone == 1 {
            Some(Pitch::CSharp)
        } else if semitone == 2 {
            Some(Pitch::D)
        } else if semitone == 3 {
            Some(Pitch::DSharp)
        } else if semitone == 4 {
            Some(Pitch::E)
        } else if semitone == 5 {
            Some(Pitch::F)
        } else if semitone == 6 {
            Some(Pitch::FSharp)
        } else if semitone == 7 {
            Some(Pitch::G)
        } else if semitone == 8 {
            Some(Pitch::GSharp)
        } else if semitone == 9 {
            Some(Pitch::A)
        } else if semitone == 10 {
            Some(Pitch::ASharp)
        } else if semitone == 11 {
            Some(Pitch::B)
        } else {
            None
        }
    }

    pub fn semitone(self) -> (r: u8)
        ensures
            r == self.spec_semitone(),
            r < 12,
    {
        match self {
            Self::C => 0,
            Self::CSharp => 1,
            Self::D => 2,
            Self::DSharp => 3,
            Self::E => 4,
            Self::F => 5,
            Self::FSharp => 6,
            Self::G => 7,
            Self::GSharp => 8,
            Self::A => 9,
            Self::ASharp => 10,
            Self::B => 11,
        }
    }

    pub fn from_semitone(semitone: u8) -> (r: Option<Self>)
        ensures
            r == Self::spec_from_semitone(semitone),
            r is Some <==> semitone < 12,
            r matches Some(p) ==> p.spec_semitone() == semitone,
    {
        match semitone {
            0 => Some(Self::C),
            1 => Some(Self::CSharp),
            2 => Some(Self::D),
            3 => Some(Self::DSharp),
            4 => Some(Self::E),
            5 => Some(Self::F),
            6 => Some(Self::FSharp),
            7 => Some(Self::G),
            8 => Some(Self::GSharp),
            9 => Some(Self::A),
            10 => Some(Self::ASharp),
            11 => Some(Self::B),
            _ => None,
        }
    }
}

/// Every pitch class is recovered from its semitone position.
pub proof fn lemma_pitch_semitone_round_trip(pitch: Pitch)
    ensures
        Pitch::spec_from_semitone(pitch.spec_semitone()) == Some(pitch),
{
}

/// Every semitone position below 12 names exactly one pitch class, whose
/// position it is.
pub proof fn lemma_semitone_pitch_round_trip(semitone: u8)
    requires
        semitone < 12,
    ensures
        Pitch::spec_from_semitone(semitone) matches Some(p) && p.spec_semitone() == semitone,
{
}

/// Two pitch classes with the same semitone position are the same.
pub proof fn lemma_semitone_injective(a: Pitch, b: Pitch)
    requires
        a.spec_semitone() == b.spec_semitone(),
    ensures
        a == b,
{
}

} // verus!
