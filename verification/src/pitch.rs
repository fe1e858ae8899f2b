use vstd::prelude::*;

verus! {

/// One of the twelve equal-tempered pitch classes within an octave,
/// independent of octave number. Enharmonic spellings (such as C sharp
/// and D flat) are display forms of the same pitch value, so the
/// enumeration holds exactly the twelve canonical classes and equality
/// is equality of the canonical index.
#[derive(Clone, Copy, Debug, PartialEq, Eq, Structural)]
pub enum PitchClass {
    C,
    CSharp,
    D,
    DSharp,
    E,
    F,
    FSharp,
    G,
    GSharp,
    A,
    ASharp,
    B,
}

/// The pitch class whose canonical index is `i`, for `i` in [0, 11].
pub open spec fn pc_of_index(i: int) -> PitchClass {
    if i == 0 {
        PitchClass::C
    } else if i == 1 {
        PitchClass::CSharp
    } else if i == 2 {
        PitchClass::D
    } else if i == 3 {
        PitchClass::DSharp
    } else if i == 4 {
        PitchClass::E
    } else if i == 5 {
        PitchClass::F
    } else if i == 6 {
        PitchClass::FSharp
    } else if i == 7 {
        PitchClass::G
    } else if i == 8 {
        PitchClass::GSharp
    } else if i == 9 {
        PitchClass::A
    } else if i == 10 {
        PitchClass::ASharp
    } else {
        PitchClass::B
    }
}

impl PitchClass {
    /// Canonical index of this pitch class: C is 0, B is 11, stable
    /// across enharmonic spellings.
    pub open spec fn offset_spec(self) -> int {
        match self {
            PitchClass::C => 0,
            PitchClass::CSharp => 1,
            PitchClass::D => 2,
            PitchClass::DSharp => 3,
            PitchClass::E => 4,
            PitchClass::F => 5,
            PitchClass::FSharp => 6,
            PitchClass::G => 7,
            PitchClass::GSharp => 8,
            PitchClass::A => 9,
            PitchClass::ASharp => 10,
            PitchClass::B => 11,
        }
    }

    /// The pitch class reached by normalising an arbitrary semitone
    /// offset into [0, 11] with a mathematically correct modulo
    /// (the ghost `%` is Euclidean, so negative offsets wrap upward).
    pub open spec fn from_offset_spec(n: int) -> PitchClass {
        pc_of_index(n % 12)
    }

    /// Adding a number of semitones, at the level of the model.
    pub open spec fn add_spec(self, semitones: int) -> PitchClass {
        Self::from_offset_spec(self.offset_spec() + semitones)
    }

    /// Canonical index in [0, 11].
    pub fn to_offset(self) -> (r: u8)
        ensures
            r as int == self.offset_spec(),
            r < 12,
    {
        match self {
            PitchClass::C => 0,
            PitchClass::CSharp => 1,
            PitchClass::D => 2,
            PitchClass::DSharp => 3,
            PitchClass::E => 4,
            PitchClass::F => 5,
            PitchClass::FSharp => 6,
            PitchClass::G => 7,
            PitchClass::GSharp => 8,
            PitchClass::A => 9,
            PitchClass::ASharp => 10,
            PitchClass::B => 11,
        }
    }

    /// Normalises `n` modulo 12 into [0, 11] and returns the pitch class
    /// of that index. Total: every integer maps to one of the twelve
    /// classes, so no out-of-range failure can arise here.
    pub fn from_offset(n: i64) -> (r: PitchClass)
        ensures
            r == Self::from_offset_spec(n as int),
            r.offset_spec() == ((n as int % 12) + 12) % 12,
    {
        let m: i64 = n % 12;
        let idx: i64 = if m < 0 {
            m + 12
        } else {
            m
        };
        proof {
            assert(idx == (n as int) % 12) by (nonlinear_arith)
                requires
                    m == (n as int) % 12 || m == (n as int) % 12 - 12,
                    idx == if m < 0 { m + 12 as int } else { m as int },
                    0 <= (n as int) % 12 < 12,
            ;
        }
        if idx == 0 {
            PitchClass::C
        } else if idx == 1 {
            PitchClass::CSharp
        } else if idx == 2 {
            PitchClass::D
        } else if idx == 3 {
            PitchClass::DSharp
        } else if idx == 4 {
            PitchClass::E
        } else if idx == 5 {
            PitchClass::F
        } else if idx == 6 {
            PitchClass::FSharp
        } else if idx == 7 {
            PitchClass::G
        } else if idx == 8 {
            PitchClass::GSharp
        } else if idx == 9 {
            PitchClass::A
        } else if idx == 10 {
            PitchClass::ASharp
        } else {
            PitchClass::B
        }
    }

    /// Moves this pitch class by `semitones` (negative moves down),
    /// wrapping within the twelve-tone circle.
    pub fn add(self, semitones: i64) -> (r: PitchClass)
        ensures
            r == self.add_spec(semitones as int),
    {
        let m: i64 = semitones % 12;
        let s: i64 = self.to_offset() as i64 + m;
        proof {
            lemma_mod_twelve_congruent(self.offset_spec() + semitones as int, self.offset_spec() + m as int);
        }
        Self::from_offset(s)
    }
}

/// Two integers that differ by a multiple of 12 name the same pitch class.
proof fn lemma_mod_twelve_congruent(a: int, b: int)
    requires
        (a - b) % 12 == 0,
    ensures
        a % 12 == b % 12,
{
    assert(a % 12 == b % 12) by (nonlinear_arith)
        requires
            (a - b) % 12 == 0,
    ;
}

/// Normalising any integer offset lands in [0, 11], and the canonical
/// index of the result is the non-negative residue of `n` modulo 12.
pub proof fn lemma_from_offset_in_range(n: int)
    ensures
        0 <= PitchClass::from_offset_spec(n).offset_spec() < 12,
        PitchClass::from_offset_spec(n).offset_spec() == ((n % 12) + 12) % 12,
{
}

/// The pitch class a note name designates: the twelve sharp spellings
/// with and without their leading space, and the five flat spellings
/// of the altered classes. Any other name designates nothing.
pub open spec fn pitch_of_name(name: Seq<char>) -> Option<PitchClass> {
    if name == "C"@ || name == " C"@ {
        Some(PitchClass::C)
    } else if name == "C#"@ || name == "Db"@ {
        Some(PitchClass::CSharp)
    } else if name == "D"@ || name == " D"@ {
        Some(PitchClass::D)
    } else if name == "D#"@ || name == "Eb"@ {
        Some(PitchClass::DSharp)
    } else if name == "E"@ || name == " E"@ {
        Some(PitchClass::E)
    } else if name == "F"@ || name == " F"@ {
        Some(PitchClass::F)
    } else if name == "F#"@ || name == "Gb"@ {
        Some(PitchClass::FSharp)
    } else if name == "G"@ || name == " G"@ {
        Some(PitchClass::G)
    } else if name == "G#"@ || name == "Ab"@ {
        Some(PitchClass::GSharp)
    } else if name == "A"@ || name == " A"@ {
        Some(PitchClass::A)
    } else if name == "A#"@ || name == "Bb"@ {
        Some(PitchClass::ASharp)
    } else if name == "B"@ || name == " B"@ {
        Some(PitchClass::B)
    } else {
        None
    }
}

impl PitchClass {
    /// Parses a note name: sharp spellings, their space-padded display
    /// forms, and flat spellings. Enharmonic spellings of one pitch
    /// yield the same class, so they compare equal. Returns `None`
    /// exactly on names that designate no pitch class.
    pub fn from_name(name: &str) -> (r: Option<PitchClass>)
        ensures
            r == pitch_of_name(name@),
    {
        if crate::text::str_eq(name, "C") || crate::text::str_eq(name, " C") {
            Some(PitchClass::C)
        } else if crate::text::str_eq(name, "C#") || crate::text::str_eq(name, "Db") {
            Some(PitchClass::CSharp)
        } else if crate::text::str_eq(name, "D") || crate::text::str_eq(name, " D") {
            Some(PitchClass::D)
        } else if crate::text::str_eq(name, "D#") || crate::text::str_eq(name, "Eb") {
            Some(PitchClass::DSharp)
        } else if crate::text::str_eq(name, "E") || crate::text::str_eq(name, " E") {
            Some(PitchClass::E)
        } else if crate::text::str_eq(name, "F") || crate::text::str_eq(name, " F") {
            Some(PitchClass::F)
        } else if crate::text::str_eq(name, "F#") || crate::text::str_eq(name, "Gb") {
            Some(PitchClass::FSharp)
        } else if crate::text::str_eq(name, "G") || crate::text::str_eq(name, " G") {
            Some(PitchClass::G)
        } else if crate::text::str_eq(name, "G#") || crate::text::str_eq(name, "Ab") {
            Some(PitchClass::GSharp)
        } else if crate::text::str_eq(name, "A") || crate::text::str_eq(name, " A") {
            Some(PitchClass::A)
        } else if crate::text::str_eq(name, "A#") || crate::text::str_eq(name, "Bb") {
            Some(PitchClass::ASharp)
        } else if crate::text::str_eq(name, "B") || crate::text::str_eq(name, " B") {
            Some(PitchClass::B)
        } else {
            None
        }
    }
}

/// The display spelling of each pitch class, two characters wide:
/// naturals carry a leading space, altered classes their sharp form.
pub open spec fn note_name(pc: PitchClass) -> Seq<char> {
    match pc {
        PitchClass::C => " C"@,
        PitchClass::CSharp => "C#"@,
        PitchClass::D => " D"@,
        PitchClass::DSharp => "D#"@,
        PitchClass::E => " E"@,
        PitchClass::F => " F"@,
        PitchClass::FSharp => "F#"@,
        PitchClass::G => " G"@,
        PitchClass::GSharp => "G#"@,
        PitchClass::A => " A"@,
        PitchClass::ASharp => "A#"@,
        PitchClass::B => " B"@,
    }
}

/// Moving by `a` semitones and then by `b` is moving by `a + b`.
pub proof fn lemma_add_add(p: PitchClass, a: int, b: int)
    ensures
        p.add_spec(a).add_spec(b) == p.add_spec(a + b),
{
    let q = p.add_spec(a);
    assert((q.offset_spec() + b) % 12 == (p.offset_spec() + a + b) % 12) by (nonlinear_arith)
        requires
            q.offset_spec() == (p.offset_spec() + a) % 12,
    ;
}

/// A pitch class's canonical index normalises back to the same pitch
/// class: offsets in [0, 11] are fixed points of the normalisation.
pub proof fn lemma_offset_round_trip(p: PitchClass)
    ensures
        PitchClass::from_offset_spec(p.offset_spec()) == p,
        p.add_spec(0) == p,
{
    assert(p.offset_spec() % 12 == p.offset_spec());
    assert(pc_of_index(p.offset_spec()) == p);
}

/// Adding `k` semitones and then adding `-k` returns to the original
/// pitch class, for every pitch class and every integer `k`.
pub proof fn lemma_add_round_trip(p: PitchClass, k: int)
    ensures
        p.add_spec(k).add_spec(-k) == p,
{
    let q = p.add_spec(k);
    assert((q.offset_spec() - k) % 12 == p.offset_spec() % 12) by (nonlinear_arith)
        requires
            q.offset_spec() == (p.offset_spec() + k) % 12,
            0 <= p.offset_spec() < 12,
    ;
    assert(pc_of_index(p.offset_spec() % 12) == p);
}

} // verus!
