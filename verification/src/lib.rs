//! Scale exercises for stringed instruments: a root pitch and a named
//! interval pattern become a concrete set of pitch classes, which is
//! mapped onto every fret of every string of a tuning and rendered as
//! a textual fretboard diagram. Pitch arithmetic is closed modular
//! arithmetic over the twelve-tone system; the interval patterns come
//! from the chords crate's catalog; randomness comes in through an
//! explicit generator handed by the caller.

use vstd::prelude::*;
use vstd::string::StringExecFns;

pub mod catalog;
pub mod fretboard;
pub mod hand;
pub mod pattern;
pub mod rng;
pub mod scale;
pub mod pitch;
pub mod text;

verus! {

pub use crate::pitch::PitchClass;

/// How an exercise is asked for: over the command line or over the
/// web.
#[derive(Clone, Copy, Debug, PartialEq, Eq, Structural)]
pub enum GuitarExerciseMode {
    Cli,
    Web,
}

impl Default for GuitarExerciseMode {
    /// The command line is the default way in.
    fn default() -> (r: GuitarExerciseMode)
        ensures
            r == GuitarExerciseMode::Cli,
    {
        GuitarExerciseMode::Cli
    }
}

/// One request for an exercise: how it was asked for, the scale to
/// practise, the root note, and the practice pattern.
#[derive(Debug)]
pub struct GuitarExerciseRequest {
    /// How the request came in.
    pub mode: GuitarExerciseMode,
    /// The scale to practise.
    pub scale: crate::scale::ScaleCategory,
    /// The root note the scale is built on.
    pub note: PitchClass,
    /// The pattern to practise the scale with.
    pub pattern: crate::pattern::GuitarExercisePattern,
}

impl Default for GuitarExerciseRequest {
    /// A command-line request for the default major scale on C,
    /// practised sequentially.
    fn default() -> (r: GuitarExerciseRequest)
        ensures
            r.mode == GuitarExerciseMode::Cli,
            r.scale.wf(),
            r.scale.root == PitchClass::C,
            r.scale.category@ == "Major"@,
            r.note == PitchClass::C,
            r.pattern.name@ == "Sequential"@,
            r.pattern.difficulty == 0,
    {
        GuitarExerciseRequest {
            mode: GuitarExerciseMode::Cli,
            scale: crate::scale::ScaleCategory::default(),
            note: PitchClass::C,
            pattern: crate::pattern::GuitarExercisePattern::default(),
        }
    }
}

/// The display spelling of a pitch class, two characters wide, as it
/// appears at the head of a rendered string line.
pub fn note_to_string(note: PitchClass) -> (r: String)
    ensures
        r@ == crate::pitch::note_name(note),
{
    match note {
        PitchClass::C => String::from_str(" C"),
        PitchClass::CSharp => String::from_str("C#"),
        PitchClass::D => String::from_str(" D"),
        PitchClass::DSharp => String::from_str("D#"),
        PitchClass::E => String::from_str(" E"),
        PitchClass::F => String::from_str(" F"),
        PitchClass::FSharp => String::from_str("F#"),
        PitchClass::G => String::from_str(" G"),
        PitchClass::GSharp => String::from_str("G#"),
        PitchClass::A => String::from_str(" A"),
        PitchClass::ASharp => String::from_str("A#"),
        PitchClass::B => String::from_str(" B"),
    }
}

/// The ways a request on this library can fail.
#[derive(Clone, Copy, Debug, PartialEq, Eq, Structural)]
pub enum ScaleError {
    /// The requested pattern name is absent from the catalog: a request
    /// validation failure, surfaced to the caller.
    UnknownScale,
    /// Arithmetic produced a pitch outside the twelve classes. Offset
    /// normalisation is total, so no operation of this library produces
    /// it; the variant stands for callers that wish to name the
    /// condition.
    InvalidPitch,
    /// A diagram was requested of a board whose strings were never
    /// mapped. Every board constructor maps its strings eagerly, so no
    /// operation of this library produces it.
    UnmappedBoard,
}

} // verus!

