use vstd::prelude::*;
use vstd::string::StringExecFns;

verus! {

/// A way of practising a scale over the board, graded by difficulty.
#[derive(Clone, Debug)]
pub struct GuitarExercisePattern {
    /// The pattern's name.
    pub name: String,
    /// 0 is the easiest grade.
    pub difficulty: u8,
}

impl Default for GuitarExercisePattern {
    /// The sequential pattern: play the scale straight through.
    fn default() -> (r: GuitarExercisePattern)
        ensures
            r.name@ == "Sequential"@,
            r.difficulty == 0,
    {
        GuitarExercisePattern { name: String::from_str("Sequential"), difficulty: 0u8 }
    }
}

impl GuitarExercisePattern {
    /// A randomly picked practice pattern. Only the sequential pattern
    /// exists so far, so every draw yields it and no randomness source
    /// is consumed.
    pub fn random() -> (r: GuitarExercisePattern)
        ensures
            r.name@ == "Sequential"@,
            r.difficulty == 0,
    {
        GuitarExercisePattern::default()
    }
}

} // verus!
