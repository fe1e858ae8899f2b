use guitar_exercises::PitchClass;
use guitar_exercises::note_to_string;

#[test]
fn it_gets_strings() {
}

#[test]
fn from_offset_normalises_into_range() {
    for n in -100i64..100i64 {
        let off = PitchClass::from_offset(n).to_offset();
        assert!(off < 12);
        let expected = ((n % 12) + 12) % 12;
        assert_eq!(off as i64, expected);
    }
}

#[test]
fn from_offset_handles_extreme_values() {
    let expected_min = ((i64::MIN % 12) + 12) % 12;
    assert_eq!(PitchClass::from_offset(i64::MIN).to_offset() as i64, expected_min);
    let expected_max = ((i64::MAX % 12) + 12) % 12;
    assert_eq!(PitchClass::from_offset(i64::MAX).to_offset() as i64, expected_max);
    assert_eq!(PitchClass::from_offset(-1), PitchClass::B);
    assert_eq!(PitchClass::from_offset(-12), PitchClass::C);
    assert_eq!(PitchClass::from_offset(12), PitchClass::C);
    assert_eq!(PitchClass::from_offset(0), PitchClass::C);
}

#[test]
fn add_and_subtract_round_trip() {
    let classes = [
        PitchClass::C,
        PitchClass::CSharp,
        PitchClass::D,
        PitchClass::DSharp,
        PitchClass::E,
        PitchClass::F,
        PitchClass::FSharp,
        PitchClass::G,
        PitchClass::GSharp,
        PitchClass::A,
        PitchClass::ASharp,
        PitchClass::B,
    ];
    for p in classes {
        for k in [-25i64, -12, -7, -1, 0, 1, 5, 12, 31] {
            assert_eq!(p.add(k).add(-k), p);
        }
    }
}

#[test]
fn add_wraps_at_octave_boundaries() {
    assert_eq!(PitchClass::B.add(1), PitchClass::C);
    assert_eq!(PitchClass::C.add(-1), PitchClass::B);
    assert_eq!(PitchClass::E.add(12), PitchClass::E);
    assert_eq!(PitchClass::G.add(7), PitchClass::D);
}

#[test]
fn note_names_are_two_characters() {
    assert_eq!(note_to_string(PitchClass::C), " C");
    assert_eq!(note_to_string(PitchClass::CSharp), "C#");
    assert_eq!(note_to_string(PitchClass::E), " E");
    assert_eq!(note_to_string(PitchClass::ASharp), "A#");
    assert_eq!(note_to_string(PitchClass::B), " B");
}

#[test]
fn parses_note_names_and_enharmonic_spellings() {
    assert_eq!(PitchClass::from_name("C"), Some(PitchClass::C));
    assert_eq!(PitchClass::from_name("C#"), Some(PitchClass::CSharp));
    assert_eq!(PitchClass::from_name("Db"), Some(PitchClass::CSharp));
    assert_eq!(PitchClass::from_name("Gb"), Some(PitchClass::FSharp));
    assert_eq!(PitchClass::from_name(" E"), Some(PitchClass::E));
    assert_eq!(PitchClass::from_name("H"), None);
    assert_eq!(PitchClass::from_name(""), None);
    assert_eq!(PitchClass::from_name("C#"), PitchClass::from_name("Db"));
}
