use rand::SeedableRng;
use guitar_exercises::PitchClass;
use guitar_exercises::ScaleError;
use guitar_exercises::catalog;
use guitar_exercises::scale::ScaleCategory;

#[test]
fn catalog_lists_thirteen_patterns() {
    let names = catalog::names();
    assert_eq!(names.len(), 13);
    assert_eq!(names[0], "major");
    assert_eq!(names[1], "minor");
    assert_eq!(names[12], "pentatonic");
}

#[test]
fn catalog_major_offsets_follow_the_diatonic_formula() {
    let offs = catalog::offsets("major").unwrap();
    assert_eq!(offs, vec![0u8, 2, 4, 5, 7, 9, 11, 12]);
    let minor = catalog::offsets("minor").unwrap();
    assert_eq!(minor, vec![0u8, 2, 3, 5, 7, 8, 10, 12]);
}

#[test]
fn catalog_accepts_names_in_any_ascii_case() {
    assert_eq!(catalog::offsets("Major").unwrap(), catalog::offsets("major").unwrap());
    assert_eq!(catalog::offsets("MAJOR").unwrap(), catalog::offsets("major").unwrap());
}

#[test]
fn catalog_rejects_unknown_names() {
    assert_eq!(catalog::offsets("nosuchscale"), Err(ScaleError::UnknownScale));
    assert_eq!(catalog::offsets(""), Err(ScaleError::UnknownScale));
}

#[test]
fn c_major_members_are_the_seven_diatonic_classes() {
    let scale = ScaleCategory::new(PitchClass::C, "Major").unwrap();
    assert_eq!(
        scale.scale_notes,
        vec![
            PitchClass::C,
            PitchClass::D,
            PitchClass::E,
            PitchClass::F,
            PitchClass::G,
            PitchClass::A,
            PitchClass::B,
        ]
    );
    assert_eq!(scale.scale_notes.len(), 7);
    assert_eq!(scale.root, PitchClass::C);
    assert_eq!(scale.category, "Major");
}

#[test]
fn every_catalog_pattern_contains_its_root() {
    for name in catalog::names() {
        for off in 0i64..12 {
            let root = PitchClass::from_offset(off);
            let scale = ScaleCategory::new(root, name.as_str()).unwrap();
            assert!(scale.contains(root));
        }
    }
}

#[test]
fn unknown_scale_is_rejected() {
    let r = ScaleCategory::new(PitchClass::C, "bogus");
    assert!(r.is_err());
    match r {
        Err(e) => assert_eq!(e, ScaleError::UnknownScale),
        Ok(_) => unreachable!(),
    }
}

#[test]
fn duplicate_offsets_collapse_to_a_set() {
    // The octave offset 12 names the root again; members hold it once.
    for name in catalog::names() {
        let scale = ScaleCategory::new(PitchClass::E, name.as_str()).unwrap();
        for i in 0..scale.scale_notes.len() {
            for j in (i + 1)..scale.scale_notes.len() {
                assert_ne!(scale.scale_notes[i], scale.scale_notes[j]);
            }
        }
    }
}

#[test]
fn membership_is_exactly_the_offset_classes() {
    let scale = ScaleCategory::new(PitchClass::C, "major").unwrap();
    assert!(scale.contains(PitchClass::F));
    assert!(scale.contains(PitchClass::B));
    assert!(!scale.contains(PitchClass::CSharp));
    assert!(!scale.contains(PitchClass::FSharp));
    assert!(!scale.contains(PitchClass::GSharp));
}

#[test]
fn default_scale_is_major_on_c() {
    let scale = ScaleCategory::default();
    assert_eq!(scale.category, "Major");
    assert_eq!(scale.root, PitchClass::C);
    assert_eq!(scale.scale_notes.len(), 7);
    assert!(scale.contains(PitchClass::C));
}

#[test]
fn scale_description_names_pattern_and_members() {
    let scale = ScaleCategory::new(PitchClass::C, "pentatonic").unwrap();
    // Offsets 0, 2, 4, 7, 9 from C: C, D, E, G, A.
    assert_eq!(scale.render(), "(pentatonic, C D E G A)");
}

#[test]
fn random_scale_is_deterministic_for_a_seed() {
    let mut a = rand::rngs::StdRng::seed_from_u64(7);
    let mut b = rand::rngs::StdRng::seed_from_u64(7);
    let sa = ScaleCategory::random(&mut a);
    let sb = ScaleCategory::random(&mut b);
    assert_eq!(sa.category, sb.category);
    assert_eq!(sa.root, sb.root);
    assert_eq!(sa.scale_notes, sb.scale_notes);
}

#[test]
fn every_catalog_row_is_the_cumulative_interval_sum() {
    let expected: [(&str, &[u8]); 13] = [
        ("major", &[0, 2, 4, 5, 7, 9, 11, 12]),
        ("minor", &[0, 2, 3, 5, 7, 8, 10, 12]),
        ("harmonicminor", &[0, 2, 3, 5, 7, 8, 11, 12]),
        ("melodicminor", &[0, 2, 3, 5, 7, 9, 11]),
        ("dorian", &[0, 2, 3, 5, 7, 9, 10, 12]),
        ("phrygian", &[0, 1, 3, 5, 7, 8, 10, 12]),
        ("lydian", &[0, 2, 4, 6, 7, 9, 11, 12]),
        ("locrian", &[0, 1, 3, 5, 6, 8, 10, 12]),
        ("mixolydian", &[0, 2, 4, 5, 7, 9, 10, 12]),
        ("overtone", &[0, 2, 4, 6, 7, 9, 10]),
        ("augmented", &[0, 1, 4, 5, 8, 9]),
        ("wholetone", &[0, 2, 4, 6, 8, 10, 12]),
        ("pentatonic", &[0, 2, 4, 7, 9]),
    ];
    let names = catalog::names();
    for (i, (name, offs)) in expected.iter().enumerate() {
        assert_eq!(&names[i], name);
        assert_eq!(catalog::offsets(name).unwrap(), offs.to_vec());
    }
}
