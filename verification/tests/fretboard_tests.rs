use rand::SeedableRng;
use guitar_exercises::PitchClass;
use guitar_exercises::fretboard::{FlexibleMaterial, Fretboard, StringedElement};
use guitar_exercises::scale::ScaleCategory;

#[test]
fn default_board_has_six_standard_strings() {
    let board = Fretboard::default();
    assert_eq!(board.strings.len(), 6);
    let expected = [
        (PitchClass::E, 4),
        (PitchClass::B, 3),
        (PitchClass::G, 3),
        (PitchClass::D, 3),
        (PitchClass::A, 2),
        (PitchClass::E, 2),
    ];
    for (s, (note, octave)) in board.strings.iter().zip(expected) {
        assert_eq!(s.note, note);
        assert_eq!(s.octave, octave);
        assert_eq!(s.number_of_frets, 24);
        assert_eq!(s.frets.len(), 24);
        assert!(s.enabled);
    }
    assert_eq!(board.strings[0].material, FlexibleMaterial::Steel);
    assert_eq!(board.strings[5].material, FlexibleMaterial::Wound);
    assert_eq!(board.strings[0].gauge, 2540);
    assert_eq!(board.strings[5].gauge, 11684);
}

#[test]
fn seventh_string_is_a_low_wound_b() {
    let board = Fretboard::default_7();
    assert_eq!(board.strings.len(), 7);
    let low = &board.strings[6];
    assert_eq!(low.note, PitchClass::B);
    assert_eq!(low.octave, 1);
    assert_eq!(low.material, FlexibleMaterial::Wound);
    assert_eq!(low.gauge, 14224);
    assert_eq!(low.frets.len(), 24);
}

#[test]
fn e_string_membership_against_c_major() {
    // The default board carries the major scale rooted at C.
    let board = Fretboard::default();
    let e_string = &board.strings[0];
    assert_eq!(e_string.note, PitchClass::E);
    assert!(e_string.frets[0]); // open E is a member
    assert!(e_string.frets[1]); // fret 1 sounds F, a C-major member
    assert!(!e_string.frets[2]); // fret 2 sounds F#, not a member
    assert!(e_string.frets[3]); // fret 3 sounds G, a member
    assert!(!e_string.frets[4]); // fret 4 sounds G#, not a member
    assert!(e_string.frets[8]); // fret 8 sounds C, the root
}

#[test]
fn render_has_one_line_per_string_plus_rules() {
    let board = Fretboard::default();
    let text = board.render();
    let lines: Vec<&str> = text.split('\n').collect();
    assert_eq!(lines.len(), 6 + 2);
    // Header and footer rules: the cell wall of the rule head, then one
    // dash per fret of the longest string.
    let rule = format!("---|{}", "-".repeat(24));
    assert_eq!(lines[0], rule);
    assert_eq!(lines[7], rule);
    // Every string line carries one cell per fret, each closed by a
    // wall, after the opening wall.
    for line in &lines[1..7] {
        assert_eq!(line.matches('|').count(), 24 + 1);
    }
}

#[test]
fn rendered_e_string_line_is_exact() {
    let board = Fretboard::default();
    assert_eq!(
        board.strings[0].render(),
        " E: |X|X|-|X|-|X|-|X|X|-|X|-|X|X|-|X|-|X|-|X|X|-|X|-|"
    );
}

#[test]
fn mapping_twice_changes_nothing() {
    let mut board = Fretboard::default();
    let scale = board.scale.clone();
    let before: Vec<Vec<bool>> = board.strings.iter().map(|s| s.frets.clone()).collect();
    for s in board.strings.iter_mut() {
        s.map_to_scale(&scale);
    }
    let after: Vec<Vec<bool>> = board.strings.iter().map(|s| s.frets.clone()).collect();
    assert_eq!(before, after);
    for s in &board.strings {
        assert_eq!(s.frets.len(), 24);
    }
}

#[test]
fn set_scale_remaps_every_string() {
    let mut board = Fretboard::default();
    let a_minor = ScaleCategory::new(PitchClass::A, "minor").unwrap();
    board.set_scale(a_minor);
    assert_eq!(board.scale.category, "minor");
    // A natural minor holds the same classes as C major.
    let c_major_board = Fretboard::default();
    for (s, t) in board.strings.iter().zip(c_major_board.strings.iter()) {
        assert_eq!(s.frets, t.frets);
    }
}

#[test]
fn random_board_from_one_seed_renders_identically() {
    let mut a = rand::rngs::StdRng::seed_from_u64(42);
    let mut b = rand::rngs::StdRng::seed_from_u64(42);
    let board_a = Fretboard::random(&mut a);
    let board_b = Fretboard::random(&mut b);
    assert_eq!(board_a.render(), board_b.render());
}

#[test]
fn fresh_strings_are_unmapped_until_mapped() {
    let mut s = StringedElement::new_steel(2540, PitchClass::E, 4);
    assert_eq!(s.frets.len(), 0);
    assert_eq!(s.number_of_frets, 24);
    let scale = ScaleCategory::default();
    s.map_to_scale(&scale);
    assert_eq!(s.frets.len(), 24);
}

#[test]
fn render_lines_match_render() {
    let board = Fretboard::default_7();
    let lines = board.render_lines();
    assert_eq!(lines.len(), 7 + 2);
    let joined: Vec<String> = lines.iter().map(|l| l.clone()).collect();
    assert_eq!(board.render(), joined.join("\n"));
}
