use guitar_exercises::GuitarExerciseMode;
use guitar_exercises::GuitarExerciseRequest;
use guitar_exercises::PitchClass;
use guitar_exercises::hand::{Finger, FingerDigit, Hand, HandSide};
use guitar_exercises::pattern::GuitarExercisePattern;

#[test]
fn finger_names_map_to_their_digits() {
    let thumb = Finger::new("Thumb".to_string(), 5, 0);
    assert_eq!(thumb.digit, FingerDigit::Thumb);
    assert_eq!(thumb.strength, 5);
    assert_eq!(thumb.agility, 0);
    assert_eq!(thumb.fret, 0);
    assert!(!thumb.used);
    assert!(thumb.enabled);
    let ring = Finger::new("Ring".to_string(), 3, 3);
    assert_eq!(ring.digit, FingerDigit::Ring);
    // An unrecognised name falls back to the index finger.
    let other = Finger::new("Pinky".to_string(), 1, 1);
    assert_eq!(other.digit, FingerDigit::Index);
}

#[test]
fn default_hand_is_a_left_hand_of_four_fingers() {
    let hand = Hand::default();
    assert_eq!(hand.fingers.len(), 4);
    assert_eq!(hand.side, HandSide::Left);
    assert_eq!(hand.dexterity, 0);
    let digits: Vec<FingerDigit> = hand.fingers.iter().map(|f| f.digit).collect();
    assert_eq!(
        digits,
        vec![FingerDigit::Index, FingerDigit::Middle, FingerDigit::Ring, FingerDigit::Little]
    );
}

#[test]
fn with_thumb_puts_the_thumb_first() {
    let hand = Hand::default().with_thumb();
    assert_eq!(hand.fingers.len(), 5);
    assert_eq!(hand.fingers[0].digit, FingerDigit::Thumb);
    assert_eq!(hand.fingers[0].strength, 5);
    assert_eq!(hand.fingers[0].agility, 0);
    assert_eq!(hand.fingers[1].digit, FingerDigit::Index);
    assert_eq!(hand.fingers[4].digit, FingerDigit::Little);
}

#[test]
fn default_pattern_is_sequential() {
    let pattern = GuitarExercisePattern::default();
    assert_eq!(pattern.name, "Sequential");
    assert_eq!(pattern.difficulty, 0);
}

#[test]
fn random_pattern_is_the_only_pattern() {
    let pattern = GuitarExercisePattern::random();
    assert_eq!(pattern.name, "Sequential");
    assert_eq!(pattern.difficulty, 0);
}

#[test]
fn default_request_asks_for_c_major_over_the_cli() {
    let request = GuitarExerciseRequest::default();
    assert_eq!(request.mode, GuitarExerciseMode::Cli);
    assert_eq!(request.note, PitchClass::C);
    assert_eq!(request.scale.category, "Major");
    assert_eq!(request.scale.root, PitchClass::C);
    assert_eq!(request.pattern.name, "Sequential");
}

#[test]
fn default_mode_is_cli() {
    assert_eq!(GuitarExerciseMode::default(), GuitarExerciseMode::Cli);
}
