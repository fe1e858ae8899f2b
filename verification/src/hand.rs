use vstd::prelude::*;
use vstd::string::StringExecFns;
use crate::text::str_eq;

verus! {

/// The finger types of the fretting hand.
#[derive(Clone, Copy, Debug, PartialEq, Eq, Structural)]
pub enum FingerDigit {
    Thumb,
    Index,
    Middle,
    Ring,
    Little,
}

/// The digit a finger name designates; any unrecognised name falls
/// back to the index finger.
pub open spec fn digit_of_name(name: Seq<char>) -> FingerDigit {
    if name == "Thumb"@ {
        FingerDigit::Thumb
    } else if name == "Index"@ {
        FingerDigit::Index
    } else if name == "Middle"@ {
        FingerDigit::Middle
    } else if name == "Ring"@ {
        FingerDigit::Ring
    } else if name == "Little"@ {
        FingerDigit::Little
    } else {
        FingerDigit::Index
    }
}

/// One finger: which digit it is, where it stands, and how strong,
/// agile and available it is.
#[derive(Clone, Copy, Debug)]
pub struct Finger {
    /// The type of finger.
    pub digit: FingerDigit,
    /// The fret the finger currently covers.
    pub fret: u8,
    /// 0 being weak, 8 being strong.
    pub strength: u8,
    /// 0 being slow, 8 being fast.
    pub agility: u8,
    /// A finger may be free or already busy.
    pub used: bool,
    /// The finger can be disabled for skipping exercises, broken, etc.
    pub enabled: bool,
}

impl Finger {
    /// A fresh finger of the digit `name` designates, at fret 0, free
    /// and enabled.
    pub fn new(name: String, strength: u8, agility: u8) -> (r: Finger)
        ensures
            r.digit == digit_of_name(name@),
            r.fret == 0,
            r.strength == strength,
            r.agility == agility,
            !r.used,
            r.enabled,
    {
        let digit = if str_eq(name.as_str(), "Thumb") {
            FingerDigit::Thumb
        } else if str_eq(name.as_str(), "Index") {
            FingerDigit::Index
        } else if str_eq(name.as_str(), "Middle") {
            FingerDigit::Middle
        } else if str_eq(name.as_str(), "Ring") {
            FingerDigit::Ring
        } else if str_eq(name.as_str(), "Little") {
            FingerDigit::Little
        } else {
            FingerDigit::Index
        };
        Finger { digit, fret: 0, strength, agility, used: false, enabled: true }
    }
}

/// Which hand is on the fretboard; other hands can join for tapping
/// or harmonics.
#[derive(Clone, Copy, Debug, PartialEq, Eq, Structural)]
pub enum HandSide {
    Right,
    Left,
}

/// A hand: its fingers in playing order, its side, and a dexterity
/// grade.
#[derive(Clone, Debug)]
pub struct Hand {
    /// The fingers available for fretting.
    pub fingers: Vec<Finger>,
    /// Which hand this is.
    pub side: HandSide,
    /// 0 is the least dexterous grade.
    pub dexterity: u8,
}

impl Default for Hand {
    /// The left-hand setup: index, middle, ring and little fingers
    /// with their customary strength and agility grades, no thumb.
    fn default() -> (r: Hand)
        ensures
            r.fingers@.len() == 4,
            r.fingers@[0].digit == FingerDigit::Index,
            r.fingers@[0].strength == 3 && r.fingers@[0].agility == 4,
            r.fingers@[1].digit == FingerDigit::Middle,
            r.fingers@[1].strength == 4 && r.fingers@[1].agility == 5,
            r.fingers@[2].digit == FingerDigit::Ring,
            r.fingers@[2].strength == 3 && r.fingers@[2].agility == 3,
            r.fingers@[3].digit == FingerDigit::Little,
            r.fingers@[3].strength == 2 && r.fingers@[3].agility == 2,
            r.side == HandSide::Left,
            r.dexterity == 0,
    {
        proof {
            lemma_finger_names_distinct();
        }
        let mut fingers: Vec<Finger> = Vec::new();
        fingers.push(Finger::new(String::from_str("Index"), 3u8, 4u8));
        fingers.push(Finger::new(String::from_str("Middle"), 4u8, 5u8));
        fingers.push(Finger::new(String::from_str("Ring"), 3u8, 3u8));
        fingers.push(Finger::new(String::from_str("Little"), 2u8, 2u8));
        Hand { fingers, dexterity: 0, side: HandSide::Left }
    }
}

/// Each finger name designates its own digit.
proof fn lemma_finger_names_distinct()
    ensures
        digit_of_name("Index"@) == FingerDigit::Index,
        digit_of_name("Middle"@) == FingerDigit::Middle,
        digit_of_name("Ring"@) == FingerDigit::Ring,
        digit_of_name("Little"@) == FingerDigit::Little,
        digit_of_name("Thumb"@) == FingerDigit::Thumb,
{
    reveal_strlit("Thumb");
    reveal_strlit("Index");
    reveal_strlit("Middle");
    reveal_strlit("Ring");
    reveal_strlit("Little");
    assert("Thumb"@.len() == 5 && "Index"@.len() == 5 && "Middle"@.len() == 6 && "Ring"@.len() == 4
        && "Little"@.len() == 6);
    assert("Index"@[0] == 'I' && "Thumb"@[0] == 'T');
    assert("Little"@[0] == 'L' && "Middle"@[0] == 'M');
}

impl Hand {
    /// The same hand with a thumb of maximum strength and minimum
    /// agility put before the other fingers.
    pub fn with_thumb(self) -> (r: Hand)
        ensures
            r.fingers@.len() == self.fingers@.len() + 1,
            r.fingers@[0].digit == FingerDigit::Thumb,
            r.fingers@[0].strength == 5 && r.fingers@[0].agility == 0,
            forall|i: int| 1 <= i < r.fingers@.len() ==> r.fingers@[i] == self.fingers@[i - 1],
            r.side == self.side,
            r.dexterity == self.dexterity,
    {
        proof {
            lemma_finger_names_distinct();
        }
        let mut fingers = self.fingers;
        fingers.insert(0, Finger::new(String::from_str("Thumb"), 5u8, 0u8));
        Hand { fingers, side: self.side, dexterity: self.dexterity }
    }
}

} // verus!
