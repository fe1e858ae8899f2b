use vstd::prelude::*;
use crate::text::{fold_seq, str_eq_fold};
use crate::ScaleError;

verus! {

/// The names of the interval patterns that the scale library offers,
/// in the order it lists them.
pub open spec fn catalog_names() -> Seq<Seq<char>> {
    seq![
        "major"@,
        "minor"@,
        "harmonicminor"@,
        "melodicminor"@,
        "dorian"@,
        "phrygian"@,
        "lydian"@,
        "locrian"@,
        "mixolydian"@,
        "overtone"@,
        "augmented"@,
        "wholetone"@,
        "pentatonic"@,
    ]
}

/// The semitone offsets from the root of each named pattern, row `i`
/// belonging to `catalog_names()[i]`: the cumulative sums of the
/// pattern's interval steps, starting at the root itself.
pub open spec fn catalog_offset_rows() -> Seq<Seq<int>> {
    seq![
        seq![0int, 2, 4, 5, 7, 9, 11, 12],
        seq![0int, 2, 3, 5, 7, 8, 10, 12],
        seq![0int, 2, 3, 5, 7, 8, 11, 12],
        seq![0int, 2, 3, 5, 7, 9, 11],
        seq![0int, 2, 3, 5, 7, 9, 10, 12],
        seq![0int, 1, 3, 5, 7, 8, 10, 12],
        seq![0int, 2, 4, 6, 7, 9, 11, 12],
        seq![0int, 1, 3, 5, 6, 8, 10, 12],
        seq![0int, 2, 4, 5, 7, 9, 10, 12],
        seq![0int, 2, 4, 6, 7, 9, 10],
        seq![0int, 1, 4, 5, 8, 9],
        seq![0int, 2, 4, 6, 8, 10, 12],
        seq![0int, 2, 4, 7, 9],
    ]
}

/// `name` designates catalog entry `i`, up to ASCII case.
pub open spec fn matches_name(name: Seq<char>, i: int) -> bool {
    fold_seq(name) == fold_seq(catalog_names()[i])
}

/// `name` designates some catalog entry, up to ASCII case.
pub open spec fn is_supported(name: Seq<char>) -> bool {
    exists|i: int| 0 <= i < catalog_names().len() && matches_name(name, i)
}

/// The byte offsets widened to mathematical integers.
pub open spec fn to_int_seq(s: Seq<u8>) -> Seq<int> {
    s.map_values(|x: u8| x as int)
}

/// Relies on chords::supported_scales: it returns the fixed list of
/// thirteen pattern names, in the order its source writes them.
#[verifier::external_body]
fn supported_scales_raw() -> (r: Vec<String>)
    ensures
        r@.len() == catalog_names().len(),
        forall|i: int| 0 <= i < r@.len() ==> r@[i]@ == catalog_names()[i],
{
    chords::supported_scales()
}

/// Relies on chords::scale::get_scale: for each supported name it
/// returns the fixed interval row of that name, as cumulative semitone
/// offsets beginning with 0 at the root.
#[verifier::external_body]
fn get_scale_raw(name: &str) -> (r: Vec<u8>)
    requires
        exists|i: int| 0 <= i < catalog_names().len() && name@ == catalog_names()[i],
    ensures
        forall|i: int|
            0 <= i < catalog_names().len() && name@ == catalog_names()[i]
                ==> to_int_seq(r@) == catalog_offset_rows()[i],
{
    chords::scale::get_scale(name)
}

/// The pattern names the catalog offers, in catalog order.
pub fn names() -> (r: Vec<String>)
    ensures
        r@.len() == catalog_names().len(),
        forall|i: int| 0 <= i < r@.len() ==> r@[i]@ == catalog_names()[i],
{
    supported_scales_raw()
}

/// Looks `name` up in the catalog, up to ASCII case, and returns its
/// semitone offsets from the root. Succeeds exactly on the supported
/// names; any other name is rejected with `UnknownScale`.
pub fn offsets(name: &str) -> (r: Result<Vec<u8>, ScaleError>)
    ensures
        match r {
            Ok(v) => {
                &&& is_supported(name@)
                &&& exists|i: int|
                    0 <= i < catalog_names().len() && matches_name(name@, i)
                        && to_int_seq(v@) == catalog_offset_rows()[i]
            },
            Err(e) => !is_supported(name@) && e == ScaleError::UnknownScale,
        },
{
    if str_eq_fold(name, "major") {
        let v = get_scale_raw("major");
        proof {
            assert(matches_name(name@, 0) && to_int_seq(v@) == catalog_offset_rows()[0]);
        }
        Ok(v)
    } else if str_eq_fold(name, "minor") {
        let v = get_scale_raw("minor");
        proof {
            assert(matches_name(name@, 1) && to_int_seq(v@) == catalog_offset_rows()[1]);
        }
        Ok(v)
    } else if str_eq_fold(name, "harmonicminor") {
        let v = get_scale_raw("harmonicminor");
        proof {
            assert(matches_name(name@, 2) && to_int_seq(v@) == catalog_offset_rows()[2]);
        }
        Ok(v)
    } else if str_eq_fold(name, "melodicminor") {
        let v = get_scale_raw("melodicminor");
        proof {
            assert(matches_name(name@, 3) && to_int_seq(v@) == catalog_offset_rows()[3]);
        }
        Ok(v)
    } else if str_eq_fold(name, "dorian") {
        let v = get_scale_raw("dorian");
        proof {
            assert(matches_name(name@, 4) && to_int_seq(v@) == catalog_offset_rows()[4]);
        }
        Ok(v)
    } else if str_eq_fold(name, "phrygian") {
        let v = get_scale_raw("phrygian");
        proof {
            assert(matches_name(name@, 5) && to_int_seq(v@) == catalog_offset_rows()[5]);
        }
        Ok(v)
    } else if str_eq_fold(name, "lydian") {
        let v = get_scale_raw("lydian");
        proof {
            assert(matches_name(name@, 6) && to_int_seq(v@) == catalog_offset_rows()[6]);
        }
        Ok(v)
    } else if str_eq_fold(name, "locrian") {
        let v = get_scale_raw("locrian");
        proof {
            assert(matches_name(name@, 7) && to_int_seq(v@) == catalog_offset_rows()[7]);
        }
        Ok(v)
    } else if str_eq_fold(name, "mixolydian") {
        let v = get_scale_raw("mixolydian");
        proof {
            assert(matches_name(name@, 8) && to_int_seq(v@) == catalog_offset_rows()[8]);
        }
        Ok(v)
    } else if str_eq_fold(name, "overtone") {
        let v = get_scale_raw("overtone");
        proof {
            assert(matches_name(name@, 9) && to_int_seq(v@) == catalog_offset_rows()[9]);
        }
        Ok(v)
    } else if str_eq_fold(name, "augmented") {
        let v = get_scale_raw("augmented");
        proof {
            assert(matches_name(name@, 10) && to_int_seq(v@) == catalog_offset_rows()[10]);
        }
        Ok(v)
    } else if str_eq_fold(name, "wholetone") {
        let v = get_scale_raw("wholetone");
        proof {
            assert(matches_name(name@, 11) && to_int_seq(v@) == catalog_offset_rows()[11]);
        }
        Ok(v)
    } else if str_eq_fold(name, "pentatonic") {
        let v = get_scale_raw("pentatonic");
        proof {
            assert(matches_name(name@, 12) && to_int_seq(v@) == catalog_offset_rows()[12]);
        }
        Ok(v)
    } else {
        proof {
            assert forall|i: int| 0 <= i < catalog_names().len() implies !matches_name(
                name@,
                i,
            ) by {
                if i == 0 {
                } else if i == 1 {
                } else if i == 2 {
                } else if i == 3 {
                } else if i == 4 {
                } else if i == 5 {
                } else if i == 6 {
                } else if i == 7 {
                } else if i == 8 {
                } else if i == 9 {
                } else if i == 10 {
                } else if i == 11 {
                } else {
                }
            }
        }
        Err(ScaleError::UnknownScale)
    }
}

/// Every pattern in the catalog begins at the root: each offset row is
/// non-empty and its first offset is 0, so a scale always contains the
/// root it was built on.
pub proof fn lemma_every_pattern_holds_root()
    ensures
        forall|i: int|
            0 <= i < catalog_offset_rows().len()
                ==> catalog_offset_rows()[i].len() > 0 && #[trigger] catalog_offset_rows()[i][0]
                == 0,
{
    assert forall|i: int|
        0 <= i < catalog_offset_rows().len() implies catalog_offset_rows()[i].len() > 0
        && #[trigger] catalog_offset_rows()[i][0] == 0 by {
        if i == 0 {
        } else if i == 1 {
        } else if i == 2 {
        } else if i == 3 {
        } else if i == 4 {
        } else if i == 5 {
        } else if i == 6 {
        } else if i == 7 {
        } else if i == 8 {
        } else if i == 9 {
        } else if i == 10 {
        } else if i == 11 {
        } else {
        }
    }
}

} // verus!
