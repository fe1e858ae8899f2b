use vstd::prelude::*;
use vstd::string::StringExecFns;
use crate::pitch::PitchClass;
use crate::catalog::{
    catalog_names, catalog_offset_rows, is_supported, matches_name, to_int_seq,
    lemma_every_pattern_holds_root,
};
use crate::ScaleError;

verus! {

/// The member pitch classes of a scale rooted at `root` with semitone
/// offsets `offs`, in ascending-degree order with duplicates collapsed:
/// each offset contributes `root` moved by that many semitones, kept
/// only at its first occurrence.
pub open spec fn scale_note_seq(root: PitchClass, offs: Seq<int>) -> Seq<PitchClass>
    decreases offs.len(),
{
    if offs.len() == 0 {
        Seq::empty()
    } else {
        let prefix = scale_note_seq(root, offs.drop_last());
        let pc = root.add_spec(offs.last());
        if prefix.contains(pc) {
            prefix
        } else {
            prefix.push(pc)
        }
    }
}

/// The note of every offset of the pattern stands in the member
/// sequence.
pub proof fn lemma_scale_note_seq_contains(root: PitchClass, offs: Seq<int>, j: int)
    requires
        0 <= j < offs.len(),
    ensures
        scale_note_seq(root, offs).contains(root.add_spec(offs[j])),
    decreases offs.len(),
{
    let pc = root.add_spec(offs[j]);
    let prefix = scale_note_seq(root, offs.drop_last());
    let full = scale_note_seq(root, offs);
    if j == offs.len() - 1 {
        if prefix.contains(pc) {
        } else {
            assert(full == prefix.push(pc));
            assert(full[prefix.len() as int] == pc);
        }
    } else {
        lemma_scale_note_seq_contains(root, offs.drop_last(), j);
        assert(offs.drop_last()[j] == offs[j]);
        if full == prefix {
        } else {
            let k = choose|k: int| 0 <= k < prefix.len() && prefix[k] == pc;
            assert(full[k] == pc);
        }
    }
}

/// The member sequence holds exactly the pitch classes that some
/// offset of the pattern reaches from the root: the sequence is the
/// set `{ root + offset : offset in pattern }` written out in order.
pub proof fn lemma_scale_note_seq_members(root: PitchClass, offs: Seq<int>)
    ensures
        forall|pc: PitchClass|
            #[trigger] scale_note_seq(root, offs).contains(pc) <==> (exists|j: int|
                0 <= j < offs.len() && pc == root.add_spec(#[trigger] offs[j])),
    decreases offs.len(),
{
    if offs.len() == 0 {
    } else {
        lemma_scale_note_seq_members(root, offs.drop_last());
        let prefix = scale_note_seq(root, offs.drop_last());
        let full = scale_note_seq(root, offs);
        let last_pc = root.add_spec(offs.last());
        assert forall|pc: PitchClass| #[trigger] full.contains(pc) implies (exists|j: int|
            0 <= j < offs.len() && pc == root.add_spec(#[trigger] offs[j])) by {
            if prefix.contains(pc) {
                let j = choose|j: int|
                    0 <= j < offs.drop_last().len() && pc == root.add_spec(
                        #[trigger] offs.drop_last()[j],
                    );
                assert(offs.drop_last()[j] == offs[j]);
                assert(pc == root.add_spec(offs[j]));
            } else {
                assert(full == prefix.push(last_pc));
                let k = choose|k: int| 0 <= k < full.len() && full[k] == pc;
                assert(pc == last_pc);
                assert(pc == root.add_spec(offs[offs.len() - 1]));
            }
        }
        assert forall|pc: PitchClass|
            (exists|j: int|
                0 <= j < offs.len() && pc == root.add_spec(
                    #[trigger] offs[j],
                )) implies #[trigger] full.contains(pc) by {
            let j = choose|j: int| 0 <= j < offs.len() && pc == root.add_spec(#[trigger] offs[j]);
            lemma_scale_note_seq_contains(root, offs, j);
        }
    }
}

/// Whether the sequence `notes` holds `pitch`, by linear scan.
pub fn notes_contain(notes: &Vec<PitchClass>, pitch: PitchClass) -> (r: bool)
    ensures
        r == notes@.contains(pitch),
{
    let mut k: usize = 0;
    while k < notes.len()
        invariant
            k <= notes@.len(),
            forall|j: int| 0 <= j < k ==> notes@[j] != pitch,
        decreases notes@.len() - k,
    {
        if notes[k] == pitch {
            return true;
        }
        k += 1;
    }
    false
}

/// A named interval pattern bound to a concrete root: the scale's
/// member pitch classes are computed eagerly from the catalog row of
/// `category` and never mutated independently of root and pattern.
#[derive(Debug, Clone)]
pub struct ScaleCategory {
    /// The pattern name this scale was built from.
    pub category: String,
    /// The member pitch classes, in ascending-degree order, duplicates
    /// collapsed.
    pub scale_notes: Vec<PitchClass>,
    /// The root the pattern offsets are measured from.
    pub root: PitchClass,
}

impl ScaleCategory {
    /// The scale's members are exactly those its name and root demand:
    /// the name designates a catalog row, and the member sequence is
    /// that row's notes from the root.
    pub open spec fn wf(self) -> bool {
        exists|i: int|
            0 <= i < catalog_names().len() && #[trigger] matches_name(self.category@, i)
                && self.scale_notes@ == scale_note_seq(self.root, catalog_offset_rows()[i])
    }

    /// Builds the scale of `category` rooted at `root`. Succeeds exactly
    /// when the catalog knows the name (up to ASCII case); any other
    /// name is rejected with `UnknownScale`. On success the member
    /// pitch classes are computed eagerly, and the root is always among
    /// them, since every pattern starts at offset 0.
    pub fn new(root: PitchClass, category: &str) -> (r: Result<ScaleCategory, ScaleError>)
        ensures
            match r {
                Ok(s) => {
                    &&& is_supported(category@)
                    &&& s.root == root
                    &&& s.category@ == category@
                    &&& s.wf()
                    &&& s.scale_notes@.contains(root)
                },
                Err(e) => !is_supported(category@) && e == ScaleError::UnknownScale,
            },
    {
        match crate::catalog::offsets(category) {
            Err(e) => Err(e),
            Ok(v) => {
                let ghost row = choose|i: int|
                    0 <= i < catalog_names().len() && matches_name(category@, i) && to_int_seq(v@)
                        == catalog_offset_rows()[i];
                let mut notes: Vec<PitchClass> = Vec::new();
                let mut k: usize = 0;
                while k < v.len()
                    invariant
                        k <= v@.len(),
                        notes@ == scale_note_seq(root, to_int_seq(v@).take(k as int)),
                    decreases v@.len() - k,
                {
                    let pc = root.add(v[k] as i64);
                    proof {
                        let taken = to_int_seq(v@).take(k as int + 1);
                        assert(taken.drop_last() =~= to_int_seq(v@).take(k as int));
                        assert(taken.last() == v@[k as int] as int);
                    }
                    if !notes_contain(&notes, pc) {
                        notes.push(pc);
                    }
                    k += 1;
                }
                let result = ScaleCategory {
                    category: String::from_str(category),
                    scale_notes: notes,
                    root,
                };
                proof {
                    assert(to_int_seq(v@).take(v@.len() as int) =~= to_int_seq(v@));
                    lemma_every_pattern_holds_root();
                    lemma_scale_note_seq_contains(root, catalog_offset_rows()[row], 0);
                    crate::pitch::lemma_offset_round_trip(root);
                    assert(root.add_spec(0) == root);
                    assert(catalog_offset_rows()[row][0] == 0);
                    assert(result.scale_notes@.contains(root));
                    assert(result.category@ == category@);
                    assert(matches_name(result.category@, row));
                    assert(result.scale_notes@ == scale_note_seq(root, catalog_offset_rows()[row]));
                    assert(result.wf());
                }
                Ok(result)
            },
        }
    }

    /// Membership test: whether `pitch` belongs to this scale. This is
    /// the one operation the fretboard mapper depends on.
    pub fn contains(&self, pitch: PitchClass) -> (r: bool)
        ensures
            r == self.scale_notes@.contains(pitch),
    {
        notes_contain(&self.scale_notes, pitch)
    }

    /// Draws a uniformly random pattern name from the catalog and a
    /// uniformly random root from the twelve pitch classes, through the
    /// caller's generator. Whatever the draws, the result is a
    /// well-formed scale whose name stands in the catalog.
    pub fn random(rng: &mut rand::rngs::StdRng) -> (r: ScaleCategory)
        ensures
            r.wf(),
            r.scale_notes@.contains(r.root),
            exists|i: int|
                0 <= i < catalog_names().len() && r.category@ == #[trigger] catalog_names()[i],
    {
        let names = crate::catalog::names();
        let pick = crate::rng::draw_below(rng, names.len());
        let root_offset = crate::rng::draw_below(rng, 12);
        let root = PitchClass::from_offset(root_offset as i64);
        let name: &String = &names[pick];
        proof {
            assert(matches_name(name@, pick as int));
        }
        match Self::new(root, name.as_str()) {
            Ok(s) => s,
            Err(_) => unreached(),
        }
    }
}

/// The member names written one after the other, in ascending-degree
/// order; each name is two characters wide and self-delimiting.
pub open spec fn notes_text(notes: Seq<PitchClass>) -> Seq<char>
    decreases notes.len(),
{
    if notes.len() == 0 {
        Seq::empty()
    } else {
        notes_text(notes.drop_last()) + crate::pitch::note_name(notes.last())
    }
}

/// The description of a scale: its pattern name and its member notes,
/// in parentheses.
pub open spec fn scale_text(s: ScaleCategory) -> Seq<char> {
    "("@ + s.category@ + ","@ + notes_text(s.scale_notes@) + ")"@
}

impl ScaleCategory {
    /// One line describing this scale: the pattern name and the member
    /// notes, in parentheses.
    pub fn render(&self) -> (r: String)
        ensures
            r@ == scale_text(*self),
    {
        let mut s = String::from_str("(");
        s.append(self.category.as_str());
        s.append(",");
        let mut i: usize = 0;
        while i < self.scale_notes.len()
            invariant
                i <= self.scale_notes@.len(),
                s@ == "("@ + self.category@ + ","@ + notes_text(self.scale_notes@.take(i as int)),
            decreases self.scale_notes@.len() - i,
        {
            let name = crate::note_to_string(self.scale_notes[i]);
            s.append(name.as_str());
            proof {
                let taken = self.scale_notes@.take(i as int + 1);
                assert(taken.drop_last() =~= self.scale_notes@.take(i as int));
                assert(taken.last() == self.scale_notes@[i as int]);
                assert(s@ =~= "("@ + self.category@ + ","@ + notes_text(taken));
            }
            i += 1;
        }
        s.append(")");
        proof {
            assert(self.scale_notes@.take(self.scale_notes@.len() as int) =~= self.scale_notes@);
            assert(s@ =~= scale_text(*self));
        }
        s
    }
}

/// Every well-formed scale contains its own root: each catalog pattern
/// holds offset 0, so the root's own pitch class is always a member.
pub proof fn lemma_scale_contains_root(s: ScaleCategory)
    requires
        s.wf(),
    ensures
        s.scale_notes@.contains(s.root),
{
    let i = choose|i: int|
        0 <= i < catalog_names().len() && #[trigger] matches_name(s.category@, i)
            && s.scale_notes@ == scale_note_seq(s.root, catalog_offset_rows()[i]);
    lemma_every_pattern_holds_root();
    lemma_scale_note_seq_contains(s.root, catalog_offset_rows()[i], 0);
    crate::pitch::lemma_offset_round_trip(s.root);
}

impl Default for ScaleCategory {
    /// The default scale of this library: the major pattern rooted at
    /// C, with its members computed eagerly, so that a default board is
    /// mapped from the start.
    fn default() -> (r: ScaleCategory)
        ensures
            r.wf(),
            r.root == PitchClass::C,
            r.category@ == "Major"@,
            r.scale_notes@.contains(PitchClass::C),
    {
        proof {
            lemma_major_name_supported();
        }
        match ScaleCategory::new(PitchClass::C, "Major") {
            Ok(s) => s,
            Err(_) => unreached(),
        }
    }
}

/// The display spelling "Major" designates the catalog's first row, up
/// to ASCII case.
pub proof fn lemma_major_name_supported()
    ensures
        matches_name("Major"@, 0),
        is_supported("Major"@),
{
    reveal_strlit("Major");
    reveal_strlit("major");
    assert(crate::text::fold_seq("Major"@) =~= crate::text::fold_seq("major"@));
    assert(0 <= 0 < catalog_names().len() && matches_name("Major"@, 0));
}

} // verus!
