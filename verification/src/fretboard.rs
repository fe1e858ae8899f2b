use vstd::prelude::*;
use vstd::string::StringExecFns;
use crate::pitch::{PitchClass, note_name, lemma_add_add, lemma_offset_round_trip};
use crate::scale::ScaleCategory;

verus! {

/// The kinds of material a string can be made of.
#[derive(Clone, Copy, Debug, PartialEq, Eq, Structural)]
pub enum FlexibleMaterial {
    Steel,
    Nylon,
    Gut,
    Wound,
}

/// One instrument string: its material and gauge, the pitch class and
/// octave it sounds open, and one membership flag per fret against the
/// active scale.
#[derive(Debug)]
pub struct StringedElement {
    /// What the string is made of.
    pub material: FlexibleMaterial,
    /// The gauge of the string, in ten-thousandths of a millimetre
    /// (a 0.2540 mm string has gauge 2540).
    pub gauge: u32,
    /// The pitch class of the open string.
    pub note: PitchClass,
    /// The octave of the open string.
    pub octave: i32,
    /// The string can be disabled for jumping exercises, broken
    /// strings, and the like; nothing in this library consumes the
    /// flag yet, it is only stored.
    pub enabled: bool,
    /// One flag per fret: whether that fret's pitch class belongs to
    /// the active scale.
    pub frets: Vec<bool>,
    /// The number of frets of the instrument at this string.
    pub number_of_frets: usize,
}

/// The membership flags a string must carry once mapped: flag `i` says
/// whether the pitch `i` semitones above the open string belongs to
/// the scale whose member pitch classes are `notes`.
pub open spec fn mapped_frets(note: PitchClass, n: nat, notes: Seq<PitchClass>) -> Seq<bool> {
    Seq::new(n, |i: int| notes.contains(note.add_spec(i)))
}

impl StringedElement {
    /// All fields except the membership flags, which the mapping step
    /// rewrites, agree between `self` and `other`.
    pub open spec fn same_shape(self, other: StringedElement) -> bool {
        &&& self.material == other.material
        &&& self.gauge == other.gauge
        &&& self.note == other.note
        &&& self.octave == other.octave
        &&& self.enabled == other.enabled
        &&& self.number_of_frets == other.number_of_frets
    }

    /// The membership flags agree with `notes`: one flag per fret,
    /// each saying whether its pitch class is a member.
    pub open spec fn mapped_against(self, notes: Seq<PitchClass>) -> bool {
        self.frets@ == mapped_frets(self.note, self.number_of_frets as nat, notes)
    }

    /// A new steel string with 24 frets, enabled, not yet mapped.
    pub fn new_steel(gauge: u32, note: PitchClass, octave: i32) -> (r: StringedElement)
        ensures
            r.material == FlexibleMaterial::Steel,
            r.gauge == gauge,
            r.note == note,
            r.octave == octave,
            r.enabled,
            r.frets@ == Seq::<bool>::empty(),
            r.number_of_frets == 24,
    {
        StringedElement {
            material: FlexibleMaterial::Steel,
            gauge,
            note,
            octave,
            enabled: true,
            frets: Vec::new(),
            number_of_frets: 24,
        }
    }

    /// A new wound string with 24 frets, enabled, not yet mapped; some
    /// exercises may need special speed adjustment depending on the
    /// gauge.
    pub fn new_wound(gauge: u32, note: PitchClass, octave: i32) -> (r: StringedElement)
        ensures
            r.material == FlexibleMaterial::Wound,
            r.gauge == gauge,
            r.note == note,
            r.octave == octave,
            r.enabled,
            r.frets@ == Seq::<bool>::empty(),
            r.number_of_frets == 24,
    {
        StringedElement {
            material: FlexibleMaterial::Wound,
            gauge,
            note,
            octave,
            enabled: true,
            frets: Vec::new(),
            number_of_frets: 24,
        }
    }

    /// Recomputes the membership flags against `scale`: flag `i`
    /// becomes true exactly when the pitch class `i` semitones above
    /// the open string is a member. The flags are a pure function of
    /// open pitch, fret count and scale, so mapping twice with the
    /// same scale leaves them identical.
    pub fn map_to_scale(&mut self, scale: &ScaleCategory)
        ensures
            final(self).same_shape(*old(self)),
            final(self).mapped_against(scale.scale_notes@),
    {
        self.frets = frets_for(self.note, self.number_of_frets, scale);
    }

    /// One line of the diagram: the open-string note name, a colon,
    /// then one cell per fret, `X` for a scale member and `-`
    /// otherwise, each cell closed by `|`.
    pub fn render(&self) -> (r: String)
        ensures
            r@ == line_spec(*self),
    {
        let mut s = crate::note_to_string(self.note);
        s.append(": |");
        let mut i: usize = 0;
        while i < self.frets.len()
            invariant
                i <= self.frets@.len(),
                s@ == note_name(self.note) + ": |"@ + cells_spec(self.frets@.take(i as int)),
            decreases self.frets@.len() - i,
        {
            if self.frets[i] {
                s.append("X|");
            } else {
                s.append("-|");
            }
            proof {
                let taken = self.frets@.take(i as int + 1);
                assert(taken.drop_last() =~= self.frets@.take(i as int));
                assert(taken.last() == self.frets@[i as int]);
                assert(s@ =~= note_name(self.note) + ": |"@ + cells_spec(taken));
            }
            i += 1;
        }
        proof {
            assert(self.frets@.take(self.frets@.len() as int) =~= self.frets@);
        }
        s
    }
}

/// The membership flags for a string sounding `note` open with `n`
/// frets, against a scale: one flag per fret, walking the pitch up one
/// semitone per fret as the fretting hand would.
fn frets_for(note: PitchClass, n: usize, scale: &ScaleCategory) -> (r: Vec<bool>)
    ensures
        r@ == mapped_frets(note, n as nat, scale.scale_notes@),
{
    let mut frets: Vec<bool> = Vec::new();
    let mut current = note;
    proof {
        lemma_offset_round_trip(note);
    }
    let mut i: usize = 0;
    while i < n
        invariant
            i <= n,
            current == note.add_spec(i as int),
            frets@.len() == i,
            forall|j: int|
                0 <= j < i ==> frets@[j] == scale.scale_notes@.contains(note.add_spec(j)),
        decreases n - i,
    {
        frets.push(scale.contains(current));
        proof {
            lemma_add_add(note, i as int, 1);
        }
        current = current.add(1);
        i += 1;
    }
    proof {
        assert(frets@ =~= mapped_frets(note, n as nat, scale.scale_notes@));
    }
    frets
}

/// Remapping with the same scale is idempotent: a string mapped once
/// and a string mapped a second time against the same scale carry the
/// identical membership sequence, with no accumulation of cells.
pub proof fn lemma_map_to_scale_idempotent(
    before: StringedElement,
    once: StringedElement,
    twice: StringedElement,
    notes: Seq<PitchClass>,
)
    requires
        once.same_shape(before),
        once.mapped_against(notes),
        twice.same_shape(once),
        twice.mapped_against(notes),
    ensures
        twice.frets@ == once.frets@,
{
}

/// The cells of a rendered string line: `X|` for each fret whose pitch
/// class is a scale member, `-|` for each that is not, in fret order.
pub open spec fn cells_spec(frets: Seq<bool>) -> Seq<char>
    decreases frets.len(),
{
    if frets.len() == 0 {
        Seq::empty()
    } else {
        cells_spec(frets.drop_last()) + (if frets.last() {
            "X|"@
        } else {
            "-|"@
        })
    }
}

/// The full text of one string line: the note name, `: `, the opening
/// cell wall, then the cells.
pub open spec fn line_spec(e: StringedElement) -> Seq<char> {
    note_name(e.note) + ": |"@ + cells_spec(e.frets@)
}

/// The string `e` has this material, gauge, open pitch and octave, 24
/// frets, and is enabled.
pub open spec fn string_is(
    e: StringedElement,
    material: FlexibleMaterial,
    gauge: u32,
    note: PitchClass,
    octave: i32,
) -> bool {
    &&& e.material == material
    &&& e.gauge == gauge
    &&& e.note == note
    &&& e.octave == octave
    &&& e.number_of_frets == 24
    &&& e.enabled
}

/// The standard six-string tuning, top string first: steel E4, B3 and
/// G3, wound D3, A2 and E2, regular-light gauges, 24 frets each.
pub open spec fn standard_six_shape(strings: Seq<StringedElement>) -> bool {
    &&& strings.len() == 6
    &&& string_is(strings[0], FlexibleMaterial::Steel, 2540, PitchClass::E, 4)
    &&& string_is(strings[1], FlexibleMaterial::Steel, 3302, PitchClass::B, 3)
    &&& string_is(strings[2], FlexibleMaterial::Steel, 4318, PitchClass::G, 3)
    &&& string_is(strings[3], FlexibleMaterial::Wound, 6604, PitchClass::D, 3)
    &&& string_is(strings[4], FlexibleMaterial::Wound, 9144, PitchClass::A, 2)
    &&& string_is(strings[5], FlexibleMaterial::Wound, 11684, PitchClass::E, 2)
}

/// The standard seven-string tuning: the six-string tuning with a
/// wound B1 below it.
pub open spec fn standard_seven_shape(strings: Seq<StringedElement>) -> bool {
    &&& strings.len() == 7
    &&& standard_six_shape(strings.take(6))
    &&& string_is(strings[6], FlexibleMaterial::Wound, 14224, PitchClass::B, 1)
}

/// A fretboard: the strings in tuning order, top of the diagram first,
/// and the active scale they are mapped against.
#[derive(Debug)]
pub struct Fretboard {
    /// The strings, in display order.
    pub strings: Vec<StringedElement>,
    /// The active scale.
    pub scale: ScaleCategory,
}

impl Fretboard {
    /// Every string's membership flags agree with the active scale,
    /// and the scale itself is well formed. Constructors establish
    /// this eagerly and every operation preserves it, so a board with
    /// a new scale but stale flags can never be observed.
    pub open spec fn wf(self) -> bool {
        &&& self.scale.wf()
        &&& forall|i: int|
            0 <= i < self.strings@.len() ==> (#[trigger] self.strings@[i]).mapped_against(
                self.scale.scale_notes@,
            )
    }

    /// Enables the fret flags of every string against the active
    /// scale: each string's flags are recomputed from its open pitch,
    /// its fret count and the scale, nothing else of the string
    /// changes, and the scale stays as it was.
    pub fn set_scale_string_frets(&mut self)
        ensures
            final(self).scale == old(self).scale,
            final(self).strings@.len() == old(self).strings@.len(),
            forall|i: int|
                0 <= i < old(self).strings@.len() ==> (#[trigger] final(self).strings@[i]).same_shape(
                    old(self).strings@[i],
                ) && final(self).strings@[i].mapped_against(old(self).scale.scale_notes@),
            old(self).scale.wf() ==> final(self).wf(),
    {
        let n = self.strings.len();
        let mut i: usize = 0;
        while i < n
            invariant
                i <= n,
                n == self.strings@.len(),
                self.scale == old(self).scale,
                forall|j: int|
                    0 <= j < i ==> (#[trigger] self.strings@[j]).same_shape(old(self).strings@[j])
                        && self.strings@[j].mapped_against(self.scale.scale_notes@),
                forall|j: int| i <= j < n ==> self.strings@[j] == old(self).strings@[j],
            decreases n - i,
        {
            let material = self.strings[i].material;
            let gauge = self.strings[i].gauge;
            let note = self.strings[i].note;
            let octave = self.strings[i].octave;
            let enabled = self.strings[i].enabled;
            let number_of_frets = self.strings[i].number_of_frets;
            let frets = frets_for(note, number_of_frets, &self.scale);
            self.strings[i] = StringedElement {
                material,
                gauge,
                note,
                octave,
                enabled,
                frets,
                number_of_frets,
            };
            i += 1;
        }
    }

    /// Replaces the active scale and remaps every string in the same
    /// step, so callers never observe a new scale with stale flags.
    pub fn set_scale(&mut self, scale: ScaleCategory)
        ensures
            final(self).scale == scale,
            final(self).strings@.len() == old(self).strings@.len(),
            forall|i: int|
                0 <= i < old(self).strings@.len() ==> (#[trigger] final(self).strings@[i]).same_shape(
                    old(self).strings@[i],
                ) && final(self).strings@[i].mapped_against(scale.scale_notes@),
            scale.wf() ==> final(self).wf(),
    {
        self.scale = scale;
        self.set_scale_string_frets();
    }

    /// A standard seven-string guitar: the six-string default with a
    /// low wound B1 added, every string mapped against the default
    /// major scale on C.
    pub fn default_7() -> (r: Fretboard)
        ensures
            r.wf(),
            standard_seven_shape(r.strings@),
            r.scale.root == PitchClass::C,
            r.scale.category@ == "Major"@,
    {
        let mut guitar = Fretboard::default();
        guitar.strings.push(StringedElement::new_wound(14224, PitchClass::B, 1));
        guitar.set_scale_string_frets();
        proof {
            assert(standard_seven_shape(guitar.strings@)) by {
                assert(guitar.strings@.take(6) =~= guitar.strings@.subrange(0, 6));
            }
        }
        guitar
    }

    /// A board over a scale drawn through the caller's generator: a
    /// uniformly random pattern from the catalog, rooted at a
    /// uniformly random pitch class, mapped over the standard
    /// six-string tuning. Whatever the draws, the board is well
    /// formed and its scale's name stands in the catalog.
    pub fn random(rng: &mut rand::rngs::StdRng) -> (r: Fretboard)
        ensures
            r.wf(),
            standard_six_shape(r.strings@),
            exists|i: int|
                0 <= i < crate::catalog::catalog_names().len() && r.scale.category@
                    == #[trigger] crate::catalog::catalog_names()[i],
    {
        let mut guitar = Fretboard::default();
        let scale = ScaleCategory::random(rng);
        guitar.set_scale(scale);
        guitar
    }
}

/// The largest fret count among the strings, to which the rule lines
/// and every shorter string's line are sized.
pub open spec fn max_frets_of(strings: Seq<StringedElement>) -> nat
    decreases strings.len(),
{
    if strings.len() == 0 {
        0
    } else {
        let rest = max_frets_of(strings.drop_last());
        if strings.last().number_of_frets as nat > rest {
            strings.last().number_of_frets as nat
        } else {
            rest
        }
    }
}

/// The neutral filler cells that pad a string with fewer frets than
/// the longest string: one ` |` cell per missing fret.
pub open spec fn filler_spec(n: nat) -> Seq<char>
    decreases n,
{
    if n == 0 {
        Seq::empty()
    } else {
        filler_spec((n - 1) as nat) + " |"@
    }
}

/// How many filler cells the line of `e` needs when the longest
/// string has `m` frets.
pub open spec fn pad_of(e: StringedElement, m: nat) -> nat {
    if e.frets@.len() <= m {
        (m - e.frets@.len()) as nat
    } else {
        0
    }
}

/// The full line of one string in the board diagram: its own cells,
/// padded with neutral filler cells to the longest string, never
/// truncated.
pub open spec fn padded_line_spec(e: StringedElement, m: nat) -> Seq<char> {
    line_spec(e) + filler_spec(pad_of(e, m))
}

/// A header or footer rule sized to the longest string.
pub open spec fn rule_spec(m: nat) -> Seq<char> {
    "---|"@ + Seq::new(m, |i: int| '-')
}

/// The lines of the board diagram: one header rule, one line per
/// string in display order, one footer rule.
pub open spec fn board_lines_spec(b: Fretboard) -> Seq<Seq<char>> {
    let m = max_frets_of(b.strings@);
    seq![rule_spec(m)] + Seq::new(b.strings@.len() as nat, |i: int| padded_line_spec(b.strings@[i], m))
        + seq![rule_spec(m)]
}

/// The lines joined with single newlines, no trailing newline.
pub open spec fn join_lines(lines: Seq<Seq<char>>) -> Seq<char>
    decreases lines.len(),
{
    if lines.len() == 0 {
        Seq::empty()
    } else if lines.len() == 1 {
        lines[0]
    } else {
        join_lines(lines.drop_last()) + "\n"@ + lines.last()
    }
}

impl Fretboard {
    /// The largest fret count among the strings.
    pub fn max_frets(&self) -> (m: usize)
        ensures
            m as nat == max_frets_of(self.strings@),
    {
        let mut m: usize = 0;
        let mut i: usize = 0;
        while i < self.strings.len()
            invariant
                i <= self.strings@.len(),
                m as nat == max_frets_of(self.strings@.take(i as int)),
            decreases self.strings@.len() - i,
        {
            proof {
                assert(self.strings@.take(i as int + 1).drop_last() =~= self.strings@.take(
                    i as int,
                ));
            }
            if self.strings[i].number_of_frets > m {
                m = self.strings[i].number_of_frets;
            }
            i += 1;
        }
        proof {
            assert(self.strings@.take(self.strings@.len() as int) =~= self.strings@);
        }
        m
    }

    /// The lines of the diagram, in order: header rule, one line per
    /// string, footer rule.
    pub fn render_lines(&self) -> (r: Vec<String>)
        ensures
            r@.len() == board_lines_spec(*self).len(),
            r@.len() == self.strings@.len() + 2,
            forall|i: int| 0 <= i < r@.len() ==> #[trigger] r@[i]@ == board_lines_spec(*self)[i],
    {
        let m = self.max_frets();
        let mut lines: Vec<String> = Vec::new();
        lines.push(render_rule(m));
        let mut i: usize = 0;
        while i < self.strings.len()
            invariant
                i <= self.strings@.len(),
                m as nat == max_frets_of(self.strings@),
                lines@.len() == i + 1,
                lines@[0]@ == rule_spec(m as nat),
                forall|j: int|
                    0 <= j < i ==> #[trigger] lines@[j + 1]@ == padded_line_spec(
                        self.strings@[j],
                        m as nat,
                    ),
            decreases self.strings@.len() - i,
        {
            lines.push(render_padded_line(&self.strings[i], m));
            i += 1;
        }
        lines.push(render_rule(m));
        proof {
            let b = *self;
            let spec_lines = board_lines_spec(b);
            assert forall|i2: int| 0 <= i2 < lines@.len() implies #[trigger] lines@[i2]@
                == spec_lines[i2] by {
                if i2 == 0 {
                } else if i2 <= b.strings@.len() {
                    assert(lines@[(i2 - 1) + 1]@ == padded_line_spec(
                        b.strings@[i2 - 1],
                        max_frets_of(b.strings@),
                    ));
                } else {
                }
            }
        }
        lines
    }

    /// The whole diagram as one text: header rule, one line per
    /// string, footer rule, joined with newlines.
    pub fn render(&self) -> (r: String)
        ensures
            r@ == join_lines(board_lines_spec(*self)),
    {
        let lines = self.render_lines();
        let mut s = lines[0].clone();
        let mut i: usize = 1;
        while i < lines.len()
            invariant
                1 <= i <= lines@.len(),
                lines@.len() == board_lines_spec(*self).len(),
                forall|j: int|
                    0 <= j < lines@.len() ==> #[trigger] lines@[j]@ == board_lines_spec(*self)[j],
                s@ == join_lines(board_lines_spec(*self).take(i as int)),
            decreases lines@.len() - i,
        {
            s.append("\n");
            s.append(lines[i].as_str());
            proof {
                let all = board_lines_spec(*self);
                let taken = all.take(i as int + 1);
                assert(taken.drop_last() =~= all.take(i as int));
                assert(taken.last() == all[i as int]);
                assert(s@ =~= join_lines(taken));
            }
            i += 1;
        }
        proof {
            let all = board_lines_spec(*self);
            assert(all.take(all.len() as int) =~= all);
        }
        s
    }
}

/// A rule line of `m` dashes after its `---|` head.
fn render_rule(m: usize) -> (r: String)
    ensures
        r@ == rule_spec(m as nat),
{
    let mut s = String::from_str("---|");
    let mut i: usize = 0;
    while i < m
        invariant
            i <= m,
            s@ == "---|"@ + Seq::new(i as nat, |k: int| '-'),
        decreases m - i,
    {
        s.append("-");
        proof {
            reveal_strlit("-");
            assert(s@ =~= "---|"@ + Seq::new(i as nat + 1, |k: int| '-'));
        }
        i += 1;
    }
    s
}

/// One board line for `e`, padded with neutral cells to the longest
/// string's `m` frets.
fn render_padded_line(e: &StringedElement, m: usize) -> (r: String)
    ensures
        r@ == padded_line_spec(*e, m as nat),
{
    let mut s = e.render();
    let mut pad: usize = 0;
    let target: usize = if e.frets.len() <= m {
        m - e.frets.len()
    } else {
        0
    };
    proof {
        assert(target as nat == pad_of(*e, m as nat));
    }
    while pad < target
        invariant
            pad <= target,
            target as nat == pad_of(*e, m as nat),
            s@ == line_spec(*e) + filler_spec(pad as nat),
        decreases target - pad,
    {
        s.append(" |");
        proof {
            assert(s@ =~= line_spec(*e) + filler_spec(pad as nat + 1));
        }
        pad += 1;
    }
    s
}

/// How many times `c` occurs in `s`.
pub open spec fn count_char(s: Seq<char>, c: char) -> nat
    decreases s.len(),
{
    if s.len() == 0 {
        0
    } else {
        count_char(s.drop_last(), c) + (if s.last() == c {
            1nat
        } else {
            0nat
        })
    }
}

/// Occurrences in a concatenation are the occurrences in the parts.
proof fn lemma_count_char_concat(a: Seq<char>, b: Seq<char>, c: char)
    ensures
        count_char(a + b, c) == count_char(a, c) + count_char(b, c),
    decreases b.len(),
{
    if b.len() == 0 {
        assert(a + b =~= a);
    } else {
        lemma_count_char_concat(a, b.drop_last(), c);
        assert((a + b).drop_last() =~= a + b.drop_last());
        assert((a + b).last() == b.last());
    }
}

/// The count over a two-character sequence, written out.
proof fn lemma_count_char_pair(s: Seq<char>, c: char)
    requires
        s.len() == 2,
    ensures
        count_char(s, c) == (if s[0] == c {
            1nat
        } else {
            0nat
        }) + (if s[1] == c {
            1nat
        } else {
            0nat
        }),
{
    reveal_with_fuel(count_char, 4);
    assert(s.drop_last().len() == 1);
    assert(s.drop_last().last() == s[0]);
    assert(s.drop_last().drop_last().len() == 0);
    assert(s.last() == s[1]);
}

/// The count over a three-character sequence, written out.
proof fn lemma_count_char_three(s: Seq<char>, c: char)
    requires
        s.len() == 3,
    ensures
        count_char(s, c) == (if s[0] == c {
            1nat
        } else {
            0nat
        }) + (if s[1] == c {
            1nat
        } else {
            0nat
        }) + (if s[2] == c {
            1nat
        } else {
            0nat
        }),
{
    lemma_count_char_pair(s.drop_last(), c);
    assert(s.drop_last()[0] == s[0]);
    assert(s.drop_last()[1] == s[1]);
    assert(s.last() == s[2]);
}

/// Every fret contributes exactly one cell wall to its cells.
proof fn lemma_cells_count(frets: Seq<bool>)
    ensures
        count_char(cells_spec(frets), '|') == frets.len(),
    decreases frets.len(),
{
    reveal_strlit("X|");
    reveal_strlit("-|");
    if frets.len() == 0 {
    } else {
        lemma_cells_count(frets.drop_last());
        let cell = if frets.last() {
            "X|"@
        } else {
            "-|"@
        };
        lemma_count_char_pair(cell, '|');
        lemma_count_char_concat(cells_spec(frets.drop_last()), cell, '|');
    }
}

/// Every filler cell contributes exactly one cell wall.
proof fn lemma_filler_count(n: nat)
    ensures
        count_char(filler_spec(n), '|') == n,
    decreases n,
{
    reveal_strlit(" |");
    if n == 0 {
    } else {
        lemma_filler_count((n - 1) as nat);
        lemma_count_char_pair(" |"@, '|');
        lemma_count_char_concat(filler_spec((n - 1) as nat), " |"@, '|');
    }
}

/// A note name is two characters wide and holds no cell wall.
proof fn lemma_note_name_count(pc: PitchClass)
    ensures
        note_name(pc).len() == 2,
        count_char(note_name(pc), '|') == 0,
{
    reveal_strlit(" C");
    reveal_strlit("C#");
    reveal_strlit(" D");
    reveal_strlit("D#");
    reveal_strlit(" E");
    reveal_strlit(" F");
    reveal_strlit("F#");
    reveal_strlit(" G");
    reveal_strlit("G#");
    reveal_strlit(" A");
    reveal_strlit("A#");
    reveal_strlit(" B");
    lemma_count_char_pair(note_name(pc), '|');
}

/// The shape of the rendered diagram: the board emits one line per
/// string plus a header and a footer rule; and a string line whose
/// fret flags do not outrun the longest string carries one opening
/// wall and one cell wall per fret of the longest string — its own
/// cells first, neutral filler after. On a well-formed board every
/// string line therefore has exactly `max_frets_of` cells; when the
/// counts are uniform, that is each string's own fret count.
pub proof fn lemma_render_shape(b: Fretboard)
    ensures
        board_lines_spec(b).len() == b.strings@.len() + 2,
        forall|i: int|
            0 <= i < b.strings@.len() && (#[trigger] b.strings@[i]).frets@.len() <= max_frets_of(
                b.strings@,
            ) ==> count_char(board_lines_spec(b)[i + 1], '|') == 1 + max_frets_of(b.strings@),
{
    let m = max_frets_of(b.strings@);
    reveal_strlit(": |");
    assert forall|i: int|
        0 <= i < b.strings@.len() && (#[trigger] b.strings@[i]).frets@.len()
            <= m implies count_char(board_lines_spec(b)[i + 1], '|') == 1 + m by {
        let e = b.strings@[i];
        assert(board_lines_spec(b)[i + 1] == padded_line_spec(e, m));
        lemma_note_name_count(e.note);
        lemma_count_char_three(": |"@, '|');
        lemma_cells_count(e.frets@);
        lemma_filler_count(pad_of(e, m));
        lemma_count_char_concat(note_name(e.note), ": |"@, '|');
        lemma_count_char_concat(note_name(e.note) + ": |"@, cells_spec(e.frets@), '|');
        lemma_count_char_concat(line_spec(e), filler_spec(pad_of(e, m)), '|');
    }
}

/// On a well-formed board, the line of a string as long as the
/// longest carries exactly one cell per fret of its own: its cell
/// count equals its fret count. On a board whose strings all share
/// one fret count — the default tunings — this holds of every line.
pub proof fn lemma_uniform_board_cells(b: Fretboard, i: int)
    requires
        b.wf(),
        0 <= i < b.strings@.len(),
        b.strings@[i].number_of_frets as nat == max_frets_of(b.strings@),
    ensures
        count_char(board_lines_spec(b)[i + 1], '|') == 1 + b.strings@[i].frets@.len(),
{
    lemma_render_shape(b);
}

impl Default for Fretboard {
    /// A six-string standard-tuning guitar with 24 frets, regular
    /// light gauges, eagerly mapped against the default major scale on
    /// C, so the board is well formed from the start.
    fn default() -> (r: Fretboard)
        ensures
            r.wf(),
            standard_six_shape(r.strings@),
            r.scale.root == PitchClass::C,
            r.scale.category@ == "Major"@,
    {
        let mut strings: Vec<StringedElement> = Vec::new();
        strings.push(StringedElement::new_steel(2540, PitchClass::E, 4));
        strings.push(StringedElement::new_steel(3302, PitchClass::B, 3));
        strings.push(StringedElement::new_steel(4318, PitchClass::G, 3));
        strings.push(StringedElement::new_wound(6604, PitchClass::D, 3));
        strings.push(StringedElement::new_wound(9144, PitchClass::A, 2));
        strings.push(StringedElement::new_wound(11684, PitchClass::E, 2));
        let mut guitar = Fretboard { strings, scale: ScaleCategory::default() };
        guitar.set_scale_string_frets();
        guitar
    }
}

} // verus!
