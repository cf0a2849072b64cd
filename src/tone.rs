use vstd::prelude::*;

use crate::chord::ChordType;
use crate::key::KeyType;

verus! {

/// A named harmonic distance: a chromatic part and a diatonic (letter) part.
#[derive(Debug, Clone, Copy, PartialEq, Eq, Structural)]
pub enum Interval {
    PerfectUnison,
    MinorSecond,
    MajorSecond,
    MinorThird,
    MajorThird,
    PerfectFourth,
    AugmentedFourth,
    DiminishedFifth,
    PerfectFifth,
    MinorSixth,
    MajorSixth,
    MinorSeventh,
    MajorSeventh,
}

impl Interval {
    /// Chromatic distance in semitones (0..=11).
    pub open spec fn semitones(self) -> int {
        match self {
            Interval::PerfectUnison => 0,
            Interval::MinorSecond => 1,
            Interval::MajorSecond => 2,
            Interval::MinorThird => 3,
            Interval::MajorThird => 4,
            Interval::PerfectFourth => 5,
            Interval::AugmentedFourth => 6,
            Interval::DiminishedFifth => 6,
            Interval::PerfectFifth => 7,
            Interval::MinorSixth => 8,
            Interval::MajorSixth => 9,
            Interval::MinorSeventh => 10,
            Interval::MajorSeventh => 11,
        }
    }

    /// Diatonic distance in letter steps (0..=6).
    pub open spec fn steps(self) -> int {
        match self {
            Interval::PerfectUnison => 0,
            Interval::MinorSecond | Interval::MajorSecond => 1,
            Interval::MinorThird | Interval::MajorThird => 2,
            Interval::PerfectFourth | Interval::AugmentedFourth => 3,
            Interval::DiminishedFifth | Interval::PerfectFifth => 4,
            Interval::MinorSixth | Interval::MajorSixth => 5,
            Interval::MinorSeventh | Interval::MajorSeventh => 6,
        }
    }

    pub fn key_diff(&self) -> (r: i8)
        ensures
            r as int == self.semitones(),
    {
        match self {
            Interval::PerfectUnison => 0,
            Interval::MinorSecond => 1,
            Interval::MajorSecond => 2,
            Interval::MinorThird => 3,
            Interval::MajorThird => 4,
            Interval::PerfectFourth => 5,
            Interval::AugmentedFourth => 6,
            Interval::DiminishedFifth => 6,
            Interval::PerfectFifth => 7,
            Interval::MinorSixth => 8,
            Interval::MajorSixth => 9,
            Interval::MinorSeventh => 10,
            Interval::MajorSeventh => 11,
        }
    }

    pub fn tone_diff(&self) -> (r: i8)
        ensures
            r as int == self.steps(),
    {
        match self {
            Interval::PerfectUnison => 0,
            Interval::MinorSecond => 1,
            Interval::MajorSecond => 1,
            Interval::MinorThird => 2,
            Interval::MajorThird => 2,
            Interval::PerfectFourth => 3,
            Interval::AugmentedFourth => 3,
            Interval::DiminishedFifth => 4,
            Interval::PerfectFifth => 4,
            Interval::MinorSixth => 5,
            Interval::MajorSixth => 5,
            Interval::MinorSeventh => 6,
            Interval::MajorSeventh => 6,
        }
    }

    /// The mode whose key signature spells the lower note of this interval.
    pub open spec fn spelling_mode(self) -> KeyType {
        match self {
            Interval::PerfectUnison | Interval::MajorSecond | Interval::MajorThird
            | Interval::PerfectFourth | Interval::PerfectFifth | Interval::MajorSixth
            | Interval::MajorSeventh => KeyType::Ionian,
            Interval::MinorSecond | Interval::MinorSixth => KeyType::Phrygian,
            Interval::MinorThird | Interval::MinorSeventh => KeyType::Dorian,
            Interval::AugmentedFourth => KeyType::Lydian,
            Interval::DiminishedFifth => KeyType::Locrian,
        }
    }

    pub fn name(&self) -> (r: &'static str) {
        match self {
            Interval::PerfectUnison => "PerfectUnison",
            Interval::MinorSecond => "MinorSecond",
            Interval::MajorSecond => "MajorSecond",
            Interval::MinorThird => "MinorThird",
            Interval::MajorThird => "MajorThird",
            Interval::PerfectFourth => "PerfectFourth",
            Interval::AugmentedFourth => "AugmentedFourth",
            Interval::DiminishedFifth => "DiminishedFifth",
            Interval::PerfectFifth => "PerfectFifth",
            Interval::MinorSixth => "MinorSixth",
            Interval::MajorSixth => "MajorSixth",
            Interval::MinorSeventh => "MinorSeventh",
            Interval::MajorSeventh => "MajorSeventh",
        }
    }
}

/// One of the seven natural letter names.
#[derive(Debug, Clone, Copy, PartialEq, Eq, Structural)]
pub enum NeutralTone {
    C,
    D,
    E,
    F,
    G,
    A,
    B,
}

/// The letter at position `p` (0 is C) of the cycle C D E F G A B.
pub open spec fn letter_at(p: int) -> NeutralTone {
    if p == 0 {
        NeutralTone::C
    } else if p == 1 {
        NeutralTone::D
    } else if p == 2 {
        NeutralTone::E
    } else if p == 3 {
        NeutralTone::F
    } else if p == 4 {
        NeutralTone::G
    } else if p == 5 {
        NeutralTone::A
    } else {
        NeutralTone::B
    }
}

impl NeutralTone {
    /// Position of the letter in the cycle C D E F G A B (0..=6).
    pub open spec fn pos(self) -> int {
        match self {
            NeutralTone::C => 0,
            NeutralTone::D => 1,
            NeutralTone::E => 2,
            NeutralTone::F => 3,
            NeutralTone::G => 4,
            NeutralTone::A => 5,
            NeutralTone::B => 6,
        }
    }

    /// Chromatic position of the unaltered letter (C is 1, B is 12).
    pub open spec fn natural_pitch(self) -> int {
        match self {
            NeutralTone::C => 1,
            NeutralTone::D => 3,
            NeutralTone::E => 5,
            NeutralTone::F => 6,
            NeutralTone::G => 8,
            NeutralTone::A => 10,
            NeutralTone::B => 12,
        }
    }

    /// The seven letters, starting from this one.
    pub fn derived_vec(&self) -> (r: Vec<NeutralTone>)
        ensures
            r@.len() == 7,
            forall|j: int| 0 <= j < 7 ==> #[trigger] r@[j] == letter_at((self.pos() + j) % 7),
    {
        match self {
            NeutralTone::C => vec![NeutralTone::C, NeutralTone::D, NeutralTone::E, NeutralTone::F, NeutralTone::G, NeutralTone::A, NeutralTone::B],
            NeutralTone::D => vec![NeutralTone::D, NeutralTone::E, NeutralTone::F, NeutralTone::G, NeutralTone::A, NeutralTone::B, NeutralTone::C],
            NeutralTone::E => vec![NeutralTone::E, NeutralTone::F, NeutralTone::G, NeutralTone::A, NeutralTone::B, NeutralTone::C, NeutralTone::D],
            NeutralTone::F => vec![NeutralTone::F, NeutralTone::G, NeutralTone::A, NeutralTone::B, NeutralTone::C, NeutralTone::D, NeutralTone::E],
            NeutralTone::G => vec![NeutralTone::G, NeutralTone::A, NeutralTone::B, NeutralTone::C, NeutralTone::D, NeutralTone::E, NeutralTone::F],
            NeutralTone::A => vec![NeutralTone::A, NeutralTone::B, NeutralTone::C, NeutralTone::D, NeutralTone::E, NeutralTone::F, NeutralTone::G],
            NeutralTone::B => vec![NeutralTone::B, NeutralTone::C, NeutralTone::D, NeutralTone::E, NeutralTone::F, NeutralTone::G, NeutralTone::A],
        }
    }

    /// The letter `interval.steps()` letters above this one.
    pub fn add_interval(&self, interval: &Interval) -> (r: NeutralTone)
        ensures
            r == letter_at((self.pos() + interval.steps()) % 7),
    {
        let v = self.derived_vec();
        v[interval.tone_diff() as usize]
    }

    /// The letter `interval.steps()` letters below this one.
    pub fn minus_interval(&self, interval: &Interval) -> (r: NeutralTone)
        ensures
            r == letter_at((self.pos() - interval.steps()) % 7),
    {
        let v = self.derived_vec();
        let diff = interval.tone_diff();
        if diff == 0 {
            v[0]
        } else {
            v[v.len() - diff as usize]
        }
    }

    pub fn name(&self) -> (r: &'static str) {
        match self {
            NeutralTone::C => "C",
            NeutralTone::D => "D",
            NeutralTone::E => "E",
            NeutralTone::F => "F",
            NeutralTone::G => "G",
            NeutralTone::A => "A",
            NeutralTone::B => "B",
        }
    }
}

/// The accidental of a spelling.
#[derive(Debug, Clone, Copy, PartialEq, Eq, Structural)]
pub enum ToneVariant {
    Flat,
    Neutral,
    Sharp,
}

impl ToneVariant {
    /// Semitone offset of the accidental.
    pub open spec fn shift(self) -> int {
        match self {
            ToneVariant::Flat => -1,
            ToneVariant::Neutral => 0,
            ToneVariant::Sharp => 1,
        }
    }

    pub fn symbol(&self) -> (r: &'static str) {
        match self {
            ToneVariant::Flat => "b",
            ToneVariant::Neutral => "",
            ToneVariant::Sharp => "#",
        }
    }
}

/// The chromatic position of `n` in the cycle 1..=12, where 12 stands for 0.
pub open spec fn wrap12(n: int) -> int {
    (n - 1) % 12 + 1
}

/// Chromatic position (1..=12, C is 1) of a letter with an accidental.
pub open spec fn pitch_of(l: NeutralTone, v: ToneVariant) -> int {
    wrap12(l.natural_pitch() + v.shift())
}

/// The accidental that spells chromatic position `p` with letter `l`, if one exists.
pub open spec fn spelling(l: NeutralTone, p: int) -> Option<ToneVariant> {
    if pitch_of(l, ToneVariant::Neutral) == p {
        Some(ToneVariant::Neutral)
    } else if pitch_of(l, ToneVariant::Flat) == p {
        Some(ToneVariant::Flat)
    } else if pitch_of(l, ToneVariant::Sharp) == p {
        Some(ToneVariant::Sharp)
    } else {
        None
    }
}

/// A pitch: a chromatic position (1..=12, C is 1) and the spelling that displays it.
#[derive(Debug, Clone, Copy, PartialEq, Eq, Structural)]
pub struct Tone {
    pub idx: i8,
    pub tone: NeutralTone,
    pub variant: ToneVariant,
}

/// The pitch spelled by letter `l` and accidental `v`.
pub open spec fn spelled(l: NeutralTone, v: ToneVariant) -> Tone {
    Tone { idx: pitch_of(l, v) as i8, tone: l, variant: v }
}

/// The pitch at position `p` spelled with letter `l`, if one accidental can do it.
#[verifier::opaque]
pub open spec fn spelled_at(l: NeutralTone, p: int) -> Option<Tone> {
    match spelling(l, p) {
        Some(v) => Some(Tone { idx: p as i8, tone: l, variant: v }),
        None => None,
    }
}

/// `t` moved up by `steps` letters and `semis` semitones.
pub open spec fn moved(t: Tone, steps: int, semis: int) -> Option<Tone> {
    spelled_at(letter_at((t.tone.pos() + steps) % 7), wrap12(t.idx + semis))
}

/// `t` moved up by `i`: the letter moves by the interval's steps, the position by its
/// semitones; `None` where no single accidental spells the result.
pub open spec fn transposed(t: Tone, i: Interval) -> Option<Tone> {
    moved(t, i.steps(), i.semitones())
}

/// `t` moved down by `i`, spelled as in `transposed`.
pub open spec fn lowered(t: Tone, i: Interval) -> Option<Tone> {
    spelled_at(letter_at((t.tone.pos() - i.steps()) % 7), wrap12(t.idx - i.semitones()))
}

impl Tone {
    /// The stored position agrees with the spelling.
    pub open spec fn wf(self) -> bool {
        self.idx as int == pitch_of(self.tone, self.variant)
    }

    pub fn new(tone: NeutralTone, variant: ToneVariant) -> (r: Tone)
        ensures
            r == spelled(tone, variant),
            r.wf(),
    {
        let idx = Self::tone_idx(&tone, &variant);
        Tone { idx, tone, variant }
    }

    /// Chromatic position of a spelling.
    pub fn tone_idx(tone: &NeutralTone, variant: &ToneVariant) -> (r: i8)
        ensures
            r as int == pitch_of(*tone, *variant),
            1 <= r <= 12,
    {
        match tone {
            NeutralTone::C => match variant {
                ToneVariant::Flat => 12,
                ToneVariant::Neutral => 1,
                ToneVariant::Sharp => 2,
            },
            NeutralTone::D => match variant {
                ToneVariant::Flat => 2,
                ToneVariant::Neutral => 3,
                ToneVariant::Sharp => 4,
            },
            NeutralTone::E => match variant {
                ToneVariant::Flat => 4,
                ToneVariant::Neutral => 5,
                ToneVariant::Sharp => 6,
            },
            NeutralTone::F => match variant {
                ToneVariant::Flat => 5,
                ToneVariant::Neutral => 6,
                ToneVariant::Sharp => 7,
            },
            NeutralTone::G => match variant {
                ToneVariant::Flat => 7,
                ToneVariant::Neutral => 8,
                ToneVariant::Sharp => 9,
            },
            NeutralTone::A => match variant {
                ToneVariant::Flat => 9,
                ToneVariant::Neutral => 10,
                ToneVariant::Sharp => 11,
            },
            NeutralTone::B => match variant {
                ToneVariant::Flat => 11,
                ToneVariant::Neutral => 12,
                ToneVariant::Sharp => 1,
            },
        }
    }

    /// The pitch `interval` above this one, spelled with the letter `interval.steps()` above.
    pub fn add_interval(&self, interval: Interval) -> (r: Tone)
        requires
            self.wf(),
            transposed(*self, interval) is Some,
        ensures
            transposed(*self, interval) == Some(r),
            r.wf(),
    {
        match self.checked_add_interval(interval) {
            Some(t) => t,
            None => {
                assert(false);
                *self
            },
        }
    }

    /// The pitch `interval` below this one, spelled with the letter `interval.steps()` below.
    pub fn minus_interval(&self, interval: Interval) -> (r: Tone)
        requires
            self.wf(),
            lowered(*self, interval) is Some,
        ensures
            lowered(*self, interval) == Some(r),
            r.wf(),
    {
        let mut idx: i8 = self.idx - interval.key_diff();
        if idx <= 0 {
            idx += 12;
        }
        proof {
            lemma_wrap12(self.idx - interval.semitones());
        }
        let target = self.tone.minus_interval(&interval);
        let matches = gen_tones(idx);
        match Self::find_letter(&matches, target, idx) {
            Some(t) => t,
            None => {
                assert(false);
                *self
            },
        }
    }

    /// The first candidate of `cands` spelled with letter `target`, if there is one.
    fn find_letter(cands: &Vec<Tone>, target: NeutralTone, p: i8) -> (r: Option<Tone>)
        requires
            lists_spellings(cands@, p as int),
        ensures
            r == spelled_at(target, p as int),
            r matches Some(t) ==> t.wf(),
    {
        let mut j: usize = 0;
        while j < cands.len()
            invariant
                lists_spellings(cands@, p as int),
                forall|k: int| 0 <= k < j ==> cands@[k].tone != target,
            decreases cands.len() - j,
        {
            if cands[j].tone == target {
                proof {
                    reveal(spelled_at);
                    lemma_spelling_unique(target, cands@[j as int].variant);
                }
                return Some(cands[j]);
            }
            j += 1;
        }
        proof {
            reveal(spelled_at);
            if spelling(target, p as int) is Some {
                let want = Tone { idx: p, tone: target, variant: spelling(target, p as int)->0 };
                assert(want.wf());
                assert(cands@[0] == want || cands@[cands@.len() - 1] == want);
            }
        }
        None
    }

    /// The pitch `interval` above this one, or `None` where no accidental spells it.
    pub fn checked_add_interval(&self, interval: Interval) -> (r: Option<Tone>)
        requires
            self.wf(),
        ensures
            r == transposed(*self, interval),
            r matches Some(t) ==> t.wf(),
    {
        let mut idx: i8 = (self.idx + interval.key_diff()) % 12;
        if idx == 0 {
            idx = 12;
        }
        proof {
            lemma_wrap12(self.idx + interval.semitones());
        }
        let target = self.tone.add_interval(&interval);
        let matches = gen_tones(idx);
        let r = Self::find_letter(&matches, target, idx);
        proof {
            assert(target == letter_at((self.tone.pos() + interval.steps()) % 7));
            assert(idx as int == wrap12(self.idx + interval.semitones()));
            assert(transposed(*self, interval) == spelled_at(target, idx as int));
        }
        r
    }

    /// `t` itself where `table` holds it, else the first entry of `table` at its position.
    fn pick_spelling(table: &Vec<Tone>, t: Tone) -> (r: Tone)
        requires
            t.wf(),
            covers_pitches(table@),
        ensures
            respells_in(r, t, table@),
            r == respelled(t, table@),
    {
        let mut j: usize = 0;
        while j < table.len()
            invariant
                t.wf(),
                covers_pitches(table@),
                forall|k: int| 0 <= k < j ==> table@[k] != t,
            decreases table.len() - j,
        {
            if table[j] == t {
                assert(table@.contains(table@[j as int]));
                proof {
                    lemma_respelled(t, t, table@);
                }
                return t;
            }
            j += 1;
        }
        let mut j: usize = 0;
        while j < table.len()
            invariant
                t.wf(),
                covers_pitches(table@),
                forall|k: int| 0 <= k < table.len() ==> table@[k] != t,
                forall|k: int| 0 <= k < j ==> table@[k].idx != t.idx,
            decreases table.len() - j,
        {
            if table[j].idx == t.idx {
                assert(table@.contains(table@[j as int]));
                proof {
                    lemma_respelled(table@[j as int], t, table@);
                }
                return table[j];
            }
            j += 1;
        }
        assert(has_pitch(table@, t.idx as int));
        assert(false);
        t
    }

    /// The spelling of this pitch in the key signature of mode `key_type`.
    pub fn rematch_key(self, key_type: &KeyType) -> (r: Tone)
        requires
            self.wf(),
        ensures
            respells_in(r, self, key_table(*key_type)),
            r == respelled(self, key_table(*key_type)),
    {
        let tonics = key_tonics(key_type);
        proof {
            lemma_key_table_covers(*key_type);
        }
        Self::pick_spelling(&tonics, self)
    }

    /// The spelling of this pitch as the lower note of `interval`.
    pub fn rematch_interval(self, interval: &Interval) -> (r: Tone)
        requires
            self.wf(),
        ensures
            respells_in(r, self, key_table(interval.spelling_mode())),
            r == respelled(self, key_table(interval.spelling_mode())),
    {
        let key_type = match interval {
            Interval::PerfectUnison | Interval::MajorSecond | Interval::MajorThird
            | Interval::PerfectFourth | Interval::PerfectFifth | Interval::MajorSixth
            | Interval::MajorSeventh => KeyType::Ionian,
            Interval::MinorSecond | Interval::MinorSixth => KeyType::Phrygian,
            Interval::MinorThird | Interval::MinorSeventh => KeyType::Dorian,
            Interval::AugmentedFourth => KeyType::Lydian,
            Interval::DiminishedFifth => KeyType::Locrian,
        };
        self.rematch_key(&key_type)
    }

    /// The conventional spelling of this pitch in a diminished seventh chord.
    pub fn rematch_diminished(self) -> (r: Tone)
        requires
            self.wf(),
        ensures
            respells_in(r, self, diminished_table()),
            r == respelled(self, diminished_table()),
    {
        let tonics = diminished_spellings();
        proof {
            lemma_diminished_table_covers();
        }
        Self::pick_spelling(&tonics, self)
    }

    /// The spelling of this pitch as the root of a chord of quality `chord_type`.
    pub fn rematch_chord(self, chord_type: &ChordType) -> (r: Tone)
        requires
            self.wf(),
        ensures
            respells_in(r, self, key_table(chord_type.spelling_mode())),
            r == respelled(self, key_table(chord_type.spelling_mode())),
    {
        let key_type = match chord_type {
            ChordType::Major7 => KeyType::Ionian,
            ChordType::Minor7 => KeyType::Dorian,
            ChordType::Dominant7 => KeyType::Mixolydian,
            ChordType::HalfDiminished7 => KeyType::Locrian,
            ChordType::Diminished7 => KeyType::Ionian,
        };
        self.rematch_key(&key_type)
    }
}

/// `s` lists one or two well-formed pitches at position `p` with different letters, and
/// every spelling of `p` with at most one accidental is its first or its last entry.
pub open spec fn lists_spellings(s: Seq<Tone>, p: int) -> bool {
    &&& 1 <= s.len() <= 2
    &&& s.len() == 2 ==> s[0].tone != s[1].tone
    &&& forall|j: int| 0 <= j < s.len() ==> (#[trigger] s[j]).wf() && s[j].idx == p
    &&& forall|t: Tone| #[trigger] t.wf() && t.idx == p ==> s[0] == t || s[s.len() - 1] == t
}

/// A letter spells a position with at most one accidental.
pub proof fn lemma_spelling_unique(l: NeutralTone, v: ToneVariant)
    ensures
        spelling(l, pitch_of(l, v)) == Some(v),
{
}

/// A transposition that can be spelled gives a well-formed pitch at the moved position.
pub proof fn lemma_transposed_wf(t: Tone, i: Interval)
    requires
        transposed(t, i) is Some,
    ensures
        transposed(t, i)->0.wf(),
        transposed(t, i)->0.idx as int == wrap12(t.idx + i.semitones()),
{
    reveal(spelled_at);
}

/// A spelled transposition moves the pitch class by the interval's semitones.
pub proof fn lemma_transposed_class(t: Tone, i: Interval)
    requires
        t.wf(),
        transposed(t, i) is Some,
    ensures
        transposed(t, i)->0.idx as int % 12 == (t.idx + i.semitones()) % 12,
{
    lemma_transposed_wf(t, i);
    assert(1 <= t.idx <= 12);
    lemma_wrap12(t.idx + i.semitones());
}

/// Two moves in a row are one move by the summed steps and semitones.
pub proof fn lemma_moved_compose(t: Tone, s1: int, n1: int, s2: int, n2: int)
    requires
        t.wf(),
        0 <= s1,
        0 <= s2,
        0 <= n1,
        0 <= n2,
        moved(t, s1, n1) is Some,
    ensures
        moved(moved(t, s1, n1)->0, s2, n2) == moved(t, s1 + s2, n1 + n2),
{
    reveal(spelled_at);
    let u = moved(t, s1, n1)->0;
    let p = (t.tone.pos() + s1) % 7;
    assert(u.tone == letter_at(p));
    assert(u.tone.pos() == p);
    assert((u.tone.pos() + s2) % 7 == (t.tone.pos() + s1 + s2) % 7) by (nonlinear_arith)
        requires
            u.tone.pos() == (t.tone.pos() + s1) % 7,
    ;
    let q = wrap12(t.idx + n1);
    assert(1 <= q <= 12);
    assert(u.idx as int == q);
    assert(wrap12(u.idx + n2) == wrap12(t.idx + n1 + n2)) by (nonlinear_arith)
        requires
            u.idx == (t.idx + n1 - 1) % 12 + 1,
    ;
}

/// Moving by a whole octave more changes nothing.
pub proof fn lemma_moved_octave(t: Tone, s: int, n: int)
    ensures
        moved(t, s + 7, n + 12) == moved(t, s, n),
{
    assert((t.tone.pos() + s + 7) % 7 == (t.tone.pos() + s) % 7) by (nonlinear_arith);
    assert(wrap12(t.idx + n + 12) == wrap12(t.idx + n)) by (nonlinear_arith);
}

/// `wrap12` on the range that one step of transposition reaches.
pub proof fn lemma_wrap12(n: int)
    requires
        -11 <= n <= 23,
    ensures
        wrap12(n) == if n <= 0 {
            n + 12
        } else if n <= 12 {
            n
        } else {
            n - 12
        },
{
    if n <= 0 {
        assert((n - 1) % 12 == n + 11);
    } else if n <= 12 {
        assert((n - 1) % 12 == n - 1);
    } else {
        assert((n - 1) % 12 == n - 13);
    }
}

/// The spellings of each position, one letter and accidental at a time.
pub proof fn lemma_spellings_of(t: Tone)
    requires
        t.wf(),
    ensures
        t.idx == 1 ==> t == spelled(NeutralTone::B, ToneVariant::Sharp) || t == spelled(NeutralTone::C, ToneVariant::Neutral),
        t.idx == 2 ==> t == spelled(NeutralTone::C, ToneVariant::Sharp) || t == spelled(NeutralTone::D, ToneVariant::Flat),
        t.idx == 3 ==> t == spelled(NeutralTone::D, ToneVariant::Neutral),
        t.idx == 4 ==> t == spelled(NeutralTone::D, ToneVariant::Sharp) || t == spelled(NeutralTone::E, ToneVariant::Flat),
        t.idx == 5 ==> t == spelled(NeutralTone::E, ToneVariant::Neutral) || t == spelled(NeutralTone::F, ToneVariant::Flat),
        t.idx == 6 ==> t == spelled(NeutralTone::E, ToneVariant::Sharp) || t == spelled(NeutralTone::F, ToneVariant::Neutral),
        t.idx == 7 ==> t == spelled(NeutralTone::F, ToneVariant::Sharp) || t == spelled(NeutralTone::G, ToneVariant::Flat),
        t.idx == 8 ==> t == spelled(NeutralTone::G, ToneVariant::Neutral),
        t.idx == 9 ==> t == spelled(NeutralTone::G, ToneVariant::Sharp) || t == spelled(NeutralTone::A, ToneVariant::Flat),
        t.idx == 10 ==> t == spelled(NeutralTone::A, ToneVariant::Neutral),
        t.idx == 11 ==> t == spelled(NeutralTone::A, ToneVariant::Sharp) || t == spelled(NeutralTone::B, ToneVariant::Flat),
        t.idx == 12 ==> t == spelled(NeutralTone::B, ToneVariant::Neutral) || t == spelled(NeutralTone::C, ToneVariant::Flat),
{
    match t.tone {
        NeutralTone::C => {},
        NeutralTone::D => {},
        NeutralTone::E => {},
        NeutralTone::F => {},
        NeutralTone::G => {},
        NeutralTone::A => {},
        NeutralTone::B => {},
    }
}

/// Every spelling with at most one accidental of chromatic position `idx`.
pub fn gen_tones(idx: i8) -> (r: Vec<Tone>)
    requires
        1 <= idx <= 12,
    ensures
        lists_spellings(r@, idx as int),
{
    let r = if idx == 1 {
        vec![Tone { idx: 1, tone: NeutralTone::B, variant: ToneVariant::Sharp }, Tone { idx: 1, tone: NeutralTone::C, variant: ToneVariant::Neutral }]
    } else if idx == 2 {
        vec![Tone { idx: 2, tone: NeutralTone::C, variant: ToneVariant::Sharp }, Tone { idx: 2, tone: NeutralTone::D, variant: ToneVariant::Flat }]
    } else if idx == 3 {
        vec![Tone { idx: 3, tone: NeutralTone::D, variant: ToneVariant::Neutral }]
    } else if idx == 4 {
        vec![Tone { idx: 4, tone: NeutralTone::D, variant: ToneVariant::Sharp }, Tone { idx: 4, tone: NeutralTone::E, variant: ToneVariant::Flat }]
    } else if idx == 5 {
        vec![Tone { idx: 5, tone: NeutralTone::E, variant: ToneVariant::Neutral }, Tone { idx: 5, tone: NeutralTone::F, variant: ToneVariant::Flat }]
    } else if idx == 6 {
        vec![Tone { idx: 6, tone: NeutralTone::E, variant: ToneVariant::Sharp }, Tone { idx: 6, tone: NeutralTone::F, variant: ToneVariant::Neutral }]
    } else if idx == 7 {
        vec![Tone { idx: 7, tone: NeutralTone::F, variant: ToneVariant::Sharp }, Tone { idx: 7, tone: NeutralTone::G, variant: ToneVariant::Flat }]
    } else if idx == 8 {
        vec![Tone { idx: 8, tone: NeutralTone::G, variant: ToneVariant::Neutral }]
    } else if idx == 9 {
        vec![Tone { idx: 9, tone: NeutralTone::G, variant: ToneVariant::Sharp }, Tone { idx: 9, tone: NeutralTone::A, variant: ToneVariant::Flat }]
    } else if idx == 10 {
        vec![Tone { idx: 10, tone: NeutralTone::A, variant: ToneVariant::Neutral }]
    } else if idx == 11 {
        vec![Tone { idx: 11, tone: NeutralTone::A, variant: ToneVariant::Sharp }, Tone { idx: 11, tone: NeutralTone::B, variant: ToneVariant::Flat }]
    } else {
        vec![Tone { idx: 12, tone: NeutralTone::B, variant: ToneVariant::Neutral }, Tone { idx: 12, tone: NeutralTone::C, variant: ToneVariant::Flat }]
    };
    assert forall|t: Tone| #[trigger] t.wf() && t.idx == idx implies r@[0] == t || r@[r@.len() - 1] == t by {
        lemma_spellings_of(t);
    }
    r
}

/// The thirteen tonics of the circle of key signatures, from C upwards.
pub open spec fn circle() -> Seq<Tone> {
    seq![
        spelled(NeutralTone::C, ToneVariant::Neutral),
        spelled(NeutralTone::D, ToneVariant::Flat),
        spelled(NeutralTone::D, ToneVariant::Neutral),
        spelled(NeutralTone::E, ToneVariant::Flat),
        spelled(NeutralTone::E, ToneVariant::Neutral),
        spelled(NeutralTone::F, ToneVariant::Neutral),
        spelled(NeutralTone::F, ToneVariant::Sharp),
        spelled(NeutralTone::G, ToneVariant::Flat),
        spelled(NeutralTone::G, ToneVariant::Neutral),
        spelled(NeutralTone::A, ToneVariant::Flat),
        spelled(NeutralTone::A, ToneVariant::Neutral),
        spelled(NeutralTone::B, ToneVariant::Flat),
        spelled(NeutralTone::B, ToneVariant::Neutral),
    ]
}

/// The conventional spellings of the tonics of mode `kt`: the tonics of the circle moved
/// up by the mode's tonic interval.
#[verifier::opaque]
pub open spec fn key_table(kt: KeyType) -> Seq<Tone> {
    circle().map_values(|t: Tone| transposed(t, kt.tonic_interval())->0)
}

/// The conventional spelling of each position in a diminished seventh chord.
pub open spec fn diminished_table() -> Seq<Tone> {
    seq![
        spelled(NeutralTone::C, ToneVariant::Neutral),
        spelled(NeutralTone::C, ToneVariant::Sharp),
        spelled(NeutralTone::D, ToneVariant::Neutral),
        spelled(NeutralTone::D, ToneVariant::Sharp),
        spelled(NeutralTone::E, ToneVariant::Neutral),
        spelled(NeutralTone::F, ToneVariant::Neutral),
        spelled(NeutralTone::F, ToneVariant::Sharp),
        spelled(NeutralTone::G, ToneVariant::Neutral),
        spelled(NeutralTone::G, ToneVariant::Sharp),
        spelled(NeutralTone::A, ToneVariant::Neutral),
        spelled(NeutralTone::B, ToneVariant::Flat),
        spelled(NeutralTone::B, ToneVariant::Neutral),
    ]
}

/// `r` respells `t` within `table`: the same position, an entry of the table, and `t`
/// itself where the table holds it.
pub open spec fn respells_in(r: Tone, t: Tone, table: Seq<Tone>) -> bool {
    &&& r.wf()
    &&& r.idx == t.idx
    &&& table.contains(r)
    &&& table.contains(t) ==> r == t
}

/// The spelling of `t` within `table` (see `respells_in`).
pub open spec fn respelled(t: Tone, table: Seq<Tone>) -> Tone {
    choose|r: Tone| respells_in(r, t, table)
}

/// Some entry of `s` stands at position `p`.
pub open spec fn has_pitch(s: Seq<Tone>, p: int) -> bool {
    exists|j: int| 0 <= j < s.len() && s[j].idx == p
}

/// Every entry of `s` is well formed, and every position is spelled by one.
pub open spec fn covers_pitches(s: Seq<Tone>) -> bool {
    &&& forall|j: int| 0 <= j < s.len() ==> (#[trigger] s[j]).wf()
    &&& forall|p: int| 1 <= p <= 12 ==> #[trigger] has_pitch(s, p)
}

fn circle_of_tonics() -> (r: Vec<Tone>)
    ensures
        r@ == circle(),
{
    let r = vec![
        Tone::new(NeutralTone::C, ToneVariant::Neutral),
        Tone::new(NeutralTone::D, ToneVariant::Flat),
        Tone::new(NeutralTone::D, ToneVariant::Neutral),
        Tone::new(NeutralTone::E, ToneVariant::Flat),
        Tone::new(NeutralTone::E, ToneVariant::Neutral),
        Tone::new(NeutralTone::F, ToneVariant::Neutral),
        Tone::new(NeutralTone::F, ToneVariant::Sharp),
        Tone::new(NeutralTone::G, ToneVariant::Flat),
        Tone::new(NeutralTone::G, ToneVariant::Neutral),
        Tone::new(NeutralTone::A, ToneVariant::Flat),
        Tone::new(NeutralTone::A, ToneVariant::Neutral),
        Tone::new(NeutralTone::B, ToneVariant::Flat),
        Tone::new(NeutralTone::B, ToneVariant::Neutral),
    ];
    assert(r@ =~= circle());
    r
}

/// The tonics of mode `kt`: each tonic of the circle moved up by the mode's tonic interval.
pub fn key_tonics(kt: &KeyType) -> (r: Vec<Tone>)
    ensures
        r@ == key_table(*kt),
{
    let tonics = circle_of_tonics();
    let interval = kt.tonic_offset();
    let mut r: Vec<Tone> = Vec::new();
    let mut j: usize = 0;
    while j < tonics.len()
        invariant
            tonics@ == circle(),
            interval == kt.tonic_interval(),
            j <= tonics@.len(),
            r@.len() == j,
            forall|k: int| 0 <= k < j ==> r@[k] == transposed(#[trigger] circle()[k], interval)->0,
        decreases tonics@.len() - j,
    {
        proof {
            crate::key::lemma_circle_wf();
            crate::key::lemma_circle_entry_steps(*kt, j as int);
        }
        r.push(tonics[j].add_interval(interval));
        j += 1;
    }
    proof {
        reveal(key_table);
        assert(r@ =~= key_table(*kt));
    }
    r
}

fn diminished_spellings() -> (r: Vec<Tone>)
    ensures
        r@ == diminished_table(),
{
    let r = vec![
        Tone::new(NeutralTone::C, ToneVariant::Neutral),
        Tone::new(NeutralTone::C, ToneVariant::Sharp),
        Tone::new(NeutralTone::D, ToneVariant::Neutral),
        Tone::new(NeutralTone::D, ToneVariant::Sharp),
        Tone::new(NeutralTone::E, ToneVariant::Neutral),
        Tone::new(NeutralTone::F, ToneVariant::Neutral),
        Tone::new(NeutralTone::F, ToneVariant::Sharp),
        Tone::new(NeutralTone::G, ToneVariant::Neutral),
        Tone::new(NeutralTone::G, ToneVariant::Sharp),
        Tone::new(NeutralTone::A, ToneVariant::Neutral),
        Tone::new(NeutralTone::B, ToneVariant::Flat),
        Tone::new(NeutralTone::B, ToneVariant::Neutral),
    ];
    assert(r@ =~= diminished_table());
    r
}

/// A table that spells every position respells each pitch.
pub proof fn lemma_respelled_exists(t: Tone, table: Seq<Tone>)
    requires
        t.wf(),
        covers_pitches(table),
    ensures
        respells_in(respelled(t, table), t, table),
{
    if table.contains(t) {
        assert(respells_in(t, t, table));
    } else {
        assert(has_pitch(table, t.idx as int));
        let j = choose|j: int| 0 <= j < table.len() && table[j].idx == t.idx;
        assert(table.contains(table[j]));
        assert(respells_in(table[j], t, table));
    }
}

/// A pitch has at most one respelling within a table.
pub proof fn lemma_respelling_unique(a: Tone, b: Tone, t: Tone, table: Seq<Tone>)
    requires
        t.wf(),
        respells_in(a, t, table),
        respells_in(b, t, table),
    ensures
        a == b,
{
    lemma_spellings_of(a);
    lemma_spellings_of(b);
    lemma_spellings_of(t);
}

/// Respelling within a table that spells every position is exactly `respelled`.
pub proof fn lemma_respelled(r: Tone, t: Tone, table: Seq<Tone>)
    requires
        t.wf(),
        covers_pitches(table),
        respells_in(r, t, table),
    ensures
        r == respelled(t, table),
{
    lemma_respelled_exists(t, table);
    lemma_respelling_unique(r, respelled(t, table), t, table);
}

/// Respelling a respelled pitch changes nothing.
pub proof fn lemma_respelled_idempotent(t: Tone, table: Seq<Tone>)
    requires
        t.wf(),
        covers_pitches(table),
    ensures
        respelled(t, table).wf(),
        respelled(t, table).idx == t.idx,
        respelled(respelled(t, table), table) == respelled(t, table),
{
    lemma_respelled_exists(t, table);
    let r = respelled(t, table);
    assert(respells_in(r, r, table));
    lemma_respelled(r, r, table);
}

/// Each key table spells every position.
pub proof fn lemma_key_table_covers(kt: KeyType)
    ensures
        covers_pitches(key_table(kt)),
{
    reveal(key_table);
    let t = key_table(kt);
    let i = kt.tonic_interval();
    crate::key::lemma_circle_wf();
    assert forall|j: int| 0 <= j < t.len() implies (#[trigger] t[j]).wf() by {
        crate::key::lemma_circle_entry_steps(kt, j);
        lemma_transposed_wf(circle()[j], i);
    }
    lemma_circle_covers();
    assert forall|p: int| 1 <= p <= 12 implies #[trigger] has_pitch(t, p) by {
        let s = i.semitones();
        assert(0 <= s <= 11);
        lemma_wrap12(p - s);
        let q = wrap12(p - s);
        assert(has_pitch(circle(), q));
        let j = choose|j: int| 0 <= j < circle().len() && circle()[j].idx == q;
        crate::key::lemma_circle_entry_steps(kt, j);
        lemma_transposed_wf(circle()[j], i);
        lemma_wrap12(q + s);
        assert(t[j].idx == p);
    }
}

/// The circle spells every position.
proof fn lemma_circle_covers()
    ensures
        forall|p: int| 1 <= p <= 12 ==> #[trigger] has_pitch(circle(), p),
{
    let t = circle();
    assert forall|p: int| 1 <= p <= 12 implies #[trigger] has_pitch(t, p) by {
        assert(t[0].idx == p || t[1].idx == p || t[2].idx == p || t[3].idx == p || t[4].idx == p || t[5].idx == p || t[6].idx == p || t[7].idx == p || t[8].idx == p || t[9].idx == p || t[10].idx == p || t[11].idx == p || t[12].idx == p);
    }
}

/// The diminished table spells every position.
pub proof fn lemma_diminished_table_covers()
    ensures
        covers_pitches(diminished_table()),
{
    let t = diminished_table();
    assert forall|p: int| 1 <= p <= 12 implies #[trigger] has_pitch(t, p) by {
        assert(t[0].idx == p || t[1].idx == p || t[2].idx == p || t[3].idx == p || t[4].idx == p || t[5].idx == p || t[6].idx == p || t[7].idx == p || t[8].idx == p || t[9].idx == p || t[10].idx == p || t[11].idx == p);
    }
}

/// Moving a pitch up by an interval and then respelling it for any mode lands on the pitch
/// class the interval's semitones above the pitch.
pub proof fn law_transpose_then_respell(p: Tone, i: Interval, m: KeyType)
    requires
        p.wf(),
        transposed(p, i) is Some,
    ensures
        respelled(transposed(p, i)->0, key_table(m)).idx as int % 12 == (p.idx + i.semitones()) % 12,
{
    let u = transposed(p, i)->0;
    lemma_transposed_wf(p, i);
    lemma_key_table_covers(m);
    lemma_respelled_exists(u, key_table(m));
    lemma_wrap12(p.idx + i.semitones());
}

/// Every entry of the diminished table can be moved up by each interval of a diminished
/// seventh chord.
#[verifier::rlimit(100)]
#[verifier::spinoff_prover]
pub proof fn lemma_diminished_steps(t: Tone)
    requires
        diminished_table().contains(t),
    ensures
        transposed(t, Interval::MinorThird) is Some,
        transposed(t, Interval::DiminishedFifth) is Some,
        transposed(t, Interval::MajorSixth) is Some,
{
    reveal(spelled_at);
    assert(transposed(spelled(NeutralTone::C, ToneVariant::Neutral), Interval::MinorThird) is Some);
    assert(transposed(spelled(NeutralTone::C, ToneVariant::Neutral), Interval::DiminishedFifth) is Some);
    assert(transposed(spelled(NeutralTone::C, ToneVariant::Neutral), Interval::MajorSixth) is Some);
    assert(transposed(spelled(NeutralTone::C, ToneVariant::Sharp), Interval::MinorThird) is Some);
    assert(transposed(spelled(NeutralTone::C, ToneVariant::Sharp), Interval::DiminishedFifth) is Some);
    assert(transposed(spelled(NeutralTone::C, ToneVariant::Sharp), Interval::MajorSixth) is Some);
    assert(transposed(spelled(NeutralTone::D, ToneVariant::Neutral), Interval::MinorThird) is Some);
    assert(transposed(spelled(NeutralTone::D, ToneVariant::Neutral), Interval::DiminishedFifth) is Some);
    assert(transposed(spelled(NeutralTone::D, ToneVariant::Neutral), Interval::MajorSixth) is Some);
    assert(transposed(spelled(NeutralTone::D, ToneVariant::Sharp), Interval::MinorThird) is Some);
    assert(transposed(spelled(NeutralTone::D, ToneVariant::Sharp), Interval::DiminishedFifth) is Some);
    assert(transposed(spelled(NeutralTone::D, ToneVariant::Sharp), Interval::MajorSixth) is Some);
    assert(transposed(spelled(NeutralTone::E, ToneVariant::Neutral), Interval::MinorThird) is Some);
    assert(transposed(spelled(NeutralTone::E, ToneVariant::Neutral), Interval::DiminishedFifth) is Some);
    assert(transposed(spelled(NeutralTone::E, ToneVariant::Neutral), Interval::MajorSixth) is Some);
    assert(transposed(spelled(NeutralTone::F, ToneVariant::Neutral), Interval::MinorThird) is Some);
    assert(transposed(spelled(NeutralTone::F, ToneVariant::Neutral), Interval::DiminishedFifth) is Some);
    assert(transposed(spelled(NeutralTone::F, ToneVariant::Neutral), Interval::MajorSixth) is Some);
    assert(transposed(spelled(NeutralTone::F, ToneVariant::Sharp), Interval::MinorThird) is Some);
    assert(transposed(spelled(NeutralTone::F, ToneVariant::Sharp), Interval::DiminishedFifth) is Some);
    assert(transposed(spelled(NeutralTone::F, ToneVariant::Sharp), Interval::MajorSixth) is Some);
    assert(transposed(spelled(NeutralTone::G, ToneVariant::Neutral), Interval::MinorThird) is Some);
    assert(transposed(spelled(NeutralTone::G, ToneVariant::Neutral), Interval::DiminishedFifth) is Some);
    assert(transposed(spelled(NeutralTone::G, ToneVariant::Neutral), Interval::MajorSixth) is Some);
    assert(transposed(spelled(NeutralTone::G, ToneVariant::Sharp), Interval::MinorThird) is Some);
    assert(transposed(spelled(NeutralTone::G, ToneVariant::Sharp), Interval::DiminishedFifth) is Some);
    assert(transposed(spelled(NeutralTone::G, ToneVariant::Sharp), Interval::MajorSixth) is Some);
    assert(transposed(spelled(NeutralTone::A, ToneVariant::Neutral), Interval::MinorThird) is Some);
    assert(transposed(spelled(NeutralTone::A, ToneVariant::Neutral), Interval::DiminishedFifth) is Some);
    assert(transposed(spelled(NeutralTone::A, ToneVariant::Neutral), Interval::MajorSixth) is Some);
    assert(transposed(spelled(NeutralTone::B, ToneVariant::Flat), Interval::MinorThird) is Some);
    assert(transposed(spelled(NeutralTone::B, ToneVariant::Flat), Interval::DiminishedFifth) is Some);
    assert(transposed(spelled(NeutralTone::B, ToneVariant::Flat), Interval::MajorSixth) is Some);
    assert(transposed(spelled(NeutralTone::B, ToneVariant::Neutral), Interval::MinorThird) is Some);
    assert(transposed(spelled(NeutralTone::B, ToneVariant::Neutral), Interval::DiminishedFifth) is Some);
    assert(transposed(spelled(NeutralTone::B, ToneVariant::Neutral), Interval::MajorSixth) is Some);
    let d = diminished_table();
    let j = choose|j: int| 0 <= j < d.len() && d[j] == t;
    assert(j == 0 || j == 1 || j == 2 || j == 3 || j == 4 || j == 5 || j == 6 || j == 7 || j == 8 || j == 9 || j == 10 || j == 11);
}

} // verus!
