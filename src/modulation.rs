use vstd::prelude::*;

use crate::app::Difficulty;
use crate::chord::{approach_root, approached, spellable, Chord, ChordType, MissingSpelling};
use crate::random::{pick_weighted, total_weight};
use crate::tone::Interval;

verus! {

/// Approach chords that may precede a target chord.
#[derive(Debug, Clone, Copy, PartialEq, Eq, Structural)]
pub enum DeTour {
    Straight,
    SecondaryDominant,
    SubstituteSD,
    SD25,
    SSD25,
}

/// Weights of the detours, in declaration order.
pub open spec fn detour_weights(difficulty: Difficulty) -> Seq<u32> {
    if difficulty == Difficulty::Hell {
        seq![5, 3, 3, 1, 1]
    } else {
        seq![1, 1, 1, 1, 1]
    }
}

/// The approach chord of quality `from` built `i` above `t` cannot be spelled.
pub open spec fn approach_fails(t: crate::tone::Tone, from: ChordType, i: Interval) -> bool {
    approach_root(t, from, i, from) is None || !spellable(approach_root(t, from, i, from)->0, from)
}

impl DeTour {
    /// Position among the detours, in declaration order.
    pub open spec fn rank(self) -> int {
        match self {
            DeTour::Straight => 0,
            DeTour::SecondaryDominant => 1,
            DeTour::SubstituteSD => 2,
            DeTour::SD25 => 3,
            DeTour::SSD25 => 4,
        }
    }

    /// Interval from the target's root to the root of the dominant approach chord.
    pub open spec fn dominant_interval(self) -> Interval {
        if self == DeTour::SubstituteSD || self == DeTour::SSD25 {
            Interval::MajorSecond
        } else {
            Interval::PerfectFifth
        }
    }

    /// `v` is the target followed by this detour's approach chords, each listed before the
    /// chord it leads into is played after it (the last entry is played first).
    pub open spec fn builds(self, target: Chord, v: Seq<Chord>) -> bool {
        let i = self.dominant_interval();
        &&& v.len() >= 1
        &&& v[0] == target
        &&& match self {
            DeTour::Straight => v.len() == 1,
            DeTour::SecondaryDominant | DeTour::SubstituteSD => {
                &&& v.len() == 2
                &&& approached(target.tonic, ChordType::Dominant7, i, ChordType::Dominant7, Ok(v[1]))
            },
            DeTour::SD25 | DeTour::SSD25 => {
                &&& v.len() == 3
                &&& approached(target.tonic, ChordType::Dominant7, i, ChordType::Dominant7, Ok(v[1]))
                &&& approached(v[1].tonic, ChordType::Minor7, Interval::PerfectFifth, ChordType::Minor7, Ok(v[2]))
            },
        }
    }

    /// Some approach chord of this detour onto `target` cannot be spelled.
    pub open spec fn fails_on(self, target: Chord) -> bool {
        let i = self.dominant_interval();
        match self {
            DeTour::Straight => false,
            DeTour::SecondaryDominant | DeTour::SubstituteSD => approach_fails(target.tonic, ChordType::Dominant7, i),
            DeTour::SD25 | DeTour::SSD25 => approach_fails(target.tonic, ChordType::Dominant7, i)
                || approach_fails(approach_root(target.tonic, ChordType::Dominant7, i, ChordType::Dominant7)->0, ChordType::Minor7, Interval::PerfectFifth),
        }
    }

    pub fn weights(difficulty: Difficulty) -> (r: Vec<u32>)
        ensures
            r@ == detour_weights(difficulty),
    {
        let r = match difficulty {
            Difficulty::Hell => vec![5, 3, 3, 1, 1],
            _ => vec![1, 1, 1, 1, 1],
        };
        assert(r@ =~= detour_weights(difficulty));
        r
    }

    /// The detour at position `i` (0..=4).
    pub fn from_index(i: usize) -> (r: DeTour)
        requires
            i < 5,
        ensures
            r.rank() == i,
    {
        if i == 0 {
            DeTour::Straight
        } else if i == 1 {
            DeTour::SecondaryDominant
        } else if i == 2 {
            DeTour::SubstituteSD
        } else if i == 3 {
            DeTour::SD25
        } else {
            DeTour::SSD25
        }
    }

    /// A detour drawn at random with the weights of `difficulty`.
    pub fn sample(difficulty: Difficulty) -> (r: DeTour)
        ensures
            detour_weights(difficulty)[r.rank()] > 0,
    {
        let weights = Self::weights(difficulty);
        assert(total_weight(weights@) == 13 || total_weight(weights@) == 5) by {
            reveal_with_fuel(total_weight, 6);
        }
        let i = pick_weighted(&weights);
        Self::from_index(i)
    }

    /// The target chord followed by this detour's approach chords.
    pub fn build_chords(&self, chord: Chord, difficulty: Difficulty) -> (r: Result<Vec<Chord>, MissingSpelling>)
        requires
            chord.wf(),
        ensures
            match r {
                Ok(v) => self.builds(chord, v@) && !self.fails_on(chord),
                Err(_) => self.fails_on(chord),
            },
            r matches Ok(v) ==> forall|j: int| 0 <= j < v@.len() ==> (#[trigger] v@[j]).wf(),
            r matches Ok(v) ==> forall|j: int| 1 <= j < v@.len() ==> (#[trigger] v@[j]).inversion.allowed(difficulty),
            r is Ok,
    {
        match self {
            DeTour::Straight => {
                let v = vec![chord];
                assert(v@[0] == chord);
                Ok(v)
            },
            DeTour::SecondaryDominant | DeTour::SubstituteSD => {
                let pre_chord = if let DeTour::SecondaryDominant = self {
                    chord.gen_secondary_dominant(difficulty)?
                } else {
                    chord.gen_substitute_sd(difficulty)?
                };
                Ok(vec![chord, pre_chord])
            },
            DeTour::SD25 | DeTour::SSD25 => Self::two_five(*self, chord, difficulty),
        }
    }

    /// The target, its dominant approach chord, and the "ii" before that dominant.
    fn two_five(d: DeTour, chord: Chord, difficulty: Difficulty) -> (r: Result<Vec<Chord>, MissingSpelling>)
        requires
            chord.wf(),
            d == DeTour::SD25 || d == DeTour::SSD25,
        ensures
            match r {
                Ok(v) => d.builds(chord, v@) && !d.fails_on(chord),
                Err(_) => d.fails_on(chord),
            },
            r matches Ok(v) ==> forall|j: int| 0 <= j < v@.len() ==> (#[trigger] v@[j]).wf(),
            r matches Ok(v) ==> forall|j: int| 1 <= j < v@.len() ==> (#[trigger] v@[j]).inversion.allowed(difficulty),
            r is Ok,
    {
        let pre_chord = if let DeTour::SD25 = d {
            chord.gen_secondary_dominant(difficulty)?
        } else {
            chord.gen_substitute_sd(difficulty)?
        };
        let pp_chord = pre_chord.gen_second_minor(difficulty)?;
        Ok(vec![chord, pre_chord, pp_chord])
    }

    pub fn name(&self) -> (r: &'static str) {
        match self {
            DeTour::Straight => "Straight",
            DeTour::SecondaryDominant => "SecondaryDominant",
            DeTour::SubstituteSD => "SubstituteSD",
            DeTour::SD25 => "SD25",
            DeTour::SSD25 => "SSD25",
        }
    }
}

/// How the key changes from one measure to the next.
#[derive(Debug, Clone, Copy, PartialEq, Eq, Structural)]
pub enum Modulation {
    SameKey,
    ViaTonic,
    ViaSharedChord,
    ViaDiminished,
    Back,
}

/// Weights of the modulations, in declaration order.
pub open spec fn modulation_weights(difficulty: Difficulty) -> Seq<u32> {
    if difficulty == Difficulty::Hell {
        seq![5, 3, 3, 3, 1]
    } else {
        seq![1, 1, 1, 1, 1]
    }
}

impl Modulation {
    /// Position among the modulations, in declaration order.
    pub open spec fn rank(self) -> int {
        match self {
            Modulation::SameKey => 0,
            Modulation::ViaTonic => 1,
            Modulation::ViaSharedChord => 2,
            Modulation::ViaDiminished => 3,
            Modulation::Back => 4,
        }
    }

    pub fn weights(difficulty: Difficulty) -> (r: Vec<u32>)
        ensures
            r@ == modulation_weights(difficulty),
    {
        let r = match difficulty {
            Difficulty::Hell => vec![5, 3, 3, 3, 1],
            _ => vec![1, 1, 1, 1, 1],
        };
        assert(r@ =~= modulation_weights(difficulty));
        r
    }

    /// The modulation at position `i` (0..=4).
    pub fn from_index(i: usize) -> (r: Modulation)
        requires
            i < 5,
        ensures
            r.rank() == i,
    {
        if i == 0 {
            Modulation::SameKey
        } else if i == 1 {
            Modulation::ViaTonic
        } else if i == 2 {
            Modulation::ViaSharedChord
        } else if i == 3 {
            Modulation::ViaDiminished
        } else {
            Modulation::Back
        }
    }

    /// A modulation drawn at random with the weights of `difficulty`.
    pub fn sample(difficulty: Difficulty) -> (r: Modulation)
        ensures
            modulation_weights(difficulty)[r.rank()] > 0,
    {
        let weights = Self::weights(difficulty);
        assert(total_weight(weights@) == 15 || total_weight(weights@) == 5) by {
            reveal_with_fuel(total_weight, 6);
        }
        let i = pick_weighted(&weights);
        Self::from_index(i)
    }

    /// What the player is told of the modulation.
    pub fn description(&self) -> (r: &'static str) {
        match self {
            Modulation::SameKey => "(no key change)",
            Modulation::ViaTonic => "(switch mode with the current key tonic)",
            Modulation::ViaSharedChord => "(to a new key sharing the current chord)",
            Modulation::ViaDiminished => "(modulation via diminished (advanced))",
            Modulation::Back => "(back to the previous key)",
        }
    }
}

/// The secondary dominant and its "ii" stand a perfect fifth apart, in that order, above the
/// target.
pub proof fn law_sd25_fifths(target: Chord, v: Seq<Chord>)
    requires
        target.wf(),
        DeTour::SD25.builds(target, v),
    ensures
        v.len() == 3,
        v[0] == target,
        v[1].tonic.idx as int == crate::tone::wrap12(target.tonic.idx + 7),
        v[2].tonic.idx as int == crate::tone::wrap12(v[1].tonic.idx + 7),
{
    lemma_fifth_above(target.tonic, ChordType::Dominant7, v[1].tonic);
    lemma_fifth_above(v[1].tonic, ChordType::Minor7, v[2].tonic);
}

/// The root of an approach chord a perfect fifth above `t` stands seven semitones above it.
proof fn lemma_fifth_above(t: crate::tone::Tone, ct: ChordType, root: crate::tone::Tone)
    requires
        t.wf(),
        ct != ChordType::Diminished7,
        approach_root(t, ct, Interval::PerfectFifth, ct) == Some(root),
    ensures
        root.idx as int == crate::tone::wrap12(t.idx + 7),
{
    let table = ct.root_table();
    crate::tone::lemma_key_table_covers(ct.spelling_mode());
    crate::tone::lemma_respelled_exists(t, table);
    let m = crate::tone::respelled(t, table);
    crate::tone::lemma_transposed_wf(m, Interval::PerfectFifth);
    let u = crate::tone::transposed(m, Interval::PerfectFifth)->0;
    crate::tone::lemma_respelled_exists(u, table);
}

} // verus!
