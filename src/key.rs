use vstd::prelude::*;

use crate::app::Difficulty;
use crate::chord::{spellable, Chord, ChordType, Inversion, MissingSpelling};
use crate::random::{pick_weighted, random_below, total_weight};
use crate::tone::{
    circle, key_table, lemma_key_table_covers, lemma_respelled_exists, respelled, spelled,
    spelled_at, transposed, Interval, NeutralTone, Tone, ToneVariant,
};

verus! {

/// One of the seven rotations of the diatonic scale.
#[derive(Debug, Clone, Copy, PartialEq, Eq, Structural)]
pub enum KeyType {
    Ionian,
    Dorian,
    Phrygian,
    Lydian,
    Mixolydian,
    Aeolian,
    Locrian,
}

impl KeyType {
    /// Position of the mode among the rotations (Ionian is 0).
    pub open spec fn rank(self) -> int {
        match self {
            KeyType::Ionian => 0,
            KeyType::Dorian => 1,
            KeyType::Phrygian => 2,
            KeyType::Lydian => 3,
            KeyType::Mixolydian => 4,
            KeyType::Aeolian => 5,
            KeyType::Locrian => 6,
        }
    }

    /// Distance from the Ionian tonic of a key signature to the tonic of this mode.
    pub open spec fn tonic_interval(self) -> Interval {
        match self {
            KeyType::Ionian => Interval::PerfectUnison,
            KeyType::Dorian => Interval::MajorSecond,
            KeyType::Phrygian => Interval::MajorThird,
            KeyType::Lydian => Interval::PerfectFourth,
            KeyType::Mixolydian => Interval::PerfectFifth,
            KeyType::Aeolian => Interval::MajorSixth,
            KeyType::Locrian => Interval::MajorSeventh,
        }
    }

    /// Distance from the tonic to scale degree `d` (1..=7) of this mode.
    pub open spec fn scale_interval(self, d: int) -> Interval {
        if d == 1 {
            Interval::PerfectUnison
        } else if d == 2 {
            match self {
                KeyType::Phrygian | KeyType::Locrian => Interval::MinorSecond,
                _ => Interval::MajorSecond,
            }
        } else if d == 3 {
            match self {
                KeyType::Ionian | KeyType::Lydian | KeyType::Mixolydian => Interval::MajorThird,
                _ => Interval::MinorThird,
            }
        } else if d == 4 {
            match self {
                KeyType::Lydian => Interval::AugmentedFourth,
                _ => Interval::PerfectFourth,
            }
        } else if d == 5 {
            match self {
                KeyType::Locrian => Interval::DiminishedFifth,
                _ => Interval::PerfectFifth,
            }
        } else if d == 6 {
            match self {
                KeyType::Ionian | KeyType::Lydian | KeyType::Mixolydian | KeyType::Dorian => Interval::MajorSixth,
                _ => Interval::MinorSixth,
            }
        } else {
            match self {
                KeyType::Ionian | KeyType::Lydian => Interval::MajorSeventh,
                _ => Interval::MinorSeventh,
            }
        }
    }

    /// Quality of the seventh chord on scale degree `d` (1..=7) of this mode: the Ionian
    /// qualities, rotated by the mode's rank.
    pub open spec fn degree_quality(self, d: int) -> ChordType {
        ionian_quality((self.rank() + d - 1) % 7 + 1)
    }

    /// The mode `o` rotations after this one.
    pub open spec fn rotated(self, o: int) -> KeyType {
        mode_at((self.rank() + o) % 7)
    }

    /// Weights of the modes, in declaration order, for the mode of a sampled key.
    pub fn weights(difficulty: Difficulty) -> (r: Vec<u32>)
        ensures
            r@ == mode_weights(difficulty),
    {
        let r = match difficulty {
            Difficulty::Hell => vec![1, 1, 1, 1, 1, 1, 1],
            _ => vec![1, 0, 0, 0, 0, 1, 0],
        };
        assert(r@ =~= mode_weights(difficulty));
        r
    }

    /// The mode of rank `i` (0..=6).
    pub fn from_index(i: usize) -> (r: KeyType)
        requires
            i < 7,
        ensures
            r == mode_at(i as int),
            r.rank() == i,
    {
        if i == 0 {
            KeyType::Ionian
        } else if i == 1 {
            KeyType::Dorian
        } else if i == 2 {
            KeyType::Phrygian
        } else if i == 3 {
            KeyType::Lydian
        } else if i == 4 {
            KeyType::Mixolydian
        } else if i == 5 {
            KeyType::Aeolian
        } else {
            KeyType::Locrian
        }
    }

    /// A mode drawn at random among those `difficulty` allows.
    pub fn sample(difficulty: Difficulty) -> (r: KeyType)
        ensures
            mode_weights(difficulty)[r.rank()] > 0,
    {
        let weights = Self::weights(difficulty);
        assert(total_weight(weights@) == 7 || total_weight(weights@) == 2) by {
            reveal_with_fuel(total_weight, 8);
        }
        let i = pick_weighted(&weights);
        Self::from_index(i)
    }

    /// The quality of the seventh chord on scale degree `idx` (1..=7).
    pub fn degree_chord_type(&self, idx: i8) -> (r: ChordType)
        requires
            1 <= idx <= 7,
        ensures
            r == self.degree_quality(idx as int),
    {
        match self {
            KeyType::Ionian => if idx == 1 || idx == 4 {
                ChordType::Major7
            } else if idx == 2 || idx == 3 || idx == 6 {
                ChordType::Minor7
            } else if idx == 5 {
                ChordType::Dominant7
            } else {
                ChordType::HalfDiminished7
            },
            KeyType::Dorian => if idx == 7 || idx == 3 {
                ChordType::Major7
            } else if idx == 1 || idx == 2 || idx == 5 {
                ChordType::Minor7
            } else if idx == 4 {
                ChordType::Dominant7
            } else {
                ChordType::HalfDiminished7
            },
            KeyType::Phrygian => if idx == 6 || idx == 2 {
                ChordType::Major7
            } else if idx == 7 || idx == 1 || idx == 4 {
                ChordType::Minor7
            } else if idx == 3 {
                ChordType::Dominant7
            } else {
                ChordType::HalfDiminished7
            },
            KeyType::Lydian => if idx == 5 || idx == 1 {
                ChordType::Major7
            } else if idx == 6 || idx == 7 || idx == 3 {
                ChordType::Minor7
            } else if idx == 2 {
                ChordType::Dominant7
            } else {
                ChordType::HalfDiminished7
            },
            KeyType::Mixolydian => if idx == 4 || idx == 7 {
                ChordType::Major7
            } else if idx == 5 || idx == 6 || idx == 2 {
                ChordType::Minor7
            } else if idx == 1 {
                ChordType::Dominant7
            } else {
                ChordType::HalfDiminished7
            },
            KeyType::Aeolian => if idx == 3 || idx == 6 {
                ChordType::Major7
            } else if idx == 1 || idx == 4 || idx == 5 {
                ChordType::Minor7
            } else if idx == 7 {
                ChordType::Dominant7
            } else {
                ChordType::HalfDiminished7
            },
            KeyType::Locrian => if idx == 2 || idx == 5 {
                ChordType::Major7
            } else if idx == 7 || idx == 3 || idx == 4 {
                ChordType::Minor7
            } else if idx == 6 {
                ChordType::Dominant7
            } else {
                ChordType::HalfDiminished7
            },
        }
    }

    /// Exec form of `tonic_interval`.
    pub fn tonic_offset(&self) -> (r: Interval)
        ensures
            r == self.tonic_interval(),
    {
        match self {
            KeyType::Ionian => Interval::PerfectUnison,
            KeyType::Dorian => Interval::MajorSecond,
            KeyType::Phrygian => Interval::MajorThird,
            KeyType::Lydian => Interval::PerfectFourth,
            KeyType::Mixolydian => Interval::PerfectFifth,
            KeyType::Aeolian => Interval::MajorSixth,
            KeyType::Locrian => Interval::MajorSeventh,
        }
    }

    pub fn name(&self) -> (r: &'static str) {
        match self {
            KeyType::Ionian => "Ionian",
            KeyType::Dorian => "Dorian",
            KeyType::Phrygian => "Phrygian",
            KeyType::Lydian => "Lydian",
            KeyType::Mixolydian => "Mixolydian",
            KeyType::Aeolian => "Aeolian",
            KeyType::Locrian => "Locrian",
        }
    }
}

/// The mode at rank `r` (0..=6) among the rotations.
pub open spec fn mode_at(r: int) -> KeyType {
    if r == 0 {
        KeyType::Ionian
    } else if r == 1 {
        KeyType::Dorian
    } else if r == 2 {
        KeyType::Phrygian
    } else if r == 3 {
        KeyType::Lydian
    } else if r == 4 {
        KeyType::Mixolydian
    } else if r == 5 {
        KeyType::Aeolian
    } else {
        KeyType::Locrian
    }
}

/// The tonics that `Key::sample` draws from, by index: the circle of tonics, sharps
/// first, then flats.
pub open spec fn tonic_draws() -> Seq<Tone> {
    seq![
        spelled(NeutralTone::C, ToneVariant::Neutral),
        spelled(NeutralTone::D, ToneVariant::Neutral),
        spelled(NeutralTone::E, ToneVariant::Neutral),
        spelled(NeutralTone::F, ToneVariant::Sharp),
        spelled(NeutralTone::G, ToneVariant::Neutral),
        spelled(NeutralTone::A, ToneVariant::Neutral),
        spelled(NeutralTone::B, ToneVariant::Neutral),
        spelled(NeutralTone::B, ToneVariant::Flat),
        spelled(NeutralTone::A, ToneVariant::Flat),
        spelled(NeutralTone::G, ToneVariant::Flat),
        spelled(NeutralTone::F, ToneVariant::Neutral),
        spelled(NeutralTone::E, ToneVariant::Flat),
        spelled(NeutralTone::D, ToneVariant::Flat),
    ]
}

/// Qualities of the seventh chords on the degrees (1..=7) of the Ionian scale.
pub open spec fn ionian_quality(d: int) -> ChordType {
    if d == 1 || d == 4 {
        ChordType::Major7
    } else if d == 5 {
        ChordType::Dominant7
    } else if d == 7 {
        ChordType::HalfDiminished7
    } else {
        ChordType::Minor7
    }
}

/// Weights of the modes, in declaration order: Ionian and Aeolian only, except for the
/// hell difficulty, which draws all seven alike.
pub open spec fn mode_weights(difficulty: Difficulty) -> Seq<u32> {
    if difficulty == Difficulty::Hell {
        seq![1, 1, 1, 1, 1, 1, 1]
    } else {
        seq![1, 0, 0, 0, 0, 1, 0]
    }
}

/// A tonic and a mode.
#[derive(Debug, Clone, Copy, PartialEq, Eq, Structural)]
pub struct Key {
    pub tonic: Tone,
    pub key_type: KeyType,
}

impl Key {
    pub open spec fn wf(self) -> bool {
        self.tonic.wf()
    }

    /// The tonic is spelled as the key signature of the mode spells it.
    pub open spec fn in_signature(self) -> bool {
        self.tonic == respelled(self.tonic, key_table(self.key_type))
    }

    /// The tonic as the key signature of the mode spells it.
    pub open spec fn spelled_tonic(self) -> Tone {
        respelled(self.tonic, key_table(self.key_type))
    }

    /// The pitch on scale degree `d` (1..=7).
    pub open spec fn degree_tone(self, d: int) -> Option<Tone> {
        transposed(self.spelled_tonic(), self.key_type.scale_interval(d))
    }

    /// The key whose tonic is degree `o + 1` of this key and whose mode is rotated by `o`.
    pub open spec fn mode_changed(self, o: int) -> Option<Key> {
        match self.degree_tone(o + 1) {
            Some(t) => Some(Key { tonic: t, key_type: self.key_type.rotated(o) }),
            None => None,
        }
    }

    /// The key of mode `key_type` on `tonic`, respelled for the mode.
    pub fn new(tonic: Tone, key_type: KeyType) -> (r: Key)
        requires
            tonic.wf(),
        ensures
            r == (Key { tonic: respelled(tonic, key_table(key_type)), key_type }),
            r.wf(),
            r.in_signature(),
    {
        let t = tonic.rematch_key(&key_type);
        proof {
            lemma_key_table_covers(key_type);
            lemma_respelled_exists(tonic, key_table(key_type));
            crate::tone::lemma_respelled_idempotent(tonic, key_table(key_type));
        }
        Key { tonic: t, key_type }
    }

    /// The tonic drawn by `sample` for index `i` (0..=12).
    pub fn sample_tonic(i: usize) -> (r: Tone)
        requires
            i < 13,
        ensures
            r == tonic_draws()[i as int],
            r.wf(),
            circle().contains(r),
    {
        let r = if i == 0 {
            Tone::new(NeutralTone::C, ToneVariant::Neutral)
        } else if i == 1 {
            Tone::new(NeutralTone::D, ToneVariant::Neutral)
        } else if i == 2 {
            Tone::new(NeutralTone::E, ToneVariant::Neutral)
        } else if i == 3 {
            Tone::new(NeutralTone::F, ToneVariant::Sharp)
        } else if i == 4 {
            Tone::new(NeutralTone::G, ToneVariant::Neutral)
        } else if i == 5 {
            Tone::new(NeutralTone::A, ToneVariant::Neutral)
        } else if i == 6 {
            Tone::new(NeutralTone::B, ToneVariant::Neutral)
        } else if i == 7 {
            Tone::new(NeutralTone::B, ToneVariant::Flat)
        } else if i == 8 {
            Tone::new(NeutralTone::A, ToneVariant::Flat)
        } else if i == 9 {
            Tone::new(NeutralTone::G, ToneVariant::Flat)
        } else if i == 10 {
            Tone::new(NeutralTone::F, ToneVariant::Neutral)
        } else if i == 11 {
            Tone::new(NeutralTone::E, ToneVariant::Flat)
        } else {
            Tone::new(NeutralTone::D, ToneVariant::Flat)
        };
        assert(r == tonic_draws()[i as int]);
        let ghost c = circle();
        assert(c.contains(r)) by {
            assert(r == c[0] || r == c[1] || r == c[2] || r == c[3] || r == c[4] || r == c[5] || r == c[6]
                || r == c[7] || r == c[8] || r == c[9] || r == c[10] || r == c[11] || r == c[12]);
        }
        r
    }

    /// A random key: a tonic of the circle, uniformly, as an Ionian key, then moved to a
    /// mode that `difficulty` allows with `change_mode`.
    pub fn sample(difficulty: Difficulty) -> (r: Result<Key, MissingSpelling>)
        ensures
            r is Ok,
            r matches Ok(k) ==> k.in_signature(),
            r matches Ok(k) ==> k.wf() && mode_weights(difficulty)[k.key_type.rank()] > 0
                && exists|i: int, o: int| 0 <= i < 13 && 0 <= o < 7 && mode_weights(difficulty)[o] > 0
                    && (Key { tonic: tonic_draws()[i], key_type: KeyType::Ionian }).mode_changed(o) == Some(k),
    {
        let i = random_below(13);
        let tonic = Self::sample_tonic(i);
        let ionian = Key { tonic, key_type: KeyType::Ionian };
        let weights = KeyType::weights(difficulty);
        assert(total_weight(weights@) == 7 || total_weight(weights@) == 2) by {
            reveal_with_fuel(total_weight, 8);
        }
        let mode_idx = pick_weighted(&weights);
        let r = ionian.change_mode(mode_idx as i8);
        proof {
            if let Ok(k) = r {
                assert(k.key_type == mode_at(mode_idx as int));
                assert((Key { tonic: tonic_draws()[i as int], key_type: KeyType::Ionian }).mode_changed(mode_idx as int) == Some(k));
            }
        }
        r
    }

    /// The pitch on scale degree `idx` (1..=7).
    pub fn gen_tone(&self, idx: i8) -> (r: Result<Tone, MissingSpelling>)
        requires
            self.wf(),
            1 <= idx <= 7,
        ensures
            match r {
                Ok(t) => self.degree_tone(idx as int) == Some(t) && t.wf(),
                Err(_) => self.degree_tone(idx as int) is None,
            },
            r is Ok,
    {
        proof {
            lemma_key_table_covers(self.key_type);
            lemma_respelled_exists(self.tonic, key_table(self.key_type));
            lemma_table_scale(self.key_type, self.spelled_tonic(), idx as int);
        }
        let interval = if idx == 1 {
            Interval::PerfectUnison
        } else if idx == 2 {
            match self.key_type {
                KeyType::Ionian | KeyType::Lydian | KeyType::Mixolydian | KeyType::Aeolian
                | KeyType::Dorian => Interval::MajorSecond,
                KeyType::Phrygian | KeyType::Locrian => Interval::MinorSecond,
            }
        } else if idx == 3 {
            match self.key_type {
                KeyType::Ionian | KeyType::Lydian | KeyType::Mixolydian => Interval::MajorThird,
                KeyType::Aeolian | KeyType::Dorian | KeyType::Locrian | KeyType::Phrygian => Interval::MinorThird,
            }
        } else if idx == 4 {
            match self.key_type {
                KeyType::Lydian => Interval::AugmentedFourth,
                _ => Interval::PerfectFourth,
            }
        } else if idx == 5 {
            match self.key_type {
                KeyType::Locrian => Interval::DiminishedFifth,
                _ => Interval::PerfectFifth,
            }
        } else if idx == 6 {
            match self.key_type {
                KeyType::Ionian | KeyType::Lydian | KeyType::Mixolydian | KeyType::Dorian => Interval::MajorSixth,
                KeyType::Phrygian | KeyType::Aeolian | KeyType::Locrian => Interval::MinorSixth,
            }
        } else {
            match self.key_type {
                KeyType::Ionian | KeyType::Lydian => Interval::MajorSeventh,
                _ => Interval::MinorSeventh,
            }
        };
        let matched_tonic = self.tonic.rematch_key(&self.key_type);
        match matched_tonic.checked_add_interval(interval) {
            Some(t) => Ok(t),
            None => Err(MissingSpelling),
        }
    }

    /// The seventh chord on scale degree `idx` (1..=7), with a voicing that `difficulty`
    /// allows.
    pub fn gen_chord(&self, idx: i8, difficulty: Difficulty) -> (r: Result<Chord, MissingSpelling>)
        requires
            self.wf(),
            1 <= idx <= 7,
        ensures
            ({
                let q = self.key_type.degree_quality(idx as int);
                match r {
                    Ok(c) => {
                        &&& c.wf()
                        &&& c.chord_type == q
                        &&& self.degree_tone(idx as int) is Some
                        &&& c.tonic == respelled(self.degree_tone(idx as int)->0, q.root_table())
                        &&& c.inversion.allowed(difficulty)
                    },
                    Err(_) => self.degree_tone(idx as int) is None
                        || !spellable(respelled(self.degree_tone(idx as int)->0, q.root_table()), q),
                }
            }),
            r is Ok,
    {
        proof {
            law_degree_chords_spell(*self, idx as int);
        }
        let chord_type = self.key_type.degree_chord_type(idx);
        let root = self.gen_tone(idx)?;
        Chord::new(root, chord_type, Inversion::sample(difficulty))
    }

    /// The key whose tonic is degree `idx + 1` of this key and whose mode is this mode
    /// rotated by `idx` (0..=6).
    pub fn change_mode(&self, idx: i8) -> (r: Result<Key, MissingSpelling>)
        requires
            self.wf(),
            0 <= idx <= 6,
        ensures
            match r {
                Ok(k) => self.mode_changed(idx as int) == Some(k) && k.wf(),
                Err(_) => self.mode_changed(idx as int) is None,
            },
            r is Ok,
            r matches Ok(k) ==> k.in_signature(),
    {
        let modes = self.derived_keytype_vec();
        let key_type = modes[idx as usize];
        let tonic = self.gen_tone(idx + 1)?;
        proof {
            lemma_degree_in_rotated_table(*self, idx as int);
            let table = key_table(key_type);
            lemma_key_table_covers(key_type);
            assert(crate::tone::respells_in(tonic, tonic, table));
            crate::tone::lemma_respelled(tonic, tonic, table);
        }
        Ok(Key { tonic, key_type })
    }

    /// The seven modes, starting from this key's mode, in rotation order.
    fn derived_keytype_vec(&self) -> (r: Vec<KeyType>)
        ensures
            r@.len() == 7,
            forall|j: int| 0 <= j < 7 ==> #[trigger] r@[j] == self.key_type.rotated(j),
    {
        let mut r: Vec<KeyType> = Vec::new();
        let start: usize = match self.key_type {
            KeyType::Ionian => 0,
            KeyType::Dorian => 1,
            KeyType::Phrygian => 2,
            KeyType::Lydian => 3,
            KeyType::Mixolydian => 4,
            KeyType::Aeolian => 5,
            KeyType::Locrian => 6,
        };
        let mut j: usize = 0;
        while j < 7
            invariant
                j <= 7,
                start as int == self.key_type.rank(),
                r@.len() == j,
                forall|k: int| 0 <= k < j ==> #[trigger] r@[k] == self.key_type.rotated(k),
            decreases 7 - j,
        {
            r.push(KeyType::from_index((start + j) % 7));
            j += 1;
        }
        r
    }
}

/// Semitones from the tonic up to degree `o + 1` of mode `m`, then from there up to degree
/// `(7 - o) % 7 + 1` of the rotated mode, make whole octaves.
pub proof fn lemma_rotation_semitones(m: KeyType, o: int)
    requires
        0 <= o <= 6,
    ensures
        (m.scale_interval(o + 1).semitones() + m.rotated(o).scale_interval((7 - o) % 7 + 1).semitones()) % 12 == 0,
{
    assert(o == 0 || o == 1 || o == 2 || o == 3 || o == 4 || o == 5 || o == 6);
    match m {
        KeyType::Ionian => {},
        KeyType::Dorian => {},
        KeyType::Phrygian => {},
        KeyType::Lydian => {},
        KeyType::Mixolydian => {},
        KeyType::Aeolian => {},
        KeyType::Locrian => {},
    }
}

/// Two moves that make whole octaves return to the start.
proof fn lemma_wrap_back(a: int, s1: int, s2: int)
    requires
        1 <= a <= 12,
        0 <= s1 <= 11,
        0 <= s2 <= 11,
        (s1 + s2) % 12 == 0,
    ensures
        crate::tone::wrap12(crate::tone::wrap12(a + s1) + s2) == a,
{
    crate::tone::lemma_wrap12(a + s1);
    crate::tone::lemma_wrap12(crate::tone::wrap12(a + s1) + s2);
}

/// Changing mode by `o` and then by `(7 - o) % 7` brings the tonic back to its pitch class.
pub proof fn law_mode_rotation_returns(k: Key, o: int)
    requires
        k.wf(),
        0 <= o <= 6,
        k.mode_changed(o) is Some,
        k.mode_changed(o)->0.mode_changed((7 - o) % 7) is Some,
    ensures
        k.mode_changed(o)->0.mode_changed((7 - o) % 7)->0.tonic.idx == k.tonic.idx,
{
    let k1 = k.mode_changed(o)->0;
    let o2 = (7 - o) % 7;
    let k2 = k1.mode_changed(o2)->0;
    let i1 = k.key_type.scale_interval(o + 1);
    let i2 = k1.key_type.scale_interval(o2 + 1);
    lemma_key_table_covers(k.key_type);
    lemma_respelled_exists(k.tonic, key_table(k.key_type));
    let t0 = k.spelled_tonic();
    assert(t0.idx == k.tonic.idx);
    crate::tone::lemma_transposed_wf(t0, i1);
    assert(k1.tonic == transposed(t0, i1)->0);
    assert(k1.tonic.idx as int == crate::tone::wrap12(k.tonic.idx + i1.semitones()));
    assert(k1.key_type == k.key_type.rotated(o));
    lemma_key_table_covers(k1.key_type);
    lemma_respelled_exists(k1.tonic, key_table(k1.key_type));
    let t1 = k1.spelled_tonic();
    assert(t1.idx == k1.tonic.idx);
    crate::tone::lemma_transposed_wf(t1, i2);
    assert(k2.tonic == transposed(t1, i2)->0);
    assert(k2.tonic.idx as int == crate::tone::wrap12(k1.tonic.idx + i2.semitones()));
    lemma_rotation_semitones(k.key_type, o);
    crate::tone::lemma_spellings_of(k.tonic);
    assert(1 <= k.tonic.idx <= 12);
    assert(0 <= i1.semitones() <= 11 && 0 <= i2.semitones() <= 11);
    lemma_wrap_back(k.tonic.idx as int, i1.semitones(), i2.semitones());
}

/// Moving a mode's tonic interval and then to one of its degrees is moving to a degree of
/// the Ionian scale, up to an octave.
proof fn lemma_rotation_sum(kt: KeyType, d: int)
    requires
        1 <= d <= 7,
    ensures
        ({
            let a = kt.tonic_interval();
            let b = kt.scale_interval(d);
            let c = KeyType::Ionian.scale_interval((kt.rank() + d - 1) % 7 + 1);
            ||| (a.steps() + b.steps() == c.steps() && a.semitones() + b.semitones() == c.semitones())
            ||| (a.steps() + b.steps() == c.steps() + 7 && a.semitones() + b.semitones() == c.semitones() + 12)
        }),
{
    assert(d == 1 || d == 2 || d == 3 || d == 4 || d == 5 || d == 6 || d == 7);
    match kt {
        KeyType::Ionian => {},
        KeyType::Dorian => {},
        KeyType::Phrygian => {},
        KeyType::Lydian => {},
        KeyType::Mixolydian => {},
        KeyType::Aeolian => {},
        KeyType::Locrian => {},
    }
}

/// Each tonic of the circle is well formed.
pub proof fn lemma_circle_wf()
    ensures
        forall|j: int| 0 <= j < 13 ==> (#[trigger] circle()[j]).wf(),
{
    let c = circle();
    assert forall|j: int| 0 <= j < 13 implies (#[trigger] c[j]).wf() by {
        assert(j == 0 || j == 1 || j == 2 || j == 3 || j == 4 || j == 5 || j == 6 || j == 7 || j == 8 || j == 9 || j == 10 || j == 11 || j == 12);
    }
}

/// Tonic `j` of the circle can be moved by any mode's tonic interval.
pub proof fn lemma_circle_entry_steps(kt: KeyType, j: int)
    requires
        0 <= j < 13,
    ensures
        transposed(circle()[j], kt.tonic_interval()) is Some,
{
    lemma_tonic_interval_ionian(kt);
    lemma_circle_degree(j, kt.rank() + 1);
}

/// Entry `j` of a mode's key table is tonic `j` of the circle moved by the mode's tonic
/// interval.
proof fn lemma_table_entry_moved(kt: KeyType, j: int)
    requires
        0 <= j < 13,
    ensures
        transposed(circle()[j], kt.tonic_interval()) == Some(key_table(kt)[j]),
{
    reveal(key_table);
    lemma_circle_entry_steps(kt, j);
}

/// Degree `n` of the Ionian scale on tonic `j` of the circle can be spelled.
#[verifier::rlimit(100)]
#[verifier::spinoff_prover]
proof fn lemma_circle_degree(j: int, n: int)
    requires
        0 <= j < 13,
        1 <= n <= 7,
    ensures
        transposed(circle()[j], KeyType::Ionian.scale_interval(n)) is Some,
{
    reveal(spelled_at);
    assert(transposed(spelled(NeutralTone::C, ToneVariant::Neutral), Interval::PerfectUnison) is Some);
    assert(transposed(spelled(NeutralTone::D, ToneVariant::Flat), Interval::PerfectUnison) is Some);
    assert(transposed(spelled(NeutralTone::D, ToneVariant::Neutral), Interval::PerfectUnison) is Some);
    assert(transposed(spelled(NeutralTone::E, ToneVariant::Flat), Interval::PerfectUnison) is Some);
    assert(transposed(spelled(NeutralTone::E, ToneVariant::Neutral), Interval::PerfectUnison) is Some);
    assert(transposed(spelled(NeutralTone::F, ToneVariant::Neutral), Interval::PerfectUnison) is Some);
    assert(transposed(spelled(NeutralTone::F, ToneVariant::Sharp), Interval::PerfectUnison) is Some);
    assert(transposed(spelled(NeutralTone::G, ToneVariant::Flat), Interval::PerfectUnison) is Some);
    assert(transposed(spelled(NeutralTone::G, ToneVariant::Neutral), Interval::PerfectUnison) is Some);
    assert(transposed(spelled(NeutralTone::A, ToneVariant::Flat), Interval::PerfectUnison) is Some);
    assert(transposed(spelled(NeutralTone::A, ToneVariant::Neutral), Interval::PerfectUnison) is Some);
    assert(transposed(spelled(NeutralTone::B, ToneVariant::Flat), Interval::PerfectUnison) is Some);
    assert(transposed(spelled(NeutralTone::B, ToneVariant::Neutral), Interval::PerfectUnison) is Some);
    assert(transposed(spelled(NeutralTone::C, ToneVariant::Neutral), Interval::MajorSecond) is Some);
    assert(transposed(spelled(NeutralTone::D, ToneVariant::Flat), Interval::MajorSecond) is Some);
    assert(transposed(spelled(NeutralTone::D, ToneVariant::Neutral), Interval::MajorSecond) is Some);
    assert(transposed(spelled(NeutralTone::E, ToneVariant::Flat), Interval::MajorSecond) is Some);
    assert(transposed(spelled(NeutralTone::E, ToneVariant::Neutral), Interval::MajorSecond) is Some);
    assert(transposed(spelled(NeutralTone::F, ToneVariant::Neutral), Interval::MajorSecond) is Some);
    assert(transposed(spelled(NeutralTone::F, ToneVariant::Sharp), Interval::MajorSecond) is Some);
    assert(transposed(spelled(NeutralTone::G, ToneVariant::Flat), Interval::MajorSecond) is Some);
    assert(transposed(spelled(NeutralTone::G, ToneVariant::Neutral), Interval::MajorSecond) is Some);
    assert(transposed(spelled(NeutralTone::A, ToneVariant::Flat), Interval::MajorSecond) is Some);
    assert(transposed(spelled(NeutralTone::A, ToneVariant::Neutral), Interval::MajorSecond) is Some);
    assert(transposed(spelled(NeutralTone::B, ToneVariant::Flat), Interval::MajorSecond) is Some);
    assert(transposed(spelled(NeutralTone::B, ToneVariant::Neutral), Interval::MajorSecond) is Some);
    assert(transposed(spelled(NeutralTone::C, ToneVariant::Neutral), Interval::MajorThird) is Some);
    assert(transposed(spelled(NeutralTone::D, ToneVariant::Flat), Interval::MajorThird) is Some);
    assert(transposed(spelled(NeutralTone::D, ToneVariant::Neutral), Interval::MajorThird) is Some);
    assert(transposed(spelled(NeutralTone::E, ToneVariant::Flat), Interval::MajorThird) is Some);
    assert(transposed(spelled(NeutralTone::E, ToneVariant::Neutral), Interval::MajorThird) is Some);
    assert(transposed(spelled(NeutralTone::F, ToneVariant::Neutral), Interval::MajorThird) is Some);
    assert(transposed(spelled(NeutralTone::F, ToneVariant::Sharp), Interval::MajorThird) is Some);
    assert(transposed(spelled(NeutralTone::G, ToneVariant::Flat), Interval::MajorThird) is Some);
    assert(transposed(spelled(NeutralTone::G, ToneVariant::Neutral), Interval::MajorThird) is Some);
    assert(transposed(spelled(NeutralTone::A, ToneVariant::Flat), Interval::MajorThird) is Some);
    assert(transposed(spelled(NeutralTone::A, ToneVariant::Neutral), Interval::MajorThird) is Some);
    assert(transposed(spelled(NeutralTone::B, ToneVariant::Flat), Interval::MajorThird) is Some);
    assert(transposed(spelled(NeutralTone::B, ToneVariant::Neutral), Interval::MajorThird) is Some);
    assert(transposed(spelled(NeutralTone::C, ToneVariant::Neutral), Interval::PerfectFourth) is Some);
    assert(transposed(spelled(NeutralTone::D, ToneVariant::Flat), Interval::PerfectFourth) is Some);
    assert(transposed(spelled(NeutralTone::D, ToneVariant::Neutral), Interval::PerfectFourth) is Some);
    assert(transposed(spelled(NeutralTone::E, ToneVariant::Flat), Interval::PerfectFourth) is Some);
    assert(transposed(spelled(NeutralTone::E, ToneVariant::Neutral), Interval::PerfectFourth) is Some);
    assert(transposed(spelled(NeutralTone::F, ToneVariant::Neutral), Interval::PerfectFourth) is Some);
    assert(transposed(spelled(NeutralTone::F, ToneVariant::Sharp), Interval::PerfectFourth) is Some);
    assert(transposed(spelled(NeutralTone::G, ToneVariant::Flat), Interval::PerfectFourth) is Some);
    assert(transposed(spelled(NeutralTone::G, ToneVariant::Neutral), Interval::PerfectFourth) is Some);
    assert(transposed(spelled(NeutralTone::A, ToneVariant::Flat), Interval::PerfectFourth) is Some);
    assert(transposed(spelled(NeutralTone::A, ToneVariant::Neutral), Interval::PerfectFourth) is Some);
    assert(transposed(spelled(NeutralTone::B, ToneVariant::Flat), Interval::PerfectFourth) is Some);
    assert(transposed(spelled(NeutralTone::B, ToneVariant::Neutral), Interval::PerfectFourth) is Some);
    assert(transposed(spelled(NeutralTone::C, ToneVariant::Neutral), Interval::PerfectFifth) is Some);
    assert(transposed(spelled(NeutralTone::D, ToneVariant::Flat), Interval::PerfectFifth) is Some);
    assert(transposed(spelled(NeutralTone::D, ToneVariant::Neutral), Interval::PerfectFifth) is Some);
    assert(transposed(spelled(NeutralTone::E, ToneVariant::Flat), Interval::PerfectFifth) is Some);
    assert(transposed(spelled(NeutralTone::E, ToneVariant::Neutral), Interval::PerfectFifth) is Some);
    assert(transposed(spelled(NeutralTone::F, ToneVariant::Neutral), Interval::PerfectFifth) is Some);
    assert(transposed(spelled(NeutralTone::F, ToneVariant::Sharp), Interval::PerfectFifth) is Some);
    assert(transposed(spelled(NeutralTone::G, ToneVariant::Flat), Interval::PerfectFifth) is Some);
    assert(transposed(spelled(NeutralTone::G, ToneVariant::Neutral), Interval::PerfectFifth) is Some);
    assert(transposed(spelled(NeutralTone::A, ToneVariant::Flat), Interval::PerfectFifth) is Some);
    assert(transposed(spelled(NeutralTone::A, ToneVariant::Neutral), Interval::PerfectFifth) is Some);
    assert(transposed(spelled(NeutralTone::B, ToneVariant::Flat), Interval::PerfectFifth) is Some);
    assert(transposed(spelled(NeutralTone::B, ToneVariant::Neutral), Interval::PerfectFifth) is Some);
    assert(transposed(spelled(NeutralTone::C, ToneVariant::Neutral), Interval::MajorSixth) is Some);
    assert(transposed(spelled(NeutralTone::D, ToneVariant::Flat), Interval::MajorSixth) is Some);
    assert(transposed(spelled(NeutralTone::D, ToneVariant::Neutral), Interval::MajorSixth) is Some);
    assert(transposed(spelled(NeutralTone::E, ToneVariant::Flat), Interval::MajorSixth) is Some);
    assert(transposed(spelled(NeutralTone::E, ToneVariant::Neutral), Interval::MajorSixth) is Some);
    assert(transposed(spelled(NeutralTone::F, ToneVariant::Neutral), Interval::MajorSixth) is Some);
    assert(transposed(spelled(NeutralTone::F, ToneVariant::Sharp), Interval::MajorSixth) is Some);
    assert(transposed(spelled(NeutralTone::G, ToneVariant::Flat), Interval::MajorSixth) is Some);
    assert(transposed(spelled(NeutralTone::G, ToneVariant::Neutral), Interval::MajorSixth) is Some);
    assert(transposed(spelled(NeutralTone::A, ToneVariant::Flat), Interval::MajorSixth) is Some);
    assert(transposed(spelled(NeutralTone::A, ToneVariant::Neutral), Interval::MajorSixth) is Some);
    assert(transposed(spelled(NeutralTone::B, ToneVariant::Flat), Interval::MajorSixth) is Some);
    assert(transposed(spelled(NeutralTone::B, ToneVariant::Neutral), Interval::MajorSixth) is Some);
    assert(transposed(spelled(NeutralTone::C, ToneVariant::Neutral), Interval::MajorSeventh) is Some);
    assert(transposed(spelled(NeutralTone::D, ToneVariant::Flat), Interval::MajorSeventh) is Some);
    assert(transposed(spelled(NeutralTone::D, ToneVariant::Neutral), Interval::MajorSeventh) is Some);
    assert(transposed(spelled(NeutralTone::E, ToneVariant::Flat), Interval::MajorSeventh) is Some);
    assert(transposed(spelled(NeutralTone::E, ToneVariant::Neutral), Interval::MajorSeventh) is Some);
    assert(transposed(spelled(NeutralTone::F, ToneVariant::Neutral), Interval::MajorSeventh) is Some);
    assert(transposed(spelled(NeutralTone::F, ToneVariant::Sharp), Interval::MajorSeventh) is Some);
    assert(transposed(spelled(NeutralTone::G, ToneVariant::Flat), Interval::MajorSeventh) is Some);
    assert(transposed(spelled(NeutralTone::G, ToneVariant::Neutral), Interval::MajorSeventh) is Some);
    assert(transposed(spelled(NeutralTone::A, ToneVariant::Flat), Interval::MajorSeventh) is Some);
    assert(transposed(spelled(NeutralTone::A, ToneVariant::Neutral), Interval::MajorSeventh) is Some);
    assert(transposed(spelled(NeutralTone::B, ToneVariant::Flat), Interval::MajorSeventh) is Some);
    assert(transposed(spelled(NeutralTone::B, ToneVariant::Neutral), Interval::MajorSeventh) is Some);
    assert(j == 0 || j == 1 || j == 2 || j == 3 || j == 4 || j == 5 || j == 6 || j == 7 || j == 8 || j == 9 || j == 10 || j == 11 || j == 12);
    assert(n == 1 || n == 2 || n == 3 || n == 4 || n == 5 || n == 6 || n == 7);
}

/// Every tonic of a mode's key table can be moved to each degree of the mode's scale.
pub proof fn lemma_table_scale(kt: KeyType, t: Tone, d: int)
    requires
        key_table(kt).contains(t),
        1 <= d <= 7,
    ensures
        transposed(t, kt.scale_interval(d)) is Some,
{
    let j = choose|j: int| 0 <= j < key_table(kt).len() && key_table(kt)[j] == t;
    assert(key_table(kt).len() == 13) by {
        reveal(key_table);
    }
    lemma_table_entry_moved(kt, j);
    lemma_circle_wf();
    let c = circle()[j];
    let a = kt.tonic_interval();
    let b = kt.scale_interval(d);
    let n = (kt.rank() + d - 1) % 7 + 1;
    let i = KeyType::Ionian.scale_interval(n);
    crate::tone::lemma_moved_compose(c, a.steps(), a.semitones(), b.steps(), b.semitones());
    lemma_rotation_sum(kt, d);
    crate::tone::lemma_moved_octave(c, i.steps(), i.semitones());
    lemma_circle_degree(j, n);
}

/// A mode's tonic interval is the Ionian degree at the mode's rank.
proof fn lemma_tonic_interval_ionian(kt: KeyType)
    ensures
        kt.tonic_interval() == KeyType::Ionian.scale_interval(kt.rank() + 1),
        0 <= kt.rank() <= 6,
{
    match kt {
        KeyType::Ionian => {},
        KeyType::Dorian => {},
        KeyType::Phrygian => {},
        KeyType::Lydian => {},
        KeyType::Mixolydian => {},
        KeyType::Aeolian => {},
        KeyType::Locrian => {},
    }
}

/// The mode at a rank has that rank.
proof fn lemma_mode_at_rank(r: int)
    requires
        0 <= r <= 6,
    ensures
        mode_at(r).rank() == r,
{
}

/// Degree `o + 1` of a key whose spelled tonic is entry `j` of its key table is tonic `j`
/// of the circle moved to an Ionian degree.
proof fn lemma_degree_via_circle(k: Key, o: int, j: int)
    requires
        k.wf(),
        0 <= o <= 6,
        0 <= j < 13,
        key_table(k.key_type)[j] == k.spelled_tonic(),
    ensures
        k.degree_tone(o + 1) == transposed(circle()[j], KeyType::Ionian.scale_interval((k.key_type.rank() + o) % 7 + 1)),
        k.degree_tone(o + 1) is Some,
{
    let kt = k.key_type;
    lemma_table_entry_moved(kt, j);
    lemma_circle_wf();
    let c = circle()[j];
    let a = kt.tonic_interval();
    let b = kt.scale_interval(o + 1);
    let n = (kt.rank() + o) % 7 + 1;
    let i = KeyType::Ionian.scale_interval(n);
    crate::tone::lemma_moved_compose(c, a.steps(), a.semitones(), b.steps(), b.semitones());
    lemma_rotation_sum(kt, o + 1);
    crate::tone::lemma_moved_octave(c, i.steps(), i.semitones());
    lemma_circle_degree(j, n);
}

/// Entry `j` of the key table of `kt` rotated by `o` is tonic `j` of the circle moved to an
/// Ionian degree.
proof fn lemma_rotated_entry(kt: KeyType, o: int, j: int)
    requires
        0 <= o <= 6,
        0 <= j < 13,
    ensures
        transposed(circle()[j], KeyType::Ionian.scale_interval((kt.rank() + o) % 7 + 1))
            == Some(key_table(kt.rotated(o))[j]),
{
    let rot = kt.rotated(o);
    lemma_tonic_interval_ionian(kt);
    lemma_mode_at_rank((kt.rank() + o) % 7);
    lemma_tonic_interval_ionian(rot);
    lemma_table_entry_moved(rot, j);
}

/// Every key table holds thirteen tonics.
proof fn lemma_key_table_len(kt: KeyType)
    ensures
        key_table(kt).len() == 13,
{
    reveal(key_table);
}

/// Degree `o + 1` of a key is a tonic of the key table of the key's mode rotated by `o`.
pub proof fn lemma_degree_in_rotated_table(k: Key, o: int)
    requires
        k.wf(),
        0 <= o <= 6,
    ensures
        k.degree_tone(o + 1) is Some,
        key_table(k.key_type.rotated(o)).contains(k.degree_tone(o + 1)->0),
{
    let kt = k.key_type;
    let rot = kt.rotated(o);
    lemma_key_table_covers(kt);
    lemma_respelled_exists(k.tonic, key_table(kt));
    lemma_key_table_len(kt);
    lemma_key_table_len(rot);
    let j = choose|j: int| 0 <= j < key_table(kt).len() && key_table(kt)[j] == k.spelled_tonic();
    lemma_degree_via_circle(k, o, j);
    lemma_rotated_entry(kt, o, j);
    let d = k.degree_tone(o + 1)->0;
    assert(key_table(rot)[j] == d);
    assert(key_table(rot).contains(d)) by {
        assert(0 <= j < key_table(rot).len());
    }
}

/// On every degree of every key, the chord of the degree's quality can be spelled: the
/// degree tone exists, and so do the third, fifth and seventh above its respelled root.
pub proof fn law_degree_chords_spell(k: Key, d: int)
    requires
        k.wf(),
        1 <= d <= 7,
    ensures
        k.degree_tone(d) is Some,
        spellable(
            respelled(k.degree_tone(d)->0, k.key_type.degree_quality(d).root_table()),
            k.key_type.degree_quality(d),
        ),
{
    let kt = k.key_type;
    lemma_key_table_covers(kt);
    lemma_respelled_exists(k.tonic, key_table(kt));
    lemma_table_scale(kt, k.spelled_tonic(), d);
    let u = k.degree_tone(d)->0;
    crate::tone::lemma_transposed_wf(k.spelled_tonic(), kt.scale_interval(d));
    let q = kt.degree_quality(d);
    let m = q.spelling_mode();
    assert(q != ChordType::Diminished7);
    lemma_key_table_covers(m);
    lemma_respelled_exists(u, key_table(m));
    let root = respelled(u, key_table(m));
    assert(q.structure() == (m.scale_interval(3), m.scale_interval(5), m.scale_interval(7)));
    lemma_table_scale(m, root, 3);
    lemma_table_scale(m, root, 5);
    lemma_table_scale(m, root, 7);
}

} // verus!
