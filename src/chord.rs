use vstd::prelude::*;

use crate::app::Difficulty;
use crate::key::{Key, KeyType};
use crate::random::{pick_weighted, total_weight};
use crate::tone::{
    diminished_table, key_table, lemma_diminished_table_covers, lemma_key_table_covers,
    lemma_respelled_exists, respelled, transposed, Interval, Tone,
};

verus! {

/// A chord could not be spelled: some transposition met a position that no letter with
/// at most one accidental reaches from the required letter. The contracts of this crate
/// show that none of its constructors returns it; it stays the error type of the
/// constructors that transpose.
#[derive(Debug, Clone, Copy, PartialEq, Eq, Structural)]
pub struct MissingSpelling;

/// One of the five seventh-chord qualities.
#[derive(Debug, Clone, Copy, PartialEq, Eq, Structural)]
pub enum ChordType {
    Major7,
    Minor7,
    Dominant7,
    HalfDiminished7,
    Diminished7,
}

impl ChordType {
    /// The mode whose key signature spells the root of a chord of this quality.
    pub open spec fn spelling_mode(self) -> KeyType {
        match self {
            ChordType::Major7 => KeyType::Ionian,
            ChordType::Minor7 => KeyType::Dorian,
            ChordType::Dominant7 => KeyType::Mixolydian,
            ChordType::HalfDiminished7 => KeyType::Locrian,
            ChordType::Diminished7 => KeyType::Ionian,
        }
    }

    /// The table whose spellings a root of this quality takes.
    pub open spec fn root_table(self) -> Seq<Tone> {
        if self == ChordType::Diminished7 {
            diminished_table()
        } else {
            key_table(self.spelling_mode())
        }
    }

    /// Intervals from the root to the third, the fifth and the seventh.
    pub open spec fn structure(self) -> (Interval, Interval, Interval) {
        match self {
            ChordType::Major7 => (Interval::MajorThird, Interval::PerfectFifth, Interval::MajorSeventh),
            ChordType::Minor7 => (Interval::MinorThird, Interval::PerfectFifth, Interval::MinorSeventh),
            ChordType::Dominant7 => (Interval::MajorThird, Interval::PerfectFifth, Interval::MinorSeventh),
            ChordType::HalfDiminished7 => (Interval::MinorThird, Interval::DiminishedFifth, Interval::MinorSeventh),
            ChordType::Diminished7 => (Interval::MinorThird, Interval::DiminishedFifth, Interval::MajorSixth),
        }
    }

    /// Intervals from the root of a chord of this quality up to the tonics of the major keys
    /// in which the chord is diatonic.
    pub open spec fn home_intervals(self) -> Seq<Interval> {
        match self {
            ChordType::Major7 => seq![Interval::PerfectUnison, Interval::PerfectFifth],
            ChordType::Minor7 => seq![Interval::MinorSeventh, Interval::MinorSixth, Interval::MinorThird],
            ChordType::Dominant7 => seq![Interval::PerfectFourth],
            ChordType::HalfDiminished7 => seq![Interval::MinorSecond],
            ChordType::Diminished7 => seq![
                Interval::MinorSecond,
                Interval::MajorThird,
                Interval::PerfectFifth,
                Interval::MinorSeventh,
            ],
        }
    }

    pub fn name(&self) -> (r: &'static str) {
        match self {
            ChordType::Major7 => "M7",
            ChordType::Minor7 => "m7",
            ChordType::Dominant7 => "7",
            ChordType::HalfDiminished7 => "m7b5",
            ChordType::Diminished7 => "dim7",
        }
    }
}

/// The order and doubling in which a chord's tones are played.
#[derive(Debug, Clone, Copy, PartialEq, Eq, Structural)]
pub enum Inversion {
    PianoOriginal,
    PianoFirst,
    PianoSecond,
    PianoThird,
    GuitarFirst,
    GuitarSecond,
    GuitarThird,
    GuitarFourth,
    GuitarFifth,
}

/// Weights of the voicings, in declaration order: keyboard voicings only, except for the
/// guitar difficulty, which draws string voicings only.
pub open spec fn inversion_weights(difficulty: Difficulty) -> Seq<u32> {
    if difficulty == Difficulty::Guitar {
        seq![0, 0, 0, 0, 1, 1, 1, 1, 1]
    } else {
        seq![1, 1, 1, 1, 0, 0, 0, 0, 0]
    }
}

impl Inversion {
    /// Position among the voicings, in declaration order.
    pub open spec fn rank(self) -> int {
        match self {
            Inversion::PianoOriginal => 0,
            Inversion::PianoFirst => 1,
            Inversion::PianoSecond => 2,
            Inversion::PianoThird => 3,
            Inversion::GuitarFirst => 4,
            Inversion::GuitarSecond => 5,
            Inversion::GuitarThird => 6,
            Inversion::GuitarFourth => 7,
            Inversion::GuitarFifth => 8,
        }
    }

    /// A keyboard voicing (as opposed to a string voicing).
    pub open spec fn is_keyboard(self) -> bool {
        self.rank() < 4
    }

    /// A voicing that `difficulty` may draw.
    pub open spec fn allowed(self, difficulty: Difficulty) -> bool {
        inversion_weights(difficulty)[self.rank()] > 0
    }

    pub fn weights(difficulty: Difficulty) -> (r: Vec<u32>)
        ensures
            r@ == inversion_weights(difficulty),
    {
        let r = match difficulty {
            Difficulty::Guitar => vec![0, 0, 0, 0, 1, 1, 1, 1, 1],
            _ => vec![1, 1, 1, 1, 0, 0, 0, 0, 0],
        };
        assert(r@ =~= inversion_weights(difficulty));
        r
    }

    /// The voicing at position `i` (0..=8).
    pub fn from_index(i: usize) -> (r: Inversion)
        requires
            i < 9,
        ensures
            r.rank() == i,
    {
        if i == 0 {
            Inversion::PianoOriginal
        } else if i == 1 {
            Inversion::PianoFirst
        } else if i == 2 {
            Inversion::PianoSecond
        } else if i == 3 {
            Inversion::PianoThird
        } else if i == 4 {
            Inversion::GuitarFirst
        } else if i == 5 {
            Inversion::GuitarSecond
        } else if i == 6 {
            Inversion::GuitarThird
        } else if i == 7 {
            Inversion::GuitarFourth
        } else {
            Inversion::GuitarFifth
        }
    }

    /// A voicing drawn at random among those `difficulty` allows.
    pub fn sample(difficulty: Difficulty) -> (r: Inversion)
        ensures
            r.allowed(difficulty),
    {
        let weights = Self::weights(difficulty);
        assert(total_weight(weights@) == 5 || total_weight(weights@) == 4) by {
            reveal_with_fuel(total_weight, 10);
        }
        let i = pick_weighted(&weights);
        Self::from_index(i)
    }

    pub fn name(&self) -> (r: &'static str) {
        match self {
            Inversion::PianoOriginal => "p/0",
            Inversion::PianoFirst => "p/1",
            Inversion::PianoSecond => "p/2",
            Inversion::PianoThird => "p/3",
            Inversion::GuitarFirst => "g/1",
            Inversion::GuitarSecond => "g/2",
            Inversion::GuitarThird => "g/3",
            Inversion::GuitarFourth => "g/4",
            Inversion::GuitarFifth => "g/5",
        }
    }
}

/// The tones of a chord from its root `r`, third `t`, fifth `f` and seventh `s`, in the
/// order of voicing `inv`.
pub open spec fn voicing(r: Tone, t: Tone, f: Tone, s: Tone, inv: Inversion) -> Seq<Tone> {
    match inv {
        Inversion::PianoOriginal => seq![r, t, f, s],
        Inversion::PianoFirst => seq![t, f, s, r],
        Inversion::PianoSecond => seq![f, s, r, t],
        Inversion::PianoThird => seq![s, r, t, f],
        Inversion::GuitarFirst => seq![r, f, s, t, f, r],
        Inversion::GuitarSecond => seq![f, r, f, s, t, f],
        Inversion::GuitarThird => seq![f, r, f, s, t],
        Inversion::GuitarFourth => seq![s, t, f, r, s],
        Inversion::GuitarFifth => seq![s, t, f, r, f],
    }
}

/// A voicing plays only the four given tones.
pub proof fn lemma_voicing_members(r: Tone, t: Tone, f: Tone, s: Tone, inv: Inversion)
    ensures
        forall|j: int| 0 <= j < voicing(r, t, f, s, inv).len() ==> {
            let x = #[trigger] voicing(r, t, f, s, inv)[j];
            x == r || x == t || x == f || x == s
        },
{
    let v = voicing(r, t, f, s, inv);
    assert forall|j: int| 0 <= j < v.len() implies {
        let x = #[trigger] v[j];
        x == r || x == t || x == f || x == s
    } by {
        match inv {
            Inversion::PianoOriginal => assert(j == 0 || j == 1 || j == 2 || j == 3),
            Inversion::PianoFirst => assert(j == 0 || j == 1 || j == 2 || j == 3),
            Inversion::PianoSecond => assert(j == 0 || j == 1 || j == 2 || j == 3),
            Inversion::PianoThird => assert(j == 0 || j == 1 || j == 2 || j == 3),
            Inversion::GuitarFirst => assert(j == 0 || j == 1 || j == 2 || j == 3 || j == 4 || j == 5),
            Inversion::GuitarSecond => assert(j == 0 || j == 1 || j == 2 || j == 3 || j == 4 || j == 5),
            Inversion::GuitarThird => assert(j == 0 || j == 1 || j == 2 || j == 3 || j == 4),
            Inversion::GuitarFourth => assert(j == 0 || j == 1 || j == 2 || j == 3 || j == 4),
            Inversion::GuitarFifth => assert(j == 0 || j == 1 || j == 2 || j == 3 || j == 4),
        }
    }
}

/// Every voicing plays each of the four tones at least once.
pub proof fn lemma_voicing_covers(r: Tone, t: Tone, f: Tone, s: Tone, inv: Inversion)
    ensures
        voicing(r, t, f, s, inv).contains(r),
        voicing(r, t, f, s, inv).contains(t),
        voicing(r, t, f, s, inv).contains(f),
        voicing(r, t, f, s, inv).contains(s),
{
    let v = voicing(r, t, f, s, inv);
    let (ir, it, i_f, is) = match inv {
        Inversion::PianoOriginal => (0int, 1int, 2int, 3int),
        Inversion::PianoFirst => (3, 0, 1, 2),
        Inversion::PianoSecond => (2, 3, 0, 1),
        Inversion::PianoThird => (1, 2, 3, 0),
        Inversion::GuitarFirst => (0, 3, 1, 2),
        Inversion::GuitarSecond => (1, 4, 0, 3),
        Inversion::GuitarThird => (1, 4, 0, 3),
        Inversion::GuitarFourth => (3, 1, 2, 0),
        Inversion::GuitarFifth => (3, 1, 2, 0),
    };
    assert(v[ir] == r && v[it] == t && v[i_f] == f && v[is] == s);
}

/// The root of quality `ct` and every interval of its structure can be spelled.
pub open spec fn spellable(root: Tone, ct: ChordType) -> bool {
    &&& transposed(root, ct.structure().0) is Some
    &&& transposed(root, ct.structure().1) is Some
    &&& transposed(root, ct.structure().2) is Some
}

/// The tones of the chord of quality `ct` on `root`, voiced by `inv`.
pub open spec fn chord_tones(root: Tone, ct: ChordType, inv: Inversion) -> Seq<Tone> {
    voicing(
        root,
        transposed(root, ct.structure().0)->0,
        transposed(root, ct.structure().1)->0,
        transposed(root, ct.structure().2)->0,
        inv,
    )
}

/// The root of the chord of quality `ct` built `i` above `t`, `t` first spelled as a root
/// of quality `from`.
pub open spec fn approach_root(t: Tone, from: ChordType, i: Interval, ct: ChordType) -> Option<Tone> {
    match transposed(respelled(t, from.root_table()), i) {
        Some(u) => Some(respelled(u, ct.root_table())),
        None => None,
    }
}

/// The chord that `Chord::new` builds from a root of `approach_root(t, from, i, ct)`:
/// `c` is it, or (for `None`) no such chord can be spelled.
pub open spec fn approached(t: Tone, from: ChordType, i: Interval, ct: ChordType, r: Result<Chord, MissingSpelling>) -> bool {
    match r {
        Ok(c) => {
            &&& c.wf()
            &&& c.chord_type == ct
            &&& approach_root(t, from, i, ct) == Some(c.tonic)
        },
        Err(_) => approach_root(t, from, i, ct) is None || !spellable(approach_root(t, from, i, ct)->0, ct),
    }
}

/// The major key on the tonic `i` above `t`, `t` spelled as the lower note of `i`.
pub open spec fn home_key(t: Tone, i: Interval) -> Option<Key> {
    match transposed(respelled(t, key_table(i.spelling_mode())), i) {
        Some(u) => Some(Key { tonic: respelled(u, key_table(KeyType::Ionian)), key_type: KeyType::Ionian }),
        None => None,
    }
}

/// Every pitch, respelled as a root of quality `ct`, carries a chord of that quality that
/// can be spelled.
pub proof fn lemma_root_spellable(t: Tone, ct: ChordType)
    requires
        t.wf(),
    ensures
        spellable(respelled(t, ct.root_table()), ct),
{
    let table = ct.root_table();
    if ct == ChordType::Diminished7 {
        lemma_diminished_table_covers();
        lemma_respelled_exists(t, table);
        crate::tone::lemma_diminished_steps(respelled(t, table));
    } else {
        let m = ct.spelling_mode();
        lemma_key_table_covers(m);
        lemma_respelled_exists(t, table);
        let root = respelled(t, table);
        assert(ct.structure() == (m.scale_interval(3), m.scale_interval(5), m.scale_interval(7)));
        crate::key::lemma_table_scale(m, root, 3);
        crate::key::lemma_table_scale(m, root, 5);
        crate::key::lemma_table_scale(m, root, 7);
    }
}

/// A pitch spelled as the lower note of a home interval can be moved up by it: each home
/// interval is a degree of the scale whose signature spells its lower note.
pub proof fn lemma_home_step(t: Tone, ct: ChordType, j: int)
    requires
        t.wf(),
        0 <= j < ct.home_intervals().len(),
    ensures
        ({
            let i = ct.home_intervals()[j];
            transposed(respelled(t, key_table(i.spelling_mode())), i) is Some
        }),
{
    let i = ct.home_intervals()[j];
    let m = i.spelling_mode();
    lemma_key_table_covers(m);
    lemma_respelled_exists(t, key_table(m));
    let u = respelled(t, key_table(m));
    let d: int = match i {
        Interval::PerfectUnison => 1,
        Interval::MinorSecond => 2,
        Interval::MinorThird | Interval::MajorThird => 3,
        Interval::PerfectFourth => 4,
        Interval::PerfectFifth => 5,
        Interval::MinorSixth => 6,
        _ => 7,
    };
    assert(i == m.scale_interval(d));
    crate::key::lemma_table_scale(m, u, d);
}

/// A root, a quality, a voicing, and the tones they determine.
#[derive(Debug)]
pub struct Chord {
    pub tonic: Tone,
    pub chord_type: ChordType,
    pub inversion: Inversion,
    pub tones: Vec<Tone>,
}

impl Chord {
    /// The root is spelled for the quality, and the tones are those of root, quality and
    /// voicing.
    pub open spec fn wf(&self) -> bool {
        &&& self.tonic.wf()
        &&& self.tonic == respelled(self.tonic, self.chord_type.root_table())
        &&& spellable(self.tonic, self.chord_type)
        &&& self.tones@ == chord_tones(self.tonic, self.chord_type, self.inversion)
    }

    /// The chord of quality `chord_type` on `tonic` (respelled for the quality), voiced by
    /// `inversion`; an error where some tone cannot be spelled.
    pub fn new(tonic: Tone, chord_type: ChordType, inversion: Inversion) -> (r: Result<Chord, MissingSpelling>)
        requires
            tonic.wf(),
        ensures
            ({
                let root = respelled(tonic, chord_type.root_table());
                match r {
                    Ok(c) => {
                        &&& c.wf()
                        &&& c.tonic == root
                        &&& c.chord_type == chord_type
                        &&& c.inversion == inversion
                    },
                    Err(_) => !spellable(root, chord_type),
                }
            }),
            r is Ok,
    {
        proof {
            lemma_root_spellable(tonic, chord_type);
        }
        let root = match chord_type {
            ChordType::Diminished7 => tonic.rematch_diminished(),
            _ => tonic.rematch_chord(&chord_type),
        };
        proof {
            if chord_type == ChordType::Diminished7 {
                crate::tone::lemma_diminished_table_covers();
            } else {
                crate::tone::lemma_key_table_covers(chord_type.spelling_mode());
            }
            crate::tone::lemma_respelled_exists(tonic, chord_type.root_table());
            crate::tone::lemma_respelled_exists(root, chord_type.root_table());
            crate::tone::lemma_respelling_unique(root, respelled(root, chord_type.root_table()), root, chord_type.root_table());
        }
        let (i3, i5, i7) = match chord_type {
            ChordType::Major7 => (Interval::MajorThird, Interval::PerfectFifth, Interval::MajorSeventh),
            ChordType::Minor7 => (Interval::MinorThird, Interval::PerfectFifth, Interval::MinorSeventh),
            ChordType::Dominant7 => (Interval::MajorThird, Interval::PerfectFifth, Interval::MinorSeventh),
            ChordType::HalfDiminished7 => (Interval::MinorThird, Interval::DiminishedFifth, Interval::MinorSeventh),
            ChordType::Diminished7 => (Interval::MinorThird, Interval::DiminishedFifth, Interval::MajorSixth),
        };
        let third = match root.checked_add_interval(i3) {
            Some(t) => t,
            None => { return Err(MissingSpelling); },
        };
        let fifth = match root.checked_add_interval(i5) {
            Some(t) => t,
            None => { return Err(MissingSpelling); },
        };
        let seventh = match root.checked_add_interval(i7) {
            Some(t) => t,
            None => { return Err(MissingSpelling); },
        };
        let tones = match inversion {
            Inversion::PianoOriginal => vec![root, third, fifth, seventh],
            Inversion::PianoFirst => vec![third, fifth, seventh, root],
            Inversion::PianoSecond => vec![fifth, seventh, root, third],
            Inversion::PianoThird => vec![seventh, root, third, fifth],
            Inversion::GuitarFirst => vec![root, fifth, seventh, third, fifth, root],
            Inversion::GuitarSecond => vec![fifth, root, fifth, seventh, third, fifth],
            Inversion::GuitarThird => vec![fifth, root, fifth, seventh, third],
            Inversion::GuitarFourth => vec![seventh, third, fifth, root, seventh],
            Inversion::GuitarFifth => vec![seventh, third, fifth, root, fifth],
        };
        assert(tones@ =~= chord_tones(root, chord_type, inversion));
        Ok(Chord { tonic: root, chord_type, inversion, tones })
    }

    /// A diminished seventh chord on this chord's root.
    pub fn gen_diminished(&self, difficulty: Difficulty) -> (r: Result<Chord, MissingSpelling>)
        requires
            self.wf(),
        ensures
            match r {
                Ok(c) => {
                    &&& c.wf()
                    &&& c.chord_type == ChordType::Diminished7
                    &&& c.tonic == respelled(self.tonic, diminished_table())
                    &&& c.inversion.allowed(difficulty)
                },
                Err(_) => !spellable(respelled(self.tonic, diminished_table()), ChordType::Diminished7),
            },
            r is Ok,
    {
        let matched_tonic = self.tonic.rematch_diminished();
        proof {
            lemma_diminished_table_covers();
            crate::tone::lemma_respelled_idempotent(self.tonic, diminished_table());
        }
        Chord::new(matched_tonic, ChordType::Diminished7, Inversion::sample(difficulty))
    }

    /// The dominant seventh chord a perfect fifth above this chord's root.
    pub fn gen_secondary_dominant(&self, difficulty: Difficulty) -> (r: Result<Chord, MissingSpelling>)
        requires
            self.wf(),
        ensures
            approached(self.tonic, ChordType::Dominant7, Interval::PerfectFifth, ChordType::Dominant7, r),
            r matches Ok(c) ==> c.inversion.allowed(difficulty),
            r is Ok,
    {
        self.approach(ChordType::Dominant7, Interval::PerfectFifth, difficulty)
    }

    /// The dominant seventh chord a major second above this chord's root: the tritone
    /// substitute of the secondary dominant.
    pub fn gen_substitute_sd(&self, difficulty: Difficulty) -> (r: Result<Chord, MissingSpelling>)
        requires
            self.wf(),
        ensures
            approached(self.tonic, ChordType::Dominant7, Interval::MajorSecond, ChordType::Dominant7, r),
            r matches Ok(c) ==> c.inversion.allowed(difficulty),
            r is Ok,
    {
        self.approach(ChordType::Dominant7, Interval::MajorSecond, difficulty)
    }

    /// The minor seventh chord a perfect fifth above this chord's root: the "ii" before a
    /// "V" on this root.
    pub fn gen_second_minor(&self, difficulty: Difficulty) -> (r: Result<Chord, MissingSpelling>)
        requires
            self.wf(),
        ensures
            approached(self.tonic, ChordType::Minor7, Interval::PerfectFifth, ChordType::Minor7, r),
            r matches Ok(c) ==> c.inversion.allowed(difficulty),
            r is Ok,
    {
        self.approach(ChordType::Minor7, Interval::PerfectFifth, difficulty)
    }

    /// The chord of quality `chord_type` on the root `interval` above this chord's root,
    /// the root first spelled for `chord_type`.
    fn approach(&self, chord_type: ChordType, interval: Interval, difficulty: Difficulty) -> (r: Result<Chord, MissingSpelling>)
        requires
            self.wf(),
            (chord_type == ChordType::Dominant7 && (interval == Interval::PerfectFifth || interval == Interval::MajorSecond))
                || (chord_type == ChordType::Minor7 && interval == Interval::PerfectFifth),
        ensures
            approached(self.tonic, chord_type, interval, chord_type, r),
            r matches Ok(c) ==> c.inversion.allowed(difficulty),
            r is Ok,
    {
        let matched_tonic = self.tonic.rematch_chord(&chord_type);
        proof {
            let m = chord_type.spelling_mode();
            lemma_key_table_covers(m);
            lemma_respelled_exists(self.tonic, key_table(m));
            if interval == Interval::MajorSecond {
                crate::key::lemma_table_scale(m, matched_tonic, 2);
            } else {
                crate::key::lemma_table_scale(m, matched_tonic, 5);
            }
        }
        let root = match matched_tonic.checked_add_interval(interval) {
            Some(t) => t,
            None => {
                return Err(MissingSpelling);
            },
        };
        Chord::new(root, chord_type, Inversion::sample(difficulty))
    }

    /// The Ionian keys in which this chord is diatonic, one for each of its quality's home
    /// intervals.
    pub fn gen_major_keys(&self) -> (r: Result<Vec<Key>, MissingSpelling>)
        requires
            self.wf(),
        ensures
            match r {
                Ok(keys) => {
                    &&& keys@.len() == self.chord_type.home_intervals().len()
                    &&& forall|j: int| 0 <= j < keys@.len()
                        ==> home_key(self.tonic, self.chord_type.home_intervals()[j]) == Some(#[trigger] keys@[j])
                },
                Err(_) => exists|j: int| 0 <= j < self.chord_type.home_intervals().len()
                    && home_key(self.tonic, #[trigger] self.chord_type.home_intervals()[j]) is None,
            },
            r matches Ok(keys) ==> forall|j: int| 0 <= j < keys@.len() ==> (#[trigger] keys@[j]).wf(),
            r is Ok,
    {
        let int_tonic_vec: Vec<Interval> = match self.chord_type {
            ChordType::Major7 => vec![Interval::PerfectUnison, Interval::PerfectFifth],
            ChordType::Minor7 => vec![Interval::MinorSeventh, Interval::MinorSixth, Interval::MinorThird],
            ChordType::Dominant7 => vec![Interval::PerfectFourth],
            ChordType::HalfDiminished7 => vec![Interval::MinorSecond],
            ChordType::Diminished7 => vec![
                Interval::MinorSecond,
                Interval::MajorThird,
                Interval::PerfectFifth,
                Interval::MinorSeventh,
            ],
        };
        assert(int_tonic_vec@ =~= self.chord_type.home_intervals());
        let mut keys: Vec<Key> = Vec::new();
        let mut j: usize = 0;
        while j < int_tonic_vec.len()
            invariant
                self.wf(),
                int_tonic_vec@ == self.chord_type.home_intervals(),
                j <= int_tonic_vec@.len(),
                keys@.len() == j,
                forall|k: int| 0 <= k < j ==> home_key(self.tonic, int_tonic_vec@[k]) == Some(#[trigger] keys@[k]),
                forall|k: int| 0 <= k < j ==> (#[trigger] keys@[k]).wf(),
            decreases int_tonic_vec@.len() - j,
        {
            let int_tonic = int_tonic_vec[j];
            let matched_tonic = self.tonic.rematch_interval(&int_tonic);
            proof {
                lemma_key_table_covers(int_tonic.spelling_mode());
                lemma_home_step(self.tonic, self.chord_type, j as int);
            }
            let new_tonic = match matched_tonic.checked_add_interval(int_tonic) {
                Some(t) => t,
                None => {
                    assert(home_key(self.tonic, int_tonic_vec@[j as int]) is None);
                    return Err(MissingSpelling);
                },
            };
            keys.push(Key::new(new_tonic, KeyType::Ionian));
            j += 1;
        }
        Ok(keys)
    }

    /// A copy of this chord.
    pub fn duplicate(&self) -> (r: Chord)
        ensures
            r.tonic == self.tonic,
            r.chord_type == self.chord_type,
            r.inversion == self.inversion,
            r.tones@ == self.tones@,
    {
        let tones = self.tones.clone();
        assert(tones@ =~= self.tones@);
        Chord { tonic: self.tonic, chord_type: self.chord_type, inversion: self.inversion, tones }
    }

    /// Every tone of a well-formed chord is well formed.
    pub proof fn lemma_tones_wf(&self)
        requires
            self.wf(),
        ensures
            forall|j: int| 0 <= j < self.tones@.len() ==> (#[trigger] self.tones@[j]).wf(),
    {
        let s = self.chord_type.structure();
        crate::tone::lemma_transposed_wf(self.tonic, s.0);
        crate::tone::lemma_transposed_wf(self.tonic, s.1);
        crate::tone::lemma_transposed_wf(self.tonic, s.2);
        lemma_voicing_members(
            self.tonic,
            transposed(self.tonic, s.0)->0,
            transposed(self.tonic, s.1)->0,
            transposed(self.tonic, s.2)->0,
            self.inversion,
        );
    }

    /// The chromatic positions of the tones, in playing order.
    pub fn pitch_classes(&self) -> (r: Vec<u8>)
        requires
            self.wf(),
        ensures
            r@ == crate::play::chord_classes(*self),
            forall|j: int| 0 <= j < r@.len() ==> r@[j] as int == (#[trigger] self.tones@[j]).idx as int,
    {
        proof {
            self.lemma_tones_wf();
        }
        let mut r: Vec<u8> = Vec::new();
        let mut j: usize = 0;
        while j < self.tones.len()
            invariant
                j <= self.tones@.len(),
                r@.len() == j,
                forall|k: int| 0 <= k < self.tones@.len() ==> (#[trigger] self.tones@[k]).wf(),
                forall|k: int| 0 <= k < j ==> r@[k] as int == (#[trigger] self.tones@[k]).idx as int,
            decreases self.tones@.len() - j,
        {
            let t = self.tones[j];
            proof {
                crate::tone::lemma_spellings_of(t);
            }
            r.push(t.idx as u8);
            j += 1;
        }
        assert(r@ =~= crate::play::chord_classes(*self));
        r
    }
}

/// The pitch classes (0..=11) of a sequence of tones.
pub open spec fn classes_mod12(tones: Seq<Tone>) -> Seq<int> {
    tones.map_values(|t: Tone| t.idx as int % 12)
}

/// A sequence made of four tones, each of which occurs, has the pitch classes of the four.
proof fn lemma_classes_of_four(v: Seq<Tone>, r: Tone, t: Tone, f: Tone, s: Tone)
    requires
        forall|j: int| 0 <= j < v.len() ==> {
            let x = #[trigger] v[j];
            x == r || x == t || x == f || x == s
        },
        v.contains(r),
        v.contains(t),
        v.contains(f),
        v.contains(s),
    ensures
        classes_mod12(v).to_set() == set![
            r.idx as int % 12,
            t.idx as int % 12,
            f.idx as int % 12,
            s.idx as int % 12,
        ],
{
    let pcs = classes_mod12(v);
    let want = set![r.idx as int % 12, t.idx as int % 12, f.idx as int % 12, s.idx as int % 12];
    assert forall|x: int| pcs.to_set().contains(x) <==> want.contains(x) by {
        if pcs.to_set().contains(x) {
            let j = choose|j: int| 0 <= j < pcs.len() && pcs[j] == x;
            assert(v[j] == r || v[j] == t || v[j] == f || v[j] == s);
        }
        if want.contains(x) {
            let u = if x == r.idx as int % 12 {
                r
            } else if x == t.idx as int % 12 {
                t
            } else if x == f.idx as int % 12 {
                f
            } else {
                s
            };
            let j = choose|j: int| 0 <= j < v.len() && v[j] == u;
            assert(pcs[j] == x);
        }
    }
    assert(pcs.to_set() =~= want);
}

/// The pitch classes of a chord's tones are those of its root, third, fifth and seventh.
proof fn lemma_chord_classes(c: Chord)
    requires
        c.wf(),
    ensures
        classes_mod12(c.tones@).to_set() == set![
            c.tonic.idx as int % 12,
            (c.tonic.idx + c.chord_type.structure().0.semitones()) % 12,
            (c.tonic.idx + c.chord_type.structure().1.semitones()) % 12,
            (c.tonic.idx + c.chord_type.structure().2.semitones()) % 12,
        ],
{
    let st = c.chord_type.structure();
    let r = c.tonic;
    let t = transposed(r, st.0)->0;
    let f = transposed(r, st.1)->0;
    let s = transposed(r, st.2)->0;
    crate::tone::lemma_transposed_class(r, st.0);
    crate::tone::lemma_transposed_class(r, st.1);
    crate::tone::lemma_transposed_class(r, st.2);
    assert(c.tones@ == voicing(r, t, f, s, c.inversion));
    lemma_voicing_members(r, t, f, s, c.inversion);
    lemma_voicing_covers(r, t, f, s, c.inversion);
    lemma_classes_of_four(c.tones@, r, t, f, s);
}

/// Keyboard voicings play four tones, string voicings five or six;
/// in every voicing the pitch classes are those of the root, third, fifth and seventh.
pub proof fn law_chord_tone_count(c: Chord)
    requires
        c.wf(),
    ensures
        c.inversion.is_keyboard() ==> c.tones@.len() == 4,
        !c.inversion.is_keyboard() ==> c.tones@.len() == 5 || c.tones@.len() == 6,
        classes_mod12(c.tones@).to_set() == set![
            c.tonic.idx as int % 12,
            (c.tonic.idx + c.chord_type.structure().0.semitones()) % 12,
            (c.tonic.idx + c.chord_type.structure().1.semitones()) % 12,
            (c.tonic.idx + c.chord_type.structure().2.semitones()) % 12,
        ],
{
    lemma_chord_classes(c);
}

} // verus!
