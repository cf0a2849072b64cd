use vstd::prelude::*;

use crate::chord::{home_key, Chord, ChordType, Inversion, MissingSpelling};
use crate::key::{mode_weights, Key, KeyType};
use crate::modulation::{DeTour, Modulation};
use crate::random::random_below;
use crate::tone::{diminished_table, key_table, respelled};

verus! {

/// The game's difficulty, chosen once per run.
#[derive(Debug, Clone, Copy, PartialEq, Eq, Structural)]
pub enum Difficulty {
    Easy,
    Hell,
    Guitar,
}

impl Difficulty {
    pub fn name(&self) -> (r: &'static str) {
        match self {
            Difficulty::Easy => "easy",
            Difficulty::Hell => "hell",
            Difficulty::Guitar => "guitar",
        }
    }
}

/// Timing and modulation settings of a run.
#[derive(Debug, Clone, Copy, PartialEq, Eq, Structural)]
pub struct AppEnv {
    /// Length of the whole session, in seconds.
    pub total_time: u64,
    /// Time allowed for one measure, in seconds.
    pub sleep_time: u64,
    /// Most measures in a session.
    pub total_iteration: u32,
    /// Measures in one key before a modulation may be drawn.
    pub modulation_threshold: u32,
}

/// The settings of each difficulty.
pub open spec fn env_of(difficulty: Difficulty) -> AppEnv {
    AppEnv {
        total_time: 120,
        sleep_time: 15,
        total_iteration: 100,
        modulation_threshold: if difficulty == Difficulty::Easy { 10 } else { 4 },
    }
}

impl AppEnv {
    pub fn new(difficulty: &Difficulty) -> (r: AppEnv)
        ensures
            r == env_of(*difficulty),
    {
        match difficulty {
            Difficulty::Easy => AppEnv { total_time: 120, sleep_time: 15, total_iteration: 100, modulation_threshold: 10 },
            Difficulty::Hell => AppEnv { total_time: 120, sleep_time: 15, total_iteration: 100, modulation_threshold: 4 },
            Difficulty::Guitar => AppEnv { total_time: 120, sleep_time: 15, total_iteration: 100, modulation_threshold: 4 },
        }
    }
}

/// Number of entries of the scale-degree walk.
pub const WALK_LEN: usize = 40;

/// The scale-degree walk that the progression cursor moves along.
pub open spec fn walk() -> Seq<i8> {
    seq![
        1, 3, 1, 4, 2, 5, 6, 3, 7, 1, 4, 5, 3, 2, 4, 7, 6, 5, 6, 1,
        7, 6, 2, 4, 5, 1, 5, 3, 6, 7, 3, 4, 2, 1, 6, 2, 7, 3, 5, 1,
    ]
}

/// Every entry of `w` is a scale degree (1..=7).
pub open spec fn degrees_only(w: Seq<i8>) -> bool {
    forall|j: int| 0 <= j < w.len() ==> 1 <= #[trigger] w[j] <= 7
}

/// The cursor after `i` on a walk of `len` entries: one step on, wrapping with modulus
/// `len - 1`, so that index 0 is left behind once passed.
pub open spec fn next_cursor(i: int, len: int) -> int {
    if i + 1 > len - 1 {
        (i + 1) % (len - 1)
    } else {
        i + 1
    }
}

/// The cursor after `i` on the walk of `WALK_LEN` entries.
pub fn next_cursor_of(i: usize) -> (r: usize)
    requires
        i < WALK_LEN,
    ensures
        r == next_cursor(i as int, WALK_LEN as int),
        r < WALK_LEN,
{
    let mut r = i + 1;
    if r > WALK_LEN - 1 {
        r = r % (WALK_LEN - 1);
    }
    r
}

pub fn scale_walk() -> (r: Vec<i8>)
    ensures
        r@ == walk(),
        r@.len() == WALK_LEN,
        degrees_only(r@),
{
    let r = vec![
        1, 3, 1, 4, 2, 5, 6, 3, 7, 1, 4, 5, 3, 2, 4, 7, 6, 5, 6, 1,
        7, 6, 2, 4, 5, 1, 5, 3, 6, 7, 3, 4, 2, 1, 6, 2, 7, 3, 5, 1,
    ];
    assert(r@ =~= walk());
    r
}

/// `c` is the seventh chord on degree `d` of `k`, in some voicing.
pub open spec fn is_degree_chord(k: Key, d: int, c: Chord) -> bool {
    let q = k.key_type.degree_quality(d);
    &&& c.wf()
    &&& c.chord_type == q
    &&& k.degree_tone(d) is Some
    &&& c.tonic == respelled(k.degree_tone(d)->0, q.root_table())
}

/// `v` is the chord on degree `d` of `k`, followed by the approach chords of some detour.
pub open spec fn is_measure(k: Key, d: int, v: Seq<Chord>) -> bool {
    &&& v.len() >= 1
    &&& is_degree_chord(k, d, v[0])
    &&& exists|t: DeTour| #[trigger] t.builds(v[0], v)
    &&& forall|j: int| 0 <= j < v.len() ==> (#[trigger] v[j]).wf()
}

/// One side of the progression: a cursor on the walk, the chords of a measure, the key,
/// and how many measures in a row the key has been kept.
#[derive(Debug)]
pub struct Status {
    pub ss_idx: usize,
    pub chords: Vec<Chord>,
    pub key: Key,
    pub key_iteration: u32,
}

impl Status {
    pub open spec fn wf(&self, walk_len: int) -> bool {
        &&& self.ss_idx < walk_len
        &&& self.chords@.len() >= 1
        &&& forall|j: int| 0 <= j < self.chords@.len() ==> (#[trigger] self.chords@[j]).wf()
        &&& self.key.wf()
    }
}

/// The progression: the measure being played (`current`), the one shown next (`next`),
/// the key before the current one, and the score.
#[derive(Debug)]
pub struct App {
    pub difficulty: Difficulty,
    pub env: AppEnv,
    pub score: u64,
    pub ss: Vec<i8>,
    pub previous_key: Key,
    pub current: Status,
    pub modulation: Modulation,
    pub next: Status,
}

/// `a` and `b` are the same chord.
pub open spec fn same_chord(a: Chord, b: Chord) -> bool {
    &&& a.tonic == b.tonic
    &&& a.chord_type == b.chord_type
    &&& a.inversion == b.inversion
    &&& a.tones@ == b.tones@
}

/// `n + 1`, held at `u32::MAX`.
pub open spec fn saturating_inc(n: u32) -> u32 {
    if n == u32::MAX { n } else { (n + 1) as u32 }
}

/// The key that `ViaSharedChord` or `ViaDiminished` may reach from a chord on `root` of
/// quality `ct`: one of its home keys, moved to one of its modes.
pub open spec fn reachable_key(root: crate::tone::Tone, ct: ChordType, k: Key) -> bool {
    exists|j: int, o: int|
        0 <= j < ct.home_intervals().len() && 0 <= o < 7
        && home_key(root, ct.home_intervals()[j]) is Some
        && #[trigger] home_key(root, ct.home_intervals()[j])->0.mode_changed(o) == Some(k)
}

impl App {
    pub open spec fn wf(&self) -> bool {
        &&& self.ss@.len() == WALK_LEN
        &&& degrees_only(self.ss@)
        &&& self.current.wf(self.ss@.len() as int)
        &&& self.next.wf(self.ss@.len() as int)
        &&& self.current.chords@.len() == 1
        &&& self.previous_key.wf()
        &&& self.env == env_of(self.difficulty)
    }

    /// What a step leaves alone.
    pub open spec fn keeps_setup(&self, other: &App) -> bool {
        &&& other.difficulty == self.difficulty
        &&& other.env == self.env
        &&& other.score == self.score
        &&& other.ss@ == self.ss@
        &&& other.modulation == self.modulation
    }

    /// `next` became `current` (the step of every modulation but `SameKey`).
    pub open spec fn shifted(&self, other: &App) -> bool {
        &&& other.previous_key == self.current.key
        &&& other.current.key == self.next.key
        &&& same_chord(other.current.chords@[0], self.next.chords@[0])
        &&& other.current.key_iteration == self.next.key_iteration
        &&& other.next.key_iteration == 1
        &&& other.current.ss_idx == self.next.ss_idx
    }

    /// `other` is this progression one measure on, by modulation `m`.
    pub open spec fn stepped(&self, other: &App, m: Modulation) -> bool {
        let n = &other.next;
        let measure_ok = is_measure(n.key, other.ss@[n.ss_idx as int] as int, n.chords@);
        &&& self.keeps_setup(other)
        &&& other.wf()
        &&& match m {
            Modulation::SameKey => {
                &&& other.previous_key == self.previous_key
                &&& other.current.key == self.next.key
                &&& same_chord(other.current.chords@[0], self.next.chords@[0])
                &&& other.current.key_iteration == self.next.key_iteration
                &&& n.key_iteration == saturating_inc(self.next.key_iteration)
                &&& other.current.ss_idx == self.next.ss_idx
                &&& n.ss_idx == next_cursor(self.next.ss_idx as int, WALK_LEN as int)
                &&& n.key == self.next.key
                &&& measure_ok
            },
            Modulation::ViaTonic => {
                &&& self.shifted(other)
                &&& n.key.tonic == respelled(self.next.key.tonic, key_table(n.key.key_type))
                &&& mode_weights(self.difficulty)[n.key.key_type.rank()] > 0
                &&& measure_ok
            },
            Modulation::ViaSharedChord => {
                &&& self.shifted(other)
                &&& reachable_key(self.next.chords@[0].tonic, self.next.chords@[0].chord_type, n.key)
                &&& measure_ok
            },
            Modulation::ViaDiminished => {
                let pivot = respelled(self.next.chords@[0].tonic, diminished_table());
                &&& self.shifted(other)
                &&& reachable_key(pivot, ChordType::Diminished7, n.key)
                &&& n.ss_idx == 1
                &&& n.chords@.len() == 3
                &&& is_degree_chord(n.key, 1, n.chords@[0])
                &&& is_degree_chord(n.key, 5, n.chords@[1])
                &&& n.chords@[2].chord_type == ChordType::Diminished7
                &&& n.chords@[2].tonic == pivot
            },
            Modulation::Back => {
                &&& self.shifted(other)
                &&& n.key == self.previous_key
                &&& measure_ok
            },
        }
    }

    /// The chord on the degree at `idx` of the walk in `key`, with a random detour.
    fn measure(key: &Key, ss: &Vec<i8>, idx: usize, difficulty: Difficulty) -> (r: Result<Vec<Chord>, MissingSpelling>)
        requires
            key.wf(),
            idx < ss@.len(),
            degrees_only(ss@),
        ensures
            r matches Ok(v) ==> is_measure(*key, ss@[idx as int] as int, v@),
            r is Ok,
    {
        let target = key.gen_chord(ss[idx], difficulty)?;
        let detour = DeTour::sample(difficulty);
        let r = detour.build_chords(target, difficulty);
        proof {
            if r is Ok {
                assert(detour.builds(r->Ok_0@[0], r->Ok_0@));
            }
        }
        r
    }

    /// A new progression: a random key, a random place on the walk, and the measure after.
    pub fn new(difficulty: Difficulty) -> (r: Result<App, MissingSpelling>)
        ensures
            r is Ok,
            r matches Ok(app) ==> {
                &&& app.wf()
                &&& app.difficulty == difficulty
                &&& app.env == env_of(difficulty)
                &&& app.score == 0
                &&& app.ss@ == walk()
                &&& app.modulation == Modulation::SameKey
                &&& mode_weights(difficulty)[app.current.key.key_type.rank()] > 0
                &&& app.previous_key == app.current.key
                &&& app.next.key == app.current.key
                &&& app.current.key_iteration == 1
                &&& app.next.key_iteration == 2
                &&& is_degree_chord(app.current.key, app.ss@[app.current.ss_idx as int] as int, app.current.chords@[0])
                &&& app.next.ss_idx == next_cursor(app.current.ss_idx as int, WALK_LEN as int)
                &&& is_measure(app.next.key, app.ss@[app.next.ss_idx as int] as int, app.next.chords@)
            },
    {
        let env = AppEnv::new(&difficulty);
        let ss = scale_walk();
        let current_key = Key::sample(difficulty)?;
        let current_ss_idx = random_below(WALK_LEN);
        let current_chord = current_key.gen_chord(ss[current_ss_idx], difficulty)?;
        let next_ss_idx = next_cursor_of(current_ss_idx);
        let next_chords = Self::measure(&current_key, &ss, next_ss_idx, difficulty)?;
        let current_chords = vec![current_chord];
        Ok(App {
            difficulty,
            env,
            score: 0,
            ss,
            previous_key: current_key,
            current: Status { ss_idx: current_ss_idx, chords: current_chords, key: current_key, key_iteration: 1 },
            modulation: Modulation::SameKey,
            next: Status { ss_idx: next_ss_idx, chords: next_chords, key: current_key, key_iteration: 2 },
        })
    }

    /// Makes `next` the `current` status.
    fn status_next_to_current(&mut self)
        requires
            old(self).wf(),
        ensures
            old(self).shifted(final(self)),
            old(self).keeps_setup(final(self)),
            final(self).current.chords@.len() == 1,
            final(self).current.chords@[0].wf(),
            final(self).current.key.wf(),
            final(self).previous_key.wf(),
            final(self).next.ss_idx == old(self).next.ss_idx,
            final(self).next.chords@ == old(self).next.chords@,
            final(self).next.key == old(self).next.key,
    {
        self.previous_key = self.current.key;
        self.current.key = self.next.key;
        self.current.chords = vec![self.next.chords[0].duplicate()];
        self.current.key_iteration = self.next.key_iteration;
        self.next.key_iteration = 1;
        self.current.ss_idx = self.next.ss_idx;
    }

    /// `SameKey`: the key stays, the cursor moves one step on the walk.
    fn modulate_same_key(&mut self) -> (r: Result<(), MissingSpelling>)
        requires
            old(self).wf(),
        ensures
            r is Ok,
            r is Ok ==> old(self).stepped(final(self), Modulation::SameKey),
            final(self).modulation == old(self).modulation,
    {
        self.current.key = self.next.key;
        self.current.chords = vec![self.next.chords[0].duplicate()];
        self.current.key_iteration = self.next.key_iteration;
        self.next.key_iteration = self.current.key_iteration.saturating_add(1);
        self.current.ss_idx = self.next.ss_idx;
        let idx = next_cursor_of(self.current.ss_idx);
        self.next.ss_idx = idx;
        let chords = Self::measure(&self.next.key, &self.ss, idx, self.difficulty)?;
        self.next.chords = chords;
        Ok(())
    }

    /// `ViaTonic`: the tonic stays, the mode is drawn anew.
    fn modulate_via_tonic(&mut self) -> (r: Result<(), MissingSpelling>)
        requires
            old(self).wf(),
        ensures
            r is Ok,
            r is Ok ==> old(self).stepped(final(self), Modulation::ViaTonic),
            final(self).modulation == old(self).modulation,
    {
        self.status_next_to_current();
        let idx = random_below(WALK_LEN);
        let key = Key::new(self.current.key.tonic, KeyType::sample(self.difficulty));
        let chords = Self::measure(&key, &self.ss, idx, self.difficulty)?;
        self.next.ss_idx = idx;
        self.next.key = key;
        self.next.chords = chords;
        Ok(())
    }

    /// A key reached from `chord`: one of its home keys, moved to a random mode.
    fn reach_key(chord: &Chord) -> (r: Result<Key, MissingSpelling>)
        requires
            chord.wf(),
        ensures
            r matches Ok(k) ==> k.wf() && reachable_key(chord.tonic, chord.chord_type, k),
            r is Ok,
    {
        let keys = chord.gen_major_keys()?;
        let j = random_below(keys.len());
        let o = random_below(7);
        let k = keys[j].change_mode(o as i8)?;
        assert(home_key(chord.tonic, chord.chord_type.home_intervals()[j as int])->0.mode_changed(o as int) == Some(k));
        Ok(k)
    }

    /// `ViaSharedChord`: to a key in which the current chord is also diatonic.
    fn modulate_via_shared_chord(&mut self) -> (r: Result<(), MissingSpelling>)
        requires
            old(self).wf(),
        ensures
            r is Ok,
            r is Ok ==> old(self).stepped(final(self), Modulation::ViaSharedChord),
            final(self).modulation == old(self).modulation,
    {
        self.status_next_to_current();
        let idx = random_below(WALK_LEN);
        let key = Self::reach_key(&self.current.chords[0])?;
        let chords = Self::measure(&key, &self.ss, idx, self.difficulty)?;
        self.next.ss_idx = idx;
        self.next.key = key;
        self.next.chords = chords;
        Ok(())
    }

    /// `ViaDiminished`: the current root becomes a diminished pivot chord that resolves to
    /// the dominant and then the tonic of a key it reaches.
    fn modulate_via_diminished(&mut self) -> (r: Result<(), MissingSpelling>)
        requires
            old(self).wf(),
        ensures
            r is Ok,
            r is Ok ==> old(self).stepped(final(self), Modulation::ViaDiminished),
            final(self).modulation == old(self).modulation,
    {
        self.status_next_to_current();
        let proxy_diminished = Chord::new(self.current.chords[0].tonic, ChordType::Diminished7, Inversion::sample(self.difficulty))?;
        let key = Self::reach_key(&proxy_diminished)?;
        let dominant_next_key = key.gen_chord(5, self.difficulty)?;
        let next_chord = key.gen_chord(1, self.difficulty)?;
        self.next.ss_idx = 1;
        self.next.key = key;
        self.next.chords = vec![next_chord, dominant_next_key, proxy_diminished];
        Ok(())
    }

    /// `Back`: return to the key before the current one.
    fn modulate_back(&mut self) -> (r: Result<(), MissingSpelling>)
        requires
            old(self).wf(),
        ensures
            r is Ok,
            r is Ok ==> old(self).stepped(final(self), Modulation::Back),
            final(self).modulation == old(self).modulation,
    {
        let prev_key = self.previous_key;
        self.status_next_to_current();
        let idx = random_below(WALK_LEN);
        let chords = Self::measure(&prev_key, &self.ss, idx, self.difficulty)?;
        self.next.ss_idx = idx;
        self.next.key = prev_key;
        self.next.chords = chords;
        Ok(())
    }

    /// One measure on, by the modulation in `self.modulation`. Every chord it builds can
    /// be spelled, so it always succeeds.
    pub fn modulate(&mut self) -> (r: Result<(), MissingSpelling>)
        requires
            old(self).wf(),
        ensures
            r is Ok,
            r is Ok ==> old(self).stepped(final(self), old(self).modulation),
            final(self).modulation == old(self).modulation,
    {
        match self.modulation {
            Modulation::SameKey => self.modulate_same_key(),
            Modulation::ViaTonic => self.modulate_via_tonic(),
            Modulation::ViaSharedChord => self.modulate_via_shared_chord(),
            Modulation::ViaDiminished => self.modulate_via_diminished(),
            Modulation::Back => self.modulate_back(),
        }
    }

    /// The modulation taken when `drawn` was drawn: `drawn` once the key has been kept
    /// for the difficulty's threshold of measures, `SameKey` before.
    pub open spec fn chosen_modulation(&self, drawn: Modulation) -> Modulation {
        if self.current.key_iteration >= self.env.modulation_threshold {
            drawn
        } else {
            Modulation::SameKey
        }
    }

    /// One measure on, with `drawn` as the modulation drawn for this step.
    pub fn advance(&mut self, drawn: Modulation) -> (r: Result<(), MissingSpelling>)
        requires
            old(self).wf(),
        ensures
            r is Ok,
            final(self).modulation == old(self).chosen_modulation(drawn),
            r is Ok ==> {
                let chosen = old(self).chosen_modulation(drawn);
                let before = App { modulation: chosen, ..*old(self) };
                before.stepped(final(self), chosen)
            },
    {
        let modulation = if self.current.key_iteration >= self.env.modulation_threshold {
            drawn
        } else {
            Modulation::SameKey
        };
        self.modulation = modulation;
        self.modulate()
    }

    /// One measure on, drawing the modulation at random; the new current chord.
    pub fn next(&mut self) -> (r: Result<Chord, MissingSpelling>)
        requires
            old(self).wf(),
        ensures
            r is Ok,
            r matches Ok(c) ==> {
                let m = final(self).modulation;
                &&& (App { modulation: m, ..*old(self) }).stepped(final(self), m)
                &&& same_chord(c, final(self).current.chords@[0])
                &&& modulation_weights_allow(old(self), m)
            },
    {
        let drawn = Modulation::sample(self.difficulty);
        self.advance(drawn)?;
        Ok(self.current.chords[0].duplicate())
    }
}

/// `m` is `SameKey`, or a modulation that the weights of the difficulty can draw once the
/// key has been kept long enough.
pub open spec fn modulation_weights_allow(app: &App, m: Modulation) -> bool {
    ||| m == Modulation::SameKey
    ||| (app.current.key_iteration >= app.env.modulation_threshold
        && crate::modulation::modulation_weights(app.difficulty)[m.rank()] > 0)
}

} // verus!
