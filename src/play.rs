use vstd::prelude::*;

use crate::app::App;
use crate::chord::Chord;

verus! {

/// Pitch class (1..=12, 1 is C) of a raw note number.
pub open spec fn pitch_class(note: u8) -> u8 {
    (note % 12 + 1) as u8
}

/// The pitch classes of held notes, in the same order.
pub open spec fn held_classes(held: Seq<u8>) -> Seq<u8> {
    held.map_values(|n: u8| pitch_class(n))
}

/// `a` and `b` hold the same values, whatever their order and repetitions.
pub open spec fn same_members(a: Seq<u8>, b: Seq<u8>) -> bool {
    a.to_set() == b.to_set()
}

/// Strictly ascending.
pub open spec fn strictly_sorted(s: Seq<u8>) -> bool {
    forall|i: int, j: int| 0 <= i < j < s.len() ==> s[i] < s[j]
}

/// The chromatic positions of a chord's tones, in playing order.
pub open spec fn chord_classes(c: Chord) -> Seq<u8> {
    c.tones@.map_values(|t: crate::tone::Tone| t.idx as u8)
}

/// Points for a chord matched `elapsed_ms` milliseconds after it was shown: `(8 - t)^4`
/// for the elapsed time `t` in seconds, rounded down to whole points; nothing after eight
/// seconds.
pub open spec fn score_for(elapsed_ms: u64) -> int {
    if elapsed_ms > 8000 {
        0
    } else {
        let m = 8000 - elapsed_ms;
        (m * m * m * m) / 1_000_000_000_000
    }
}

pub fn pitch_class_of(note: u8) -> (r: u8)
    ensures
        r == pitch_class(note),
        1 <= r <= 12,
{
    note % 12 + 1
}

/// The pitch classes of held notes.
pub fn held_pitch_classes(held: &Vec<u8>) -> (r: Vec<u8>)
    ensures
        r@ == held_classes(held@),
{
    let mut r: Vec<u8> = Vec::new();
    let mut j: usize = 0;
    while j < held.len()
        invariant
            j <= held@.len(),
            r@ == held_classes(held@.take(j as int)),
        decreases held@.len() - j,
    {
        r.push(pitch_class_of(held[j]));
        assert(held@.take(j as int + 1) =~= held@.take(j as int).push(held@[j as int]));
        assert(held_classes(held@.take(j as int + 1)) =~= held_classes(held@.take(j as int)).push(pitch_class(held@[j as int])));
        j += 1;
    }
    assert(held@.take(held@.len() as int) =~= held@);
    r
}

/// Every entry of `b` is in `a`.
fn includes(a: &Vec<u8>, b: &Vec<u8>) -> (r: bool)
    ensures
        r == forall|j: int| 0 <= j < b@.len() ==> a@.contains(#[trigger] b@[j]),
{
    let mut j: usize = 0;
    while j < b.len()
        invariant
            j <= b@.len(),
            forall|k: int| 0 <= k < j ==> a@.contains(#[trigger] b@[k]),
        decreases b@.len() - j,
    {
        let mut i: usize = 0;
        let mut found = false;
        while i < a.len()
            invariant
                j < b@.len(),
                i <= a@.len(),
                found ==> a@.contains(b@[j as int]),
                !found ==> forall|k: int| 0 <= k < i ==> a@[k] != b@[j as int],
            decreases a@.len() - i,
        {
            if a[i] == b[j] {
                found = true;
            }
            i += 1;
        }
        if !found {
            assert(!a@.contains(b@[j as int]));
            return false;
        }
        j += 1;
    }
    true
}

/// The held notes, reduced to pitch classes, are exactly the pitch classes of the target.
pub fn chord_matched(held: &Vec<u8>, target: &Vec<u8>) -> (r: bool)
    ensures
        r == same_members(held_classes(held@), target@),
{
    let classes = held_pitch_classes(held);
    let forward = includes(&classes, target);
    let backward = includes(target, &classes);
    proof {
        let a = classes@;
        let b = target@;
        if forward && backward {
            assert forall|x: u8| a.to_set().contains(x) <==> b.to_set().contains(x) by {
                if a.contains(x) {
                    let i = choose|i: int| 0 <= i < a.len() && a[i] == x;
                    assert(b.contains(a[i]));
                }
                if b.contains(x) {
                    let i = choose|i: int| 0 <= i < b.len() && b[i] == x;
                    assert(a.contains(b[i]));
                }
            }
            assert(a.to_set() =~= b.to_set());
        } else if !forward {
            let j = choose|j: int| 0 <= j < b.len() && !a.contains(b[j]);
            assert(b.to_set().contains(b[j]));
            assert(!a.to_set().contains(b[j]));
        } else {
            let j = choose|j: int| 0 <= j < a.len() && !b.contains(a[j]);
            assert(a.to_set().contains(a[j]));
            assert(!b.to_set().contains(a[j]));
        }
    }
    forward && backward
}

/// Presses or releases `note`: the held set gains it if absent and loses it if present,
/// and stays sorted.
pub fn toggle_note(held: &mut Vec<u8>, note: u8)
    requires
        strictly_sorted(old(held)@),
    ensures
        strictly_sorted(final(held)@),
        forall|x: u8| final(held)@.contains(x) <==> (old(held)@.contains(x) != (x == note)),
{
    let ghost before = held@;
    let mut i: usize = 0;
    while i < held.len() && held[i] < note
        invariant
            held@ == before,
            strictly_sorted(before),
            i <= before.len(),
            forall|k: int| 0 <= k < i ==> before[k] < note,
        decreases before.len() - i,
    {
        i += 1;
    }
    if i < held.len() && held[i] == note {
        held.remove(i);
        proof {
            assert forall|x: u8| held@.contains(x) <==> (before.contains(x) != (x == note)) by {
                if held@.contains(x) {
                    let k = choose|k: int| 0 <= k < held@.len() && held@[k] == x;
                    if k < i {
                        assert(before[k] == x);
                    } else {
                        assert(before[k + 1] == x);
                    }
                }
                if before.contains(x) && x != note {
                    let k = choose|k: int| 0 <= k < before.len() && before[k] == x;
                    if k < i {
                        assert(held@[k] == x);
                    } else {
                        assert(k != i);
                        assert(held@[k - 1] == x);
                    }
                }
            }
        }
    } else {
        held.insert(i, note);
        proof {
            assert forall|x: u8| held@.contains(x) <==> (before.contains(x) != (x == note)) by {
                if held@.contains(x) && x != note {
                    let k = choose|k: int| 0 <= k < held@.len() && held@[k] == x;
                    if k < i {
                        assert(before[k] == x);
                    } else {
                        assert(before[k - 1] == x);
                    }
                }
                if before.contains(x) {
                    let k = choose|k: int| 0 <= k < before.len() && before[k] == x;
                    if k < i {
                        assert(held@[k] == x);
                    } else {
                        assert(held@[k + 1] == x);
                    }
                    assert(x != note);
                }
                if x == note {
                    assert(held@[i as int] == note);
                }
            }
        }
    }
}

/// Points for a chord matched `elapsed_ms` milliseconds after it was shown.
pub fn chord_score(elapsed_ms: u64) -> (r: u64)
    ensures
        r == score_for(elapsed_ms),
        r <= 4096,
{
    if elapsed_ms > 8000 {
        0
    } else {
        let m: u64 = 8000 - elapsed_ms;
        assert(m * m <= 64_000_000) by (nonlinear_arith)
            requires
                m <= 8000,
        ;
        let m2: u64 = m * m;
        assert(m2 * m2 <= 4_096_000_000_000_000) by (nonlinear_arith)
            requires
                m2 <= 64_000_000,
        ;
        assert(m2 * m2 == m * m * m * m) by (nonlinear_arith)
            requires
                m2 == m * m,
        ;
        let r = m2 * m2 / 1_000_000_000_000;
        assert(r <= 4096);
        r
    }
}

/// The session has run past its length: `elapsed_ms` milliseconds against `total_time`
/// seconds.
pub fn session_over(elapsed_ms: u64, total_time: u64) -> (r: bool)
    ensures
        r == (elapsed_ms as int > total_time as int * 1000),
{
    if total_time > u64::MAX / 1000 {
        false
    } else {
        elapsed_ms > total_time * 1000
    }
}

/// What the game does after one poll of its signals.
#[derive(Debug, Clone, Copy, PartialEq, Eq, Structural)]
pub enum Verdict {
    /// The player quit: end the run.
    Quit,
    /// The session time is up: end the run.
    SessionOver,
    /// The measure time is up: drop the rest of the measure.
    MeasureOver,
    /// The held notes match the target: score it and go to the next target.
    Matched,
    /// Nothing yet: poll again.
    Waiting,
}

impl Verdict {
    /// The run is over.
    pub open spec fn ends_run(self) -> bool {
        self == Verdict::Quit || self == Verdict::SessionOver
    }
}

/// The verdict of one poll, by precedence: quit, then session time, then measure time,
/// then a match of freshly published held notes.
pub open spec fn verdict_of(quit: bool, session_done: bool, measure_done: bool, fresh: bool, held: Seq<u8>, target: Seq<u8>) -> Verdict {
    if quit {
        Verdict::Quit
    } else if session_done {
        Verdict::SessionOver
    } else if measure_done {
        Verdict::MeasureOver
    } else if fresh && same_members(held_classes(held), target) {
        Verdict::Matched
    } else {
        Verdict::Waiting
    }
}

/// Decides one poll. `fresh` tells whether `held` was published since the last poll.
pub fn judge(quit: bool, session_done: bool, measure_done: bool, fresh: bool, held: &Vec<u8>, target: &Vec<u8>) -> (r: Verdict)
    ensures
        r == verdict_of(quit, session_done, measure_done, fresh, held@, target@),
        session_done ==> r.ends_run(),
{
    if quit {
        Verdict::Quit
    } else if session_done {
        Verdict::SessionOver
    } else if measure_done {
        Verdict::MeasureOver
    } else if fresh && chord_matched(held, target) {
        Verdict::Matched
    } else {
        Verdict::Waiting
    }
}

/// Once the session time is up, the very next poll ends the run, whatever the measure was
/// doing.
pub proof fn law_session_end(quit: bool, measure_done: bool, fresh: bool, held: Seq<u8>, target: Seq<u8>)
    ensures
        verdict_of(quit, true, measure_done, fresh, held, target).ends_run(),
{
}

impl App {
    /// The pitch classes to match in this measure, in order: the current chord again,
    /// then the next measure's approach chords in playing order (its target comes first in
    /// the measure after).
    pub fn measure_targets(&self) -> (r: Vec<Vec<u8>>)
        requires
            self.wf(),
        ensures
            r@.len() == self.next.chords@.len(),
            r@[0]@ == chord_classes(self.current.chords@[0]),
            forall|j: int| 1 <= j < r@.len() ==> (#[trigger] r@[j])@ == chord_classes(self.next.chords@[r@.len() - j]),
    {
        let mut r: Vec<Vec<u8>> = Vec::new();
        r.push(self.current.chords[0].pitch_classes());
        let n = self.next.chords.len();
        let mut j: usize = 1;
        while j < n
            invariant
                self.wf(),
                n == self.next.chords@.len(),
                1 <= j <= n,
                r@.len() == j,
                r@[0]@ == chord_classes(self.current.chords@[0]),
                forall|k: int| 1 <= k < j ==> (#[trigger] r@[k])@ == chord_classes(self.next.chords@[n - k]),
            decreases n - j,
        {
            r.push(self.next.chords[n - j].pitch_classes());
            j += 1;
        }
        r
    }

    /// The chords of this measure, in the order of `measure_targets`.
    pub fn measure_chords(&self) -> (r: Vec<Chord>)
        requires
            self.wf(),
        ensures
            r@.len() == self.next.chords@.len(),
            crate::app::same_chord(r@[0], self.current.chords@[0]),
            forall|j: int| 1 <= j < r@.len() ==> crate::app::same_chord(#[trigger] r@[j], self.next.chords@[r@.len() - j]),
    {
        let mut r: Vec<Chord> = Vec::new();
        r.push(self.current.chords[0].duplicate());
        let n = self.next.chords.len();
        let mut j: usize = 1;
        while j < n
            invariant
                self.wf(),
                n == self.next.chords@.len(),
                1 <= j <= n,
                r@.len() == j,
                crate::app::same_chord(r@[0], self.current.chords@[0]),
                forall|k: int| 1 <= k < j ==> crate::app::same_chord(#[trigger] r@[k], self.next.chords@[n - k]),
            decreases n - j,
        {
            r.push(self.next.chords[n - j].duplicate());
            j += 1;
        }
        r
    }

    /// Adds the points for a chord matched `elapsed_ms` milliseconds after it was shown;
    /// returns them. The score stops at `u64::MAX`.
    pub fn add_score(&mut self, elapsed_ms: u64) -> (r: u64)
        ensures
            r == score_for(elapsed_ms),
            final(self).score == if old(self).score + r > u64::MAX { u64::MAX as int } else { old(self).score + r },
            final(self).current == old(self).current,
            final(self).next == old(self).next,
            final(self).previous_key == old(self).previous_key,
            old(self).keeps_setup(&App { score: old(self).score, ..*final(self) }),
    {
        let points = chord_score(elapsed_ms);
        self.score = self.score.saturating_add(points);
        points
    }
}

} // verus!
