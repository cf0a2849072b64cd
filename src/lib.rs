use vstd::prelude::*;

/// The progression state machine and its settings.
pub mod app;
/// Seventh chords, voicings, and the chords derived from a chord.
pub mod chord;
/// Keyboard commands.
pub mod input;
/// Modes, keys, scale degrees and mode changes.
pub mod key;
/// Approach-chord detours and modulation kinds.
pub mod modulation;
/// Decisions of the real-time matching loop: held notes, matching, scoring, verdicts.
pub mod play;
/// Random draws.
pub mod random;
/// Pitches, intervals, spellings and key-signature tables.
pub mod tone;

verus! {

} // verus!
