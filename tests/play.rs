use utrp::app::{next_cursor_of, App, Difficulty, WALK_LEN};
use utrp::chord::{ChordType, Inversion};
use utrp::input::{difficulty_for_signal, signal_for_key, AppSignal};
use utrp::key::{Key, KeyType};
use utrp::modulation::{DeTour, Modulation};
use utrp::play::{chord_matched, chord_score, judge, pitch_class_of, session_over, toggle_note, Verdict};
use utrp::tone::{NeutralTone, Tone, ToneVariant};

#[test]
fn scoring_boundary() {
    assert_eq!(chord_score(8000), 0);
    assert_eq!(chord_score(0), 4096);
    assert_eq!(chord_score(5000), 81);
    assert_eq!(chord_score(8001), 0);
    assert_eq!(chord_score(7999), 0);
    assert_eq!(chord_score(7900), 0);
    assert_eq!(chord_score(999), 2402);
    assert_eq!(chord_score(1000), 2401);
    assert_eq!(chord_score(4000), 256);
}

#[test]
fn concrete_scenario_c_ionian() {
    let key = Key::new(Tone::new(NeutralTone::C, ToneVariant::Neutral), KeyType::Ionian);
    let target = key.gen_chord(1, Difficulty::Easy).unwrap();
    let v = DeTour::Straight.build_chords(target, Difficulty::Easy).unwrap();
    assert_eq!(v.len(), 1);
    let chord = &v[0];
    assert_eq!(chord.tonic, Tone::new(NeutralTone::C, ToneVariant::Neutral));
    assert_eq!(chord.chord_type, ChordType::Major7);
    let target_classes = chord.pitch_classes();
    // C4 E4 G4 B4 reduce to 1, 5, 8, 12
    assert!(chord_matched(&vec![60, 64, 67, 71], &target_classes));
    assert!(chord_matched(&vec![48, 64, 79, 83], &target_classes));
    assert!(!chord_matched(&vec![60, 64, 67], &target_classes));
    assert_eq!(judge(false, false, false, true, &vec![60, 64, 67, 71], &target_classes), Verdict::Matched);
    assert_eq!(judge(false, false, false, true, &vec![60, 64, 67], &target_classes), Verdict::Waiting);
}

#[test]
fn pitch_classes_of_notes() {
    assert_eq!(pitch_class_of(60), 1);
    assert_eq!(pitch_class_of(71), 12);
    assert_eq!(pitch_class_of(24), 1);
    assert_eq!(pitch_class_of(61), 2);
}

#[test]
fn matching_ignores_order_and_octaves() {
    assert!(chord_matched(&vec![71, 60, 67, 64], &vec![1, 5, 8, 12]));
    assert!(chord_matched(&vec![60, 64, 67, 71], &vec![1, 8, 12, 5, 8, 1]));
    assert!(!chord_matched(&vec![60, 64, 67, 71, 62], &vec![1, 5, 8, 12]));
    assert!(!chord_matched(&vec![], &vec![1, 5, 8, 12]));
}

#[test]
fn session_end() {
    let target = vec![1, 5, 8, 12];
    let held = vec![60, 64, 67, 71];
    assert_eq!(judge(false, true, false, true, &held, &target), Verdict::SessionOver);
    assert_eq!(judge(false, true, true, false, &held, &target), Verdict::SessionOver);
    assert_eq!(judge(true, true, true, true, &held, &target), Verdict::Quit);
    assert_eq!(judge(false, false, true, true, &held, &target), Verdict::MeasureOver);
    assert_eq!(judge(false, false, false, false, &held, &target), Verdict::Waiting);
    assert!(session_over(120_001, 120));
    assert!(!session_over(120_000, 120));
    assert!(!session_over(u64::MAX, u64::MAX));
}

#[test]
fn held_notes_toggle() {
    let mut held: Vec<u8> = Vec::new();
    toggle_note(&mut held, 64);
    toggle_note(&mut held, 60);
    toggle_note(&mut held, 67);
    assert_eq!(held, vec![60, 64, 67]);
    toggle_note(&mut held, 64);
    assert_eq!(held, vec![60, 67]);
    toggle_note(&mut held, 72);
    toggle_note(&mut held, 62);
    assert_eq!(held, vec![60, 62, 67, 72]);
}

#[test]
fn keyboard_signals() {
    assert_eq!(signal_for_key('q'), Some(AppSignal::Quit));
    assert_eq!(signal_for_key('e'), Some(AppSignal::Easy));
    assert_eq!(signal_for_key('h'), Some(AppSignal::Hell));
    assert_eq!(signal_for_key('g'), Some(AppSignal::Guitar));
    assert_eq!(signal_for_key('n'), Some(AppSignal::Next));
    assert_eq!(signal_for_key('x'), None);
    assert_eq!(difficulty_for_signal(AppSignal::Hell), Some(Difficulty::Hell));
    assert_eq!(difficulty_for_signal(AppSignal::Quit), None);
}

#[test]
fn sampling_respects_weights() {
    for _ in 0..300 {
        assert!(!matches!(
            Inversion::sample(Difficulty::Guitar),
            Inversion::PianoOriginal | Inversion::PianoFirst | Inversion::PianoSecond | Inversion::PianoThird
        ));
        assert!(matches!(
            Inversion::sample(Difficulty::Easy),
            Inversion::PianoOriginal | Inversion::PianoFirst | Inversion::PianoSecond | Inversion::PianoThird
        ));
        assert!(matches!(KeyType::sample(Difficulty::Easy), KeyType::Ionian | KeyType::Aeolian));
        let k = Key::sample(Difficulty::Guitar).unwrap();
        assert!(matches!(k.key_type, KeyType::Ionian | KeyType::Aeolian));
    }
}

#[test]
fn sampling_reaches_several_values() {
    let mut seen = [false; 5];
    for _ in 0..500 {
        let m = Modulation::sample(Difficulty::Hell);
        let i = match m {
            Modulation::SameKey => 0,
            Modulation::ViaTonic => 1,
            Modulation::ViaSharedChord => 2,
            Modulation::ViaDiminished => 3,
            Modulation::Back => 4,
        };
        seen[i] = true;
    }
    assert!(seen.iter().all(|s| *s));
}

#[test]
fn cursor_wraps_with_short_modulus() {
    assert_eq!(next_cursor_of(0), 1);
    assert_eq!(next_cursor_of(38), 39);
    assert_eq!(next_cursor_of(39), 1);
    assert_eq!(WALK_LEN, 40);
}

#[test]
fn new_progression_is_consistent() {
    for d in [Difficulty::Easy, Difficulty::Hell, Difficulty::Guitar] {
        let app = App::new(d).unwrap();
        assert_eq!(app.score, 0);
        assert_eq!(app.current.chords.len(), 1);
        assert_eq!(app.next.key, app.current.key);
        assert_eq!(app.previous_key, app.current.key);
        assert_eq!(app.next.ss_idx, next_cursor_of(app.current.ss_idx));
        assert_eq!(app.current.key_iteration, 1);
        assert_eq!(app.next.key_iteration, 2);
        let targets = app.measure_targets();
        assert_eq!(targets.len(), app.next.chords.len());
        assert_eq!(targets[0], app.current.chords[0].pitch_classes());
    }
}

#[test]
fn same_key_before_threshold() {
    let mut app = App::new(Difficulty::Easy).unwrap();
    let next_target = app.next.chords[0].pitch_classes();
    let next_key = app.next.key;
    app.advance(Modulation::ViaTonic).unwrap();
    assert_eq!(app.modulation, Modulation::SameKey);
    assert_eq!(app.current.key, next_key);
    assert_eq!(app.current.chords[0].pitch_classes(), next_target);
    assert_eq!(app.current.key_iteration, 2);
    assert_eq!(app.next.key_iteration, 3);
}

#[test]
fn every_modulation_steps() {
    for m in [Modulation::SameKey, Modulation::ViaTonic, Modulation::ViaSharedChord, Modulation::ViaDiminished, Modulation::Back] {
        for _ in 0..20 {
            let mut app = App::new(Difficulty::Hell).unwrap();
            let before_current = app.current.key;
            let before_next = app.next.key;
            app.modulation = m;
            app.modulate().unwrap();
            assert_eq!(app.current.key, before_next);
            assert!(app.next.ss_idx < WALK_LEN);
            match m {
                Modulation::SameKey => assert_eq!(app.next.key, before_next),
                Modulation::Back => assert_eq!(app.next.key, before_current),
                Modulation::ViaDiminished => {
                    assert_eq!(app.next.ss_idx, 1);
                    assert_eq!(app.next.chords.len(), 3);
                    assert_eq!(app.next.chords[2].chord_type, ChordType::Diminished7);
                }
                Modulation::ViaTonic => {
                    assert_eq!(app.next.key.tonic.idx, before_next.tonic.idx);
                }
                Modulation::ViaSharedChord => {}
            }
            if m != Modulation::SameKey {
                assert_eq!(app.previous_key, before_current);
                assert_eq!(app.next.key_iteration, 1);
            }
        }
    }
}

#[test]
fn score_accumulates() {
    let mut app = App::new(Difficulty::Easy).unwrap();
    assert_eq!(app.add_score(0), 4096);
    assert_eq!(app.add_score(5000), 81);
    assert_eq!(app.add_score(9000), 0);
    assert_eq!(app.score, 4177);
}

#[test]
fn many_measures_run() {
    let mut app = App::new(Difficulty::Hell).unwrap();
    for _ in 0..200 {
        let c = app.next().unwrap();
        assert_eq!(c.pitch_classes(), app.current.chords[0].pitch_classes());
        assert!(app.next.chords.len() >= 1 && app.next.chords.len() <= 3);
    }
}

#[test]
fn measure_chords_follow_targets() {
    let app = App::new(Difficulty::Hell).unwrap();
    let chords = app.measure_chords();
    let targets = app.measure_targets();
    assert_eq!(chords.len(), targets.len());
    for (c, t) in chords.iter().zip(targets.iter()) {
        assert_eq!(&c.pitch_classes(), t);
    }
    let n = app.next.chords.len();
    for j in 1..n {
        assert_eq!(chords[j].tonic, app.next.chords[n - j].tonic);
    }
}
