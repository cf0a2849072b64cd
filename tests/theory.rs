use utrp::app::Difficulty;
use utrp::chord::{Chord, ChordType, Inversion};
use utrp::key::{Key, KeyType};
use utrp::modulation::DeTour;
use utrp::tone::{gen_tones, key_tonics, Interval, NeutralTone, Tone, ToneVariant};

const MODES: [KeyType; 7] = [
    KeyType::Ionian,
    KeyType::Dorian,
    KeyType::Phrygian,
    KeyType::Lydian,
    KeyType::Mixolydian,
    KeyType::Aeolian,
    KeyType::Locrian,
];

const INTERVALS: [Interval; 13] = [
    Interval::PerfectUnison,
    Interval::MinorSecond,
    Interval::MajorSecond,
    Interval::MinorThird,
    Interval::MajorThird,
    Interval::PerfectFourth,
    Interval::AugmentedFourth,
    Interval::DiminishedFifth,
    Interval::PerfectFifth,
    Interval::MinorSixth,
    Interval::MajorSixth,
    Interval::MinorSeventh,
    Interval::MajorSeventh,
];

const INVERSIONS: [Inversion; 9] = [
    Inversion::PianoOriginal,
    Inversion::PianoFirst,
    Inversion::PianoSecond,
    Inversion::PianoThird,
    Inversion::GuitarFirst,
    Inversion::GuitarSecond,
    Inversion::GuitarThird,
    Inversion::GuitarFourth,
    Inversion::GuitarFifth,
];

fn tone(l: NeutralTone, v: ToneVariant) -> Tone {
    Tone::new(l, v)
}

fn c_major() -> Key {
    Key::new(tone(NeutralTone::C, ToneVariant::Neutral), KeyType::Ionian)
}

fn sorted_classes(c: &Chord) -> Vec<u8> {
    let mut v = c.pitch_classes();
    v.sort();
    v.dedup();
    v
}

#[test]
fn tone_positions_follow_spelling() {
    assert_eq!(tone(NeutralTone::C, ToneVariant::Neutral).idx, 1);
    assert_eq!(tone(NeutralTone::C, ToneVariant::Flat).idx, 12);
    assert_eq!(tone(NeutralTone::B, ToneVariant::Sharp).idx, 1);
    assert_eq!(tone(NeutralTone::F, ToneVariant::Sharp).idx, 7);
    assert_eq!(tone(NeutralTone::G, ToneVariant::Flat).idx, 7);
}

#[test]
fn transposition_keeps_letters() {
    let fs = tone(NeutralTone::F, ToneVariant::Sharp);
    let up = fs.add_interval(Interval::MajorSeventh);
    assert_eq!(up, tone(NeutralTone::E, ToneVariant::Sharp));
    let gb = tone(NeutralTone::G, ToneVariant::Flat);
    assert_eq!(gb.add_interval(Interval::MajorSeventh), tone(NeutralTone::F, ToneVariant::Neutral));
    let c = tone(NeutralTone::C, ToneVariant::Neutral);
    assert_eq!(c.minus_interval(Interval::MinorSecond), tone(NeutralTone::B, ToneVariant::Neutral));
    assert_eq!(c.add_interval(Interval::AugmentedFourth), tone(NeutralTone::F, ToneVariant::Sharp));
    assert_eq!(c.add_interval(Interval::DiminishedFifth), tone(NeutralTone::G, ToneVariant::Flat));
}

#[test]
fn unspellable_transposition_is_refused() {
    let bs = tone(NeutralTone::B, ToneVariant::Sharp);
    assert_eq!(bs.checked_add_interval(Interval::MajorThird), None);
    let c = tone(NeutralTone::C, ToneVariant::Neutral);
    assert_eq!(c.checked_add_interval(Interval::MajorThird), Some(tone(NeutralTone::E, ToneVariant::Neutral)));
}

#[test]
fn respelling_follows_key_signatures() {
    let fs = tone(NeutralTone::F, ToneVariant::Sharp);
    assert_eq!(fs.rematch_key(&KeyType::Ionian), fs);
    let as_ = tone(NeutralTone::A, ToneVariant::Sharp);
    assert_eq!(as_.rematch_key(&KeyType::Ionian), tone(NeutralTone::B, ToneVariant::Flat));
    assert_eq!(as_.rematch_key(&KeyType::Locrian), as_);
    let bs = tone(NeutralTone::B, ToneVariant::Sharp);
    assert_eq!(bs.rematch_diminished(), tone(NeutralTone::C, ToneVariant::Neutral));
    let db = tone(NeutralTone::D, ToneVariant::Flat);
    assert_eq!(db.rematch_diminished(), tone(NeutralTone::C, ToneVariant::Sharp));
    assert_eq!(as_.rematch_chord(&ChordType::Major7), tone(NeutralTone::B, ToneVariant::Flat));
    assert_eq!(db.rematch_interval(&Interval::MinorThird), tone(NeutralTone::C, ToneVariant::Sharp));
}

#[test]
fn key_tables_follow_the_circle() {
    let circle = key_tonics(&KeyType::Ionian);
    for m in MODES {
        let table = key_tonics(&m);
        assert_eq!(table.len(), 13);
        for (j, t) in circle.iter().enumerate() {
            assert_eq!(table[j], t.add_interval(m.tonic_offset()));
        }
    }
}

#[test]
fn round_trip_respelling() {
    for p in 1..=12i8 {
        for t in gen_tones(p) {
            for i in INTERVALS {
                if let Some(u) = t.checked_add_interval(i) {
                    for m in MODES {
                        let r = u.rematch_key(&m);
                        assert_eq!(r.idx % 12, (t.idx + i.key_diff()) % 12);
                    }
                }
            }
        }
    }
}

#[test]
fn mode_rotation_closure() {
    for i in 0..13usize {
        for m in MODES {
            let k = Key::new(Key::sample_tonic(i), m);
            for o in 0..7i8 {
                let k1 = k.change_mode(o).unwrap();
                let k2 = k1.change_mode((7 - o) % 7).unwrap();
                assert_eq!(k2.tonic.idx, k.tonic.idx);
            }
        }
    }
}

#[test]
fn change_mode_to_relative_minor() {
    let a = c_major().change_mode(5).unwrap();
    assert_eq!(a.key_type, KeyType::Aeolian);
    assert_eq!(a.tonic, tone(NeutralTone::A, ToneVariant::Neutral));
}

fn expected_quality(m: KeyType, d: i8) -> ChordType {
    let rank = match m {
        KeyType::Ionian => 0,
        KeyType::Dorian => 1,
        KeyType::Phrygian => 2,
        KeyType::Lydian => 3,
        KeyType::Mixolydian => 4,
        KeyType::Aeolian => 5,
        KeyType::Locrian => 6,
    };
    match (rank + d - 1) % 7 + 1 {
        1 | 4 => ChordType::Major7,
        5 => ChordType::Dominant7,
        7 => ChordType::HalfDiminished7,
        _ => ChordType::Minor7,
    }
}

#[test]
fn quality_table_completeness() {
    for i in 0..13usize {
        for m in MODES {
            let k = Key::new(Key::sample_tonic(i), m);
            for d in 1..=7i8 {
                for diff in [Difficulty::Easy, Difficulty::Hell, Difficulty::Guitar] {
                    let c = k.gen_chord(d, diff).unwrap();
                    assert_eq!(c.chord_type, expected_quality(m, d));
                    assert_eq!(c.chord_type, k.key_type.degree_chord_type(d));
                }
            }
        }
    }
}

#[test]
fn every_reachable_key_builds_every_chord() {
    for i in 0..13usize {
        for m in MODES {
            let k = Key::new(Key::sample_tonic(i), m);
            for d in 1..=7i8 {
                let c = k.gen_chord(d, Difficulty::Easy).unwrap();
                for t in [DeTour::Straight, DeTour::SecondaryDominant, DeTour::SubstituteSD, DeTour::SD25, DeTour::SSD25] {
                    let again = k.gen_chord(d, Difficulty::Easy).unwrap();
                    assert!(t.build_chords(again, Difficulty::Easy).is_ok());
                }
                for home in c.gen_major_keys().unwrap() {
                    for o in 0..7i8 {
                        assert!(home.change_mode(o).is_ok());
                    }
                }
                let dim = c.gen_diminished(Difficulty::Hell).unwrap();
                for home in dim.gen_major_keys().unwrap() {
                    for o in 0..7i8 {
                        let nk = home.change_mode(o).unwrap();
                        assert!(nk.gen_chord(1, Difficulty::Easy).is_ok());
                        assert!(nk.gen_chord(5, Difficulty::Easy).is_ok());
                    }
                }
            }
        }
    }
}

#[test]
fn chord_tone_count_invariant() {
    let c = tone(NeutralTone::C, ToneVariant::Neutral);
    for inv in INVERSIONS {
        let chord = Chord::new(c, ChordType::Dominant7, inv).unwrap();
        match inv {
            Inversion::PianoOriginal | Inversion::PianoFirst | Inversion::PianoSecond | Inversion::PianoThird => {
                assert_eq!(chord.tones.len(), 4)
            }
            _ => assert!(chord.tones.len() == 5 || chord.tones.len() == 6),
        }
        assert_eq!(sorted_classes(&chord), vec![1, 5, 8, 11]);
    }
}

#[test]
fn chord_voicings_in_order() {
    let c = tone(NeutralTone::C, ToneVariant::Neutral);
    let first = Chord::new(c, ChordType::Major7, Inversion::PianoFirst).unwrap();
    assert_eq!(first.pitch_classes(), vec![5, 8, 12, 1]);
    let g5 = Chord::new(c, ChordType::Major7, Inversion::GuitarFifth).unwrap();
    assert_eq!(g5.pitch_classes(), vec![12, 5, 8, 1, 8]);
    let g1 = Chord::new(c, ChordType::Major7, Inversion::GuitarFirst).unwrap();
    assert_eq!(g1.pitch_classes(), vec![1, 8, 12, 5, 8, 1]);
    let dim = Chord::new(c, ChordType::Diminished7, Inversion::PianoOriginal).unwrap();
    assert_eq!(dim.pitch_classes(), vec![1, 4, 7, 10]);
    assert_eq!(dim.tones[3], tone(NeutralTone::A, ToneVariant::Neutral));
    let half = Chord::new(tone(NeutralTone::B, ToneVariant::Neutral), ChordType::HalfDiminished7, Inversion::PianoOriginal).unwrap();
    assert_eq!(half.pitch_classes(), vec![12, 3, 6, 10]);
}

#[test]
fn chord_root_is_respelled() {
    let as_ = tone(NeutralTone::A, ToneVariant::Sharp);
    let c = Chord::new(as_, ChordType::Major7, Inversion::PianoOriginal).unwrap();
    assert_eq!(c.tonic, tone(NeutralTone::B, ToneVariant::Flat));
    assert_eq!(c.tones[1], tone(NeutralTone::D, ToneVariant::Neutral));
}

#[test]
fn detour_ordering() {
    let target = c_major().gen_chord(1, Difficulty::Easy).unwrap();
    let v = DeTour::SD25.build_chords(target, Difficulty::Easy).unwrap();
    assert_eq!(v.len(), 3);
    assert_eq!(v[0].tonic, tone(NeutralTone::C, ToneVariant::Neutral));
    assert_eq!(v[0].chord_type, ChordType::Major7);
    assert_eq!(v[1].tonic, tone(NeutralTone::G, ToneVariant::Neutral));
    assert_eq!(v[1].chord_type, ChordType::Dominant7);
    assert_eq!(v[2].tonic, tone(NeutralTone::D, ToneVariant::Neutral));
    assert_eq!(v[2].chord_type, ChordType::Minor7);
    assert_eq!(v[1].tonic.idx, (v[0].tonic.idx + 7 - 1) % 12 + 1);
    assert_eq!(v[2].tonic.idx, (v[1].tonic.idx + 7 - 1) % 12 + 1);
}

#[test]
fn detour_shapes() {
    let t = || c_major().gen_chord(1, Difficulty::Easy).unwrap();
    assert_eq!(DeTour::Straight.build_chords(t(), Difficulty::Easy).unwrap().len(), 1);
    let sd = DeTour::SecondaryDominant.build_chords(t(), Difficulty::Easy).unwrap();
    assert_eq!(sd[1].tonic, tone(NeutralTone::G, ToneVariant::Neutral));
    let sub = DeTour::SubstituteSD.build_chords(t(), Difficulty::Easy).unwrap();
    assert_eq!(sub[1].tonic, tone(NeutralTone::D, ToneVariant::Neutral));
    assert_eq!(sub[1].chord_type, ChordType::Dominant7);
    let ssd = DeTour::SSD25.build_chords(t(), Difficulty::Easy).unwrap();
    assert_eq!(ssd.len(), 3);
    assert_eq!(ssd[2].tonic, tone(NeutralTone::A, ToneVariant::Neutral));
    assert_eq!(ssd[2].chord_type, ChordType::Minor7);
}

#[test]
fn home_keys_of_chords() {
    let k = c_major();
    let g7 = k.gen_chord(5, Difficulty::Easy).unwrap();
    let homes = g7.gen_major_keys().unwrap();
    assert_eq!(homes, vec![c_major()]);
    let dm7 = k.gen_chord(2, Difficulty::Easy).unwrap();
    let homes = dm7.gen_major_keys().unwrap();
    let tonics: Vec<Tone> = homes.iter().map(|k| k.tonic).collect();
    assert_eq!(
        tonics,
        vec![
            tone(NeutralTone::C, ToneVariant::Neutral),
            tone(NeutralTone::B, ToneVariant::Flat),
            tone(NeutralTone::F, ToneVariant::Neutral),
        ]
    );
    let dim = Chord::new(tone(NeutralTone::C, ToneVariant::Neutral), ChordType::Diminished7, Inversion::PianoOriginal).unwrap();
    assert_eq!(dim.gen_major_keys().unwrap().len(), 4);
}

#[test]
fn degree_tones_of_c_major() {
    let k = c_major();
    let names: Vec<Tone> = (1..=7).map(|d| k.gen_tone(d).unwrap()).collect();
    assert_eq!(
        names,
        vec![
            tone(NeutralTone::C, ToneVariant::Neutral),
            tone(NeutralTone::D, ToneVariant::Neutral),
            tone(NeutralTone::E, ToneVariant::Neutral),
            tone(NeutralTone::F, ToneVariant::Neutral),
            tone(NeutralTone::G, ToneVariant::Neutral),
            tone(NeutralTone::A, ToneVariant::Neutral),
            tone(NeutralTone::B, ToneVariant::Neutral),
        ]
    );
}

#[test]
fn changed_keys_keep_their_signature_spelling() {
    for i in 0..13usize {
        for m in MODES {
            let k = Key::new(Key::sample_tonic(i), m);
            assert_eq!(k.tonic.rematch_key(&k.key_type), k.tonic);
            for o in 0..7i8 {
                let k1 = k.change_mode(o).unwrap();
                assert_eq!(k1.tonic.rematch_key(&k1.key_type), k1.tonic);
            }
        }
    }
    for _ in 0..100 {
        let k = Key::sample(Difficulty::Hell).unwrap();
        assert_eq!(k.tonic.rematch_key(&k.key_type), k.tonic);
    }
}

#[test]
fn sampled_tonics_by_index() {
    let want = [
        (NeutralTone::C, ToneVariant::Neutral),
        (NeutralTone::D, ToneVariant::Neutral),
        (NeutralTone::E, ToneVariant::Neutral),
        (NeutralTone::F, ToneVariant::Sharp),
        (NeutralTone::G, ToneVariant::Neutral),
        (NeutralTone::A, ToneVariant::Neutral),
        (NeutralTone::B, ToneVariant::Neutral),
        (NeutralTone::B, ToneVariant::Flat),
        (NeutralTone::A, ToneVariant::Flat),
        (NeutralTone::G, ToneVariant::Flat),
        (NeutralTone::F, ToneVariant::Neutral),
        (NeutralTone::E, ToneVariant::Flat),
        (NeutralTone::D, ToneVariant::Flat),
    ];
    for (i, (l, v)) in want.iter().enumerate() {
        assert_eq!(Key::sample_tonic(i), tone(*l, *v));
    }
}
