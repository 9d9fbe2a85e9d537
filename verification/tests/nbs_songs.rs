use stasis_bot::nbs::defs::{NbsInstrument, NbsPitch};
use stasis_bot::nbs::file::{NbsError, NbsField, NbsParseOutcome, NbsSong};
use stasis_bot::nbs::song::{NbsNote, ResourceLocation};

fn text(out: &mut Vec<u8>, s: &[u8]) {
    out.extend_from_slice(&(s.len() as u32).to_le_bytes());
    out.extend_from_slice(s);
}

/// An old-layout song file with the given name and note section.
fn song_file(name: &[u8], notes: &[u8]) -> Vec<u8> {
    let mut b = Vec::new();
    b.extend_from_slice(&10u16.to_le_bytes()); // length in ticks
    b.extend_from_slice(&1u16.to_le_bytes()); // height
    text(&mut b, name);
    text(&mut b, b"author");
    text(&mut b, b"");
    text(&mut b, b"line one\nline two");
    b.extend_from_slice(&1000u16.to_le_bytes()); // tempo
    b.extend_from_slice(&[0u8; 23]); // settings
    text(&mut b, b"import.mid");
    b.extend_from_slice(notes);
    b
}

fn two_notes() -> Vec<u8> {
    let mut n = Vec::new();
    n.extend_from_slice(&1u16.to_le_bytes()); // tick 0
    n.extend_from_slice(&1u16.to_le_bytes()); // layer 0
    n.extend_from_slice(&[0, 45]); // harp, key 45 (pitch 12)
    n.extend_from_slice(&0u16.to_le_bytes());
    n.extend_from_slice(&2u16.to_le_bytes()); // tick 2
    n.extend_from_slice(&1u16.to_le_bytes()); // layer 0
    n.extend_from_slice(&[1, 33]); // bass, key 33 (pitch 0)
    n.extend_from_slice(&0u16.to_le_bytes());
    n.extend_from_slice(&0u16.to_le_bytes()); // end
    n
}

#[test]
fn parses_an_old_layout_song() {
    let bytes = song_file(b"  My Song ", &two_notes());
    let song = NbsSong::from_reader(&bytes, Some("song.nbs")).unwrap();
    assert_eq!(song.length_ticks, 10);
    assert_eq!(song.height, 1);
    assert_eq!(song.tempo, 1000);
    assert_eq!(song.author, "author");
    assert_eq!(song.notes.len(), 2);
    assert_eq!(song.notes[0].tick, 0);
    assert_eq!(song.notes[0].layer, 0);
    assert_eq!(song.notes[0].note.instrument, NbsInstrument::Harp);
    assert_eq!(song.notes[0].note.pitch.ordinal(), 12);
    assert_eq!(song.notes[1].tick, 2);
    assert_eq!(song.notes[1].note.instrument, NbsInstrument::Bass);
    assert_eq!(song.notes[1].note.pitch.ordinal(), 0);
    assert_eq!(song.unique.len(), 2);
    assert_eq!(song.friendly_name(), "My Song");
}

#[test]
fn repeated_notes_are_unique_once() {
    let mut n = Vec::new();
    for _ in 0..3 {
        n.extend_from_slice(&1u16.to_le_bytes());
        n.extend_from_slice(&1u16.to_le_bytes());
        n.extend_from_slice(&[0, 40]);
        n.extend_from_slice(&0u16.to_le_bytes());
    }
    n.extend_from_slice(&0u16.to_le_bytes());
    let song = NbsSong::from_reader(&song_file(b"x", &n), None).unwrap();
    assert_eq!(song.notes.len(), 3);
    assert_eq!(song.unique.len(), 1);
}

#[test]
fn friendly_name_falls_back() {
    let no_name = NbsSong::from_reader(&song_file(b"  ", &[0, 0]), Some("file.nbs")).unwrap();
    assert_eq!(no_name.friendly_name(), "file.nbs");
    let described = NbsSong::from_reader(&song_file(b"", &[0, 0]), None).unwrap();
    assert_eq!(described.friendly_name(), "line oneline two");
}

#[test]
fn invalid_utf8_is_replaced() {
    let song = NbsSong::from_reader(&song_file(&[b'f', 0xFF], &[0, 0]), None).unwrap();
    assert_eq!(song.name, "f\u{FFFD}");
}

#[test]
fn truncated_files_name_the_field() {
    assert_eq!(NbsSong::from_reader(&[], None).err(), Some(NbsError::Truncated(NbsField::LengthTicks)));
    assert_eq!(NbsSong::from_reader(&[0, 0], None).err(), Some(NbsError::Truncated(NbsField::FormatInfo)));
    let bytes = song_file(b"x", &[]);
    assert_eq!(NbsSong::from_reader(&bytes, None).err(), Some(NbsError::Truncated(NbsField::Jumps)));
    let partial = song_file(b"x", &[1, 0, 1, 0]);
    assert_eq!(NbsSong::from_reader(&partial, None).err(), Some(NbsError::Truncated(NbsField::InstrumentId)));
}

#[test]
fn unknown_instrument_is_rejected() {
    let bytes = song_file(b"x", &[1, 0, 1, 0, 99, 40, 0, 0, 0, 0]);
    assert_eq!(NbsSong::from_reader(&bytes, None).err(), Some(NbsError::UnknownInstrument(99)));
}

#[test]
fn key_overflow_is_reported() {
    let bytes = song_file(b"x", &[1, 0, 1, 0, 0, 0x80, 0, 0, 0, 0]);
    assert!(matches!(NbsSong::parse(&bytes, None), NbsParseOutcome::Overflowed));
}

#[test]
fn right_clicks_between_pitches() {
    let p = NbsPitch::from_ordinal(3).unwrap();
    let q = NbsPitch::from_ordinal(10).unwrap();
    assert_eq!(p.right_clicks_for(&q), 7);
    assert_eq!(p.right_clicks_for(&p), 0);
    // A lower pitch always counts 24 clicks.
    assert_eq!(q.right_clicks_for(&p), 24);
    let mut r = p;
    for _ in 0..p.right_clicks_for(&q) {
        r = r.next();
    }
    assert_eq!(r, q);
}

#[test]
fn note_from_u16_is_always_harp() {
    let note = NbsNote::from_u16(0x0505).unwrap();
    assert_eq!(note.instrument, NbsInstrument::Harp);
    assert_eq!(note.pitch.ordinal(), 5);
    assert!(NbsNote::from_u16(0x0019).is_none());
}

#[test]
fn instrument_ids() {
    let id = NbsInstrument::Bass.instrument_id();
    assert_eq!(id.namespace, "minecraft");
    assert_eq!(id.path, "bass");
    assert_eq!(NbsInstrument::from_instrument_id(&id), Some(NbsInstrument::Bass));
    let other = ResourceLocation { namespace: "other".to_string(), path: "bass".to_string() };
    assert_eq!(NbsInstrument::from_instrument_id(&other), None);
    assert_eq!(NbsInstrument::Pling.name(), "bling");
    assert_eq!(NbsInstrument::from_index(22), Some(NbsInstrument::CustomHead));
    assert_eq!(NbsInstrument::from_index(23), None);
}

#[test]
fn sound_ids_are_never_taken_back() {
    for i in NbsInstrument::values() {
        if let Some(sound) = i.sound_id() {
            assert_eq!(NbsInstrument::from_sound_id(&sound), None);
        }
    }
}
