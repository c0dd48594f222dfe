use rust_synth::messages::{message_len, pitch_bend_tenth_cents, split_status_and_channel};
use rust_synth::{ControlChange, DecodeError, MidiMessage, Note};

#[test]
fn note_on_decodes() {
    let m = MidiMessage::try_new(&[0x90, 60, 100]);
    assert_eq!(m, Ok(MidiMessage::NoteOn(Note(0, 60, 100))));
}

#[test]
fn note_off_decodes() {
    let m = MidiMessage::try_new(&[0x80, 60, 0]);
    assert_eq!(m, Ok(MidiMessage::NoteOff(Note(0, 60, 0))));
}

#[test]
fn note_channel_comes_from_low_nibble() {
    let m = MidiMessage::try_new(&[0x9A, 61, 7]);
    assert_eq!(m, Ok(MidiMessage::NoteOn(Note(10, 61, 7))));
}

#[test]
fn controller_119_is_normal() {
    let m = MidiMessage::try_new(&[0xB0, 119, 5]);
    assert_eq!(m, Ok(MidiMessage::ControlChange(ControlChange::Normal(0, 119, 5))));
}

#[test]
fn controller_120_is_channel_mode() {
    let m = MidiMessage::try_new(&[0xB0, 120, 5]);
    assert_eq!(m, Ok(MidiMessage::ControlChange(ControlChange::ChannelMode(0, 120, 5))));
}

#[test]
fn aftertouch_is_unrecognized() {
    assert_eq!(MidiMessage::try_new(&[0xA0, 60, 10]), Err(DecodeError::Unrecognized));
    assert_eq!(MidiMessage::try_new(&[0xD3, 10]), Err(DecodeError::Unrecognized));
    assert_eq!(MidiMessage::try_new(&[0xF8]), Err(DecodeError::Unrecognized));
}

#[test]
fn unrecognized_message_text() {
    assert_eq!(DecodeError::Unrecognized.message(), "Unrecognized message");
}

#[test]
fn program_change_decodes() {
    assert_eq!(MidiMessage::try_new(&[0xC5, 12]), Ok(MidiMessage::ProgramChange(5, 12)));
}

#[test]
fn pitch_bend_assembles_fourteen_bits() {
    assert_eq!(MidiMessage::try_new(&[0xE0, 0x00, 0x40]), Ok(MidiMessage::PitchBend(0, 8192)));
    assert_eq!(MidiMessage::try_new(&[0xE1, 0x7F, 0x7F]), Ok(MidiMessage::PitchBend(1, 16383)));
    assert_eq!(MidiMessage::try_new(&[0xE2, 0x01, 0x00]), Ok(MidiMessage::PitchBend(2, 1)));
}

#[test]
fn split_nibbles() {
    assert_eq!(split_status_and_channel(0x9F), (0x9, 0xF));
    assert_eq!(split_status_and_channel(0x00), (0x0, 0x0));
}

#[test]
fn message_lengths() {
    assert_eq!(message_len(0x90), 3);
    assert_eq!(message_len(0x80), 3);
    assert_eq!(message_len(0xB0), 3);
    assert_eq!(message_len(0xE0), 3);
    assert_eq!(message_len(0xC0), 2);
    assert_eq!(message_len(0xA0), 1);
}

#[test]
fn pitch_bend_cents() {
    assert_eq!(pitch_bend_tenth_cents(8192), 0);
    assert_eq!(pitch_bend_tenth_cents(0), -8192);
    assert_eq!(pitch_bend_tenth_cents(16383), 8191);
}

#[test]
fn note_semitones_from_a4() {
    assert_eq!(Note(0, 69, 0).semitones_from_a4(), 0);
    assert_eq!(Note(0, 57, 0).semitones_from_a4(), -12);
    assert_eq!(Note(0, 0, 0).semitones_from_a4(), -69);
}

#[test]
fn note_level() {
    assert_eq!(Note(0, 60, 127).level_db_127ths(), 0);
    assert_eq!(Note(0, 60, 0).level_db_127ths(), -70 * 127);
    assert_eq!(Note(0, 60, 64).level_db_127ths(), 64 * 70 - 8890);
}

#[test]
fn note_getters() {
    let n = Note(3, 64, 90);
    assert_eq!((n.channel(), n.key(), n.velocity()), (3, 64, 90));
}

#[test]
fn driver_bytes_decode_or_drop() {
    assert_eq!(MidiMessage::from_driver(&[]), Err(DecodeError::Truncated));
    assert_eq!(MidiMessage::from_driver(&[0x90, 60]), Err(DecodeError::Truncated));
    assert_eq!(MidiMessage::from_driver(&[0xC0]), Err(DecodeError::Truncated));
    assert_eq!(MidiMessage::from_driver(&[0xA0]), Err(DecodeError::Unrecognized));
    assert_eq!(
        MidiMessage::from_driver(&[0x91, 64, 80]),
        Ok(MidiMessage::NoteOn(Note(1, 64, 80)))
    );
    assert_eq!(DecodeError::Truncated.message(), "Truncated message");
}
