use rust_synth::{ControlBridge, ControlChange, ControlSnapshot, Dispatch, GateEvent, InputSource, MidiMessage, Note, Pitch};

fn held(key: u8, velocity: u8, bend: u16) -> ControlSnapshot {
    ControlSnapshot { pitch: Pitch::Key(key), gate: GateEvent::On { velocity }, bend }
}

#[test]
fn initial_snapshot() {
    let s = ControlSnapshot::initial();
    assert_eq!(s, ControlSnapshot { pitch: Pitch::Key(69), gate: GateEvent::Off, bend: 8192 });
}

#[test]
fn note_on_opens_gate() {
    let s = ControlSnapshot::initial();
    let d = s.dispatch(&MidiMessage::NoteOn(Note(0, 60, 100)));
    assert_eq!(d, Dispatch::Publish(held(60, 100, 8192)));
}

#[test]
fn note_off_closes_gate() {
    let s = held(60, 100, 9000);
    let d = s.dispatch(&MidiMessage::NoteOff(Note(0, 60, 0)));
    assert_eq!(
        d,
        Dispatch::Publish(ControlSnapshot { pitch: Pitch::Key(60), gate: GateEvent::Off, bend: 9000 })
    );
}

#[test]
fn pitch_bend_changes_bend_only() {
    let s = held(60, 100, 8192);
    let d = s.dispatch(&MidiMessage::PitchBend(0, 0));
    assert_eq!(d, Dispatch::Publish(held(60, 100, 0)));
}

#[test]
fn other_messages_do_not_publish() {
    let s = ControlSnapshot::initial();
    let normal = MidiMessage::ControlChange(ControlChange::Normal(0, 7, 100));
    let mode = MidiMessage::ControlChange(ControlChange::ChannelMode(0, 123, 0));
    assert_eq!(s.dispatch(&normal), Dispatch::Ignore);
    assert_eq!(s.dispatch(&mode), Dispatch::Unsupported);
    assert_eq!(s.dispatch(&MidiMessage::ProgramChange(0, 3)), Dispatch::Unsupported);
}

#[test]
fn source_selection() {
    assert_eq!(InputSource::select(0), InputSource::Keyboard);
    assert_eq!(InputSource::select(1), InputSource::Midi);
    assert_eq!(InputSource::select(usize::MAX), InputSource::Midi);
}

#[test]
fn keys_ignored_while_midi_is_source() {
    let s = ControlSnapshot::initial();
    assert_eq!(InputSource::Midi.on_key(&s, 30, true), None);
}

#[test]
fn keyboard_fallback_end_to_end() {
    let source = InputSource::select(0);
    assert_eq!(source, InputSource::Keyboard);
    let bridge = ControlBridge::new(ControlSnapshot::initial());

    let down = source.on_key(&bridge.read(), 30, true).unwrap();
    bridge.publish(down);
    let seen = bridge.read();
    assert_eq!(seen.gate, GateEvent::On { velocity: 127 });
    assert_eq!(seen.pitch, Pitch::Scancode(30));

    let up = source.on_key(&bridge.read(), 30, false).unwrap();
    bridge.publish(up);
    let seen = bridge.read();
    assert_eq!(seen.gate, GateEvent::Off);
    assert_eq!(seen.pitch, Pitch::Scancode(30));
}

#[test]
fn bridge_returns_last_publish() {
    let bridge = ControlBridge::new(ControlSnapshot::initial());
    assert_eq!(bridge.read(), ControlSnapshot::initial());
    let a = held(60, 100, 8192);
    let b = ControlSnapshot { pitch: Pitch::Scancode(u32::MAX), gate: GateEvent::On { velocity: 255 }, bend: u16::MAX };
    bridge.publish(a);
    bridge.publish(b);
    assert_eq!(bridge.read(), b);
}

#[test]
fn word_round_trip() {
    let cases = [
        ControlSnapshot::initial(),
        held(0, 0, 0),
        held(127, 127, 16383),
        ControlSnapshot { pitch: Pitch::Scancode(0xDEAD_BEEF), gate: GateEvent::Off, bend: 1 },
        ControlSnapshot { pitch: Pitch::Key(255), gate: GateEvent::On { velocity: 200 }, bend: 65535 },
    ];
    for s in cases {
        assert_eq!(ControlSnapshot::from_word(s.to_word()), s);
    }
}

#[test]
fn word_layout() {
    let s = ControlSnapshot { pitch: Pitch::Scancode(2), gate: GateEvent::On { velocity: 3 }, bend: 4 };
    assert_eq!(s.to_word(), (2u64 << 32) | (1 << 25) | (1 << 24) | (3 << 16) | 4);
}
