use vstd::prelude::*;
use crate::messages::{ControlChange, MidiMessage, Note, PITCH_BEND_CENTER};

verus! {

/// Velocity of a note played from the computer keyboard: full level, 0 dB.
pub const KEYBOARD_VELOCITY: u8 = 127;

/// Key of A4, which sounds when nothing has been played yet.
pub const A4_KEY: u8 = 69;

/// What sets the pitch of the synthesizer.
#[derive(Debug, Clone, Copy, PartialEq, Eq, Structural)]
pub enum Pitch {
    /// A MIDI key, tuned in equal temperament around A4 = 440 Hz.
    Key(u8),
    /// A keyboard scan code, sounding at a hundred hertz per unit.
    Scancode(u32),
}

/// The envelope trigger: a note held down, or released.
#[derive(Debug, Clone, Copy, PartialEq, Eq, Structural)]
pub enum GateEvent {
    /// A note starts; its level is given by a MIDI velocity.
    On { velocity: u8 },
    Off,
}

/// The synthesizer's parameters at one instant.
#[derive(Debug, Clone, Copy, PartialEq, Eq, Structural)]
pub struct ControlSnapshot {
    pub pitch: Pitch,
    pub gate: GateEvent,
    /// Raw pitch-bend value; 8192 is the rest position.
    pub bend: u16,
}

/// What a control producer does with a decoded message.
#[derive(Debug, Clone, Copy, PartialEq, Eq, Structural)]
pub enum Dispatch {
    /// Publish this snapshot.
    Publish(ControlSnapshot),
    /// The message changes nothing.
    Ignore,
    /// The message is valid but the synthesizer does not act on it yet.
    Unsupported,
}

/// The one source of control events, fixed at startup.
#[derive(Debug, Clone, Copy, PartialEq, Eq, Structural)]
pub enum InputSource {
    Midi,
    Keyboard,
}

/// The source chosen at startup from the number of MIDI input ports.
pub open spec fn spec_select(port_count: nat) -> InputSource {
    if port_count > 0 {
        InputSource::Midi
    } else {
        InputSource::Keyboard
    }
}

/// The snapshot with its gate opened on `note`.
pub open spec fn spec_note_on(current: ControlSnapshot, note: Note) -> ControlSnapshot {
    ControlSnapshot {
        pitch: Pitch::Key(note.1),
        gate: GateEvent::On { velocity: note.2 },
        bend: current.bend,
    }
}

/// The snapshot with its gate closed and all else kept.
pub open spec fn spec_released(current: ControlSnapshot) -> ControlSnapshot {
    ControlSnapshot { gate: GateEvent::Off, ..current }
}

/// How a decoded message changes the current snapshot.
pub open spec fn spec_dispatch(current: ControlSnapshot, message: MidiMessage) -> Dispatch {
    match message {
        MidiMessage::NoteOn(note) => Dispatch::Publish(spec_note_on(current, note)),
        MidiMessage::NoteOff(_) => Dispatch::Publish(spec_released(current)),
        MidiMessage::PitchBend(_, value) => Dispatch::Publish(
            ControlSnapshot { bend: value, ..current },
        ),
        MidiMessage::ControlChange(ControlChange::Normal(_, _, _)) => Dispatch::Ignore,
        MidiMessage::ControlChange(ControlChange::ChannelMode(_, _, _)) => Dispatch::Unsupported,
        MidiMessage::ProgramChange(_, _) => Dispatch::Unsupported,
    }
}

/// How a key event from the computer keyboard changes the current snapshot,
/// when the keyboard is the active source.
pub open spec fn spec_key_event(current: ControlSnapshot, scancode: u32, pressed: bool) -> ControlSnapshot {
    if pressed {
        ControlSnapshot {
            pitch: Pitch::Scancode(scancode),
            gate: GateEvent::On { velocity: KEYBOARD_VELOCITY },
            bend: current.bend,
        }
    } else {
        spec_released(current)
    }
}

impl ControlSnapshot {
    /// A4, no note held, and the wheel at rest.
    pub fn initial() -> (r: ControlSnapshot)
        ensures
            r == (ControlSnapshot {
                pitch: Pitch::Key(A4_KEY),
                gate: GateEvent::Off,
                bend: PITCH_BEND_CENTER,
            }),
    {
        ControlSnapshot { pitch: Pitch::Key(A4_KEY), gate: GateEvent::Off, bend: PITCH_BEND_CENTER }
    }

    /// The snapshot that follows this one after `message`. Note-on and
    /// note-off each yield exactly one gate event; the note's velocity
    /// travels with the opened gate.
    pub fn dispatch(&self, message: &MidiMessage) -> (r: Dispatch)
        ensures
            r == spec_dispatch(*self, *message),
    {
        match message {
            MidiMessage::NoteOn(note) => Dispatch::Publish(
                ControlSnapshot {
                    pitch: Pitch::Key(note.1),
                    gate: GateEvent::On { velocity: note.2 },
                    bend: self.bend,
                },
            ),
            MidiMessage::NoteOff(_) => Dispatch::Publish(
                ControlSnapshot { pitch: self.pitch, gate: GateEvent::Off, bend: self.bend },
            ),
            MidiMessage::PitchBend(_, value) => Dispatch::Publish(
                ControlSnapshot { pitch: self.pitch, gate: self.gate, bend: *value },
            ),
            MidiMessage::ControlChange(ControlChange::Normal(_, _, _)) => Dispatch::Ignore,
            MidiMessage::ControlChange(ControlChange::ChannelMode(_, _, _)) => Dispatch::Unsupported,
            MidiMessage::ProgramChange(_, _) => Dispatch::Unsupported,
        }
    }
}

impl InputSource {
    /// MIDI when the driver reports at least one input port, the computer
    /// keyboard otherwise.
    pub fn select(port_count: usize) -> (r: InputSource)
        ensures
            r == spec_select(port_count as nat),
    {
        if port_count > 0 {
            InputSource::Midi
        } else {
            InputSource::Keyboard
        }
    }

    /// The snapshot to publish after a key of the computer keyboard goes
    /// down or up; none while MIDI is the source.
    pub fn on_key(&self, current: &ControlSnapshot, scancode: u32, pressed: bool) -> (r: Option<
        ControlSnapshot,
    >)
        ensures
            *self == InputSource::Midi ==> r is None,
            *self == InputSource::Keyboard ==> r == Some(spec_key_event(*current, scancode, pressed)),
    {
        match self {
            InputSource::Midi => None,
            InputSource::Keyboard => {
                if pressed {
                    Some(
                        ControlSnapshot {
                            pitch: Pitch::Scancode(scancode),
                            gate: GateEvent::On { velocity: KEYBOARD_VELOCITY },
                            bend: current.bend,
                        },
                    )
                } else {
                    Some(
                        ControlSnapshot {
                            pitch: current.pitch,
                            gate: GateEvent::Off,
                            bend: current.bend,
                        },
                    )
                }
            },
        }
    }
}

} // verus!
