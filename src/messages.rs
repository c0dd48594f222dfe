use vstd::prelude::*;

verus! {

/// Status nibble of a note-off message.
pub const NOTE_OFF: u8 = 0x8;

/// Status nibble of a note-on message.
pub const NOTE_ON: u8 = 0x9;

/// Status nibble of a control-change message.
pub const CONTROL_CHANGE: u8 = 0xB;

/// Status nibble of a program-change message.
pub const PROGRAM_CHANGE: u8 = 0xC;

/// Status nibble of a pitch-bend message.
pub const PITCH_BEND_CHANGE: u8 = 0xE;

/// Highest controller number of the ordinary controller range; the numbers
/// above it are the reserved channel-mode messages.
pub const LAST_NORMAL_CONTROLLER: u8 = 119;

/// Pitch-bend value of a wheel at rest.
pub const PITCH_BEND_CENTER: u16 = 8192;

/// A note event: channel, key and velocity, in the order of the wire format.
#[derive(Debug, Clone, Copy, PartialEq, Eq, Structural)]
pub struct Note(pub u8, pub u8, pub u8);

/// A control-change message, split by controller number.
#[derive(Debug, Clone, Copy, PartialEq, Eq, Structural)]
pub enum ControlChange {
    /// Channel, controller number (0 to 119) and value.
    Normal(u8, u8, u8),
    /// Channel, controller number (120 to 127) and value.
    ChannelMode(u8, u8, u8),
}

/// A decoded channel message.
#[derive(Debug, Clone, Copy, PartialEq, Eq, Structural)]
pub enum MidiMessage {
    NoteOn(Note),
    NoteOff(Note),
    /// Channel and program number.
    ProgramChange(u8, u8),
    ControlChange(ControlChange),
    /// Channel and the bend value: `msb << 7 | lsb`, 14 bits when both data
    /// bytes are seven-bit as the wire format has them.
    PitchBend(u8, u16),
}

/// Why a raw message could not be decoded.
#[derive(Debug, Clone, Copy, PartialEq, Eq, Structural)]
pub enum DecodeError {
    /// The status nibble names no message this decoder handles.
    Unrecognized,
    /// The bytes stop before the message that their status byte announces.
    Truncated,
}

impl DecodeError {
    /// Text for an operator-facing log.
    pub fn message(&self) -> (r: &'static str)
        ensures
            *self == DecodeError::Unrecognized ==> r@ == "Unrecognized message"@,
            *self == DecodeError::Truncated ==> r@ == "Truncated message"@,
    {
        match self {
            DecodeError::Unrecognized => "Unrecognized message",
            DecodeError::Truncated => "Truncated message",
        }
    }
}

/// High nibble of a status byte.
pub open spec fn status_of(b: u8) -> u8 {
    b / 16
}

/// Low nibble of a status byte.
pub open spec fn channel_of(b: u8) -> u8 {
    b % 16
}

/// How many bytes a message starting with `first` occupies: the status byte
/// and its data bytes. Unrecognized messages are read no further than their
/// status byte.
pub open spec fn spec_message_len(first: u8) -> nat {
    let s = status_of(first);
    if s == NOTE_OFF || s == NOTE_ON || s == CONTROL_CHANGE || s == PITCH_BEND_CHANGE {
        3
    } else if s == PROGRAM_CHANGE {
        2
    } else {
        1
    }
}

/// The bend value carried by two data bytes, least significant first.
pub open spec fn bend_value(lsb: u8, msb: u8) -> u16 {
    ((msb as u16) << 7u16) | (lsb as u16)
}

/// The message that `raw` encodes.
pub open spec fn decoded(raw: Seq<u8>) -> Result<MidiMessage, DecodeError> {
    let s = status_of(raw[0]);
    let c = channel_of(raw[0]);
    if s == NOTE_OFF {
        Ok(MidiMessage::NoteOff(Note(c, raw[1], raw[2])))
    } else if s == NOTE_ON {
        Ok(MidiMessage::NoteOn(Note(c, raw[1], raw[2])))
    } else if s == CONTROL_CHANGE {
        if raw[1] <= LAST_NORMAL_CONTROLLER {
            Ok(MidiMessage::ControlChange(ControlChange::Normal(c, raw[1], raw[2])))
        } else {
            Ok(MidiMessage::ControlChange(ControlChange::ChannelMode(c, raw[1], raw[2])))
        }
    } else if s == PITCH_BEND_CHANGE {
        Ok(MidiMessage::PitchBend(c, bend_value(raw[1], raw[2])))
    } else if s == PROGRAM_CHANGE {
        Ok(MidiMessage::ProgramChange(c, raw[1]))
    } else {
        Err(DecodeError::Unrecognized)
    }
}

/// With seven-bit data bytes, the bend value is `msb * 128 + lsb`.
pub proof fn lemma_bend_value_seven_bit(lsb: u8, msb: u8)
    requires
        lsb < 128,
        msb < 128,
    ensures
        bend_value(lsb, msb) == msb as int * 128 + lsb as int,
        bend_value(lsb, msb) < 16384,
{
    assert((((msb as u16) << 7u16) | (lsb as u16)) == (msb as u16) * 128 + (lsb as u16)
        && (msb as u16) * 128 + (lsb as u16) < 16384) by (bit_vector)
        requires
            lsb < 128,
            msb < 128,
    ;
}

/// Splits a status byte into its status nibble and its channel.
pub fn split_status_and_channel(status_byte: u8) -> (r: (u8, u8))
    ensures
        r.0 == status_of(status_byte),
        r.1 == channel_of(status_byte),
        r.0 < 16,
        r.1 < 16,
{
    let channel = status_byte & 0x0F;
    let status = status_byte >> 4;
    assert((status_byte & 0x0F) == status_byte % 16 && (status_byte >> 4) == status_byte / 16)
        by (bit_vector);
    (status, channel)
}

/// Number of bytes a message whose first byte is `first` must supply.
pub fn message_len(first: u8) -> (r: usize)
    ensures
        r == spec_message_len(first),
{
    let (status, _channel) = split_status_and_channel(first);
    if status == NOTE_OFF || status == NOTE_ON || status == CONTROL_CHANGE
        || status == PITCH_BEND_CHANGE {
        3
    } else if status == PROGRAM_CHANGE {
        2
    } else {
        1
    }
}

impl Note {
    pub fn channel(&self) -> (r: u8)
        ensures
            r == self.0,
    {
        self.0
    }

    pub fn key(&self) -> (r: u8)
        ensures
            r == self.1,
    {
        self.1
    }

    pub fn velocity(&self) -> (r: u8)
        ensures
            r == self.2,
    {
        self.2
    }

    /// Signed distance in semitones from A4 (key 69, 440 Hz); the frequency
    /// is `440 * 2^(semitones / 12)`.
    pub fn semitones_from_a4(&self) -> (r: i16)
        ensures
            r == self.1 as int - 69,
    {
        self.1 as i16 - 69
    }

    /// Level of the note in 127ths of a decibel: `velocity / 127 * 70 - 70`
    /// decibels, so velocity 0 lies at the -70 dB floor and 127 at 0 dB.
    pub fn level_db_127ths(&self) -> (r: i32)
        ensures
            r == self.2 as int * 70 - 70 * 127,
    {
        self.2 as i32 * 70 - 70 * 127
    }
}

/// Offset of a pitch-bend value from the wheel's rest position, in tenths of
/// a cent: one step of the wheel is a tenth of a cent.
pub fn pitch_bend_tenth_cents(value: u16) -> (r: i32)
    ensures
        r == value as int - PITCH_BEND_CENTER as int,
{
    value as i32 - PITCH_BEND_CENTER as i32
}

impl MidiMessage {
    /// Decodes one framed message. The driver frames messages, so `raw`
    /// holds at least the bytes that its status byte calls for.
    pub fn try_new(raw_message: &[u8]) -> (r: Result<MidiMessage, DecodeError>)
        requires
            raw_message@.len() >= 1,
            raw_message@.len() >= spec_message_len(raw_message@[0]),
        ensures
            r == decoded(raw_message@),
            r is Err <==> spec_message_len(raw_message@[0]) == 1,
    {
        let (status, channel) = split_status_and_channel(raw_message[0]);
        if status == NOTE_OFF {
            Ok(MidiMessage::NoteOff(Note(channel, raw_message[1], raw_message[2])))
        } else if status == NOTE_ON {
            Ok(MidiMessage::NoteOn(Note(channel, raw_message[1], raw_message[2])))
        } else if status == CONTROL_CHANGE {
            let cc_number = raw_message[1];
            if cc_number <= LAST_NORMAL_CONTROLLER {
                Ok(MidiMessage::ControlChange(ControlChange::Normal(channel, cc_number, raw_message[2])))
            } else {
                Ok(MidiMessage::ControlChange(ControlChange::ChannelMode(channel, cc_number, raw_message[2])))
            }
        } else if status == PITCH_BEND_CHANGE {
            let msb = (raw_message[2] as u16) << 7;
            let lsb = raw_message[1] as u16;
            Ok(MidiMessage::PitchBend(channel, msb | lsb))
        } else if status == PROGRAM_CHANGE {
            Ok(MidiMessage::ProgramChange(channel, raw_message[1]))
        } else {
            Err(DecodeError::Unrecognized)
        }
    }
}

impl MidiMessage {
    /// Decodes the bytes of one driver callback. Bytes that stop short of the
    /// message their status byte announces are refused as truncated; the
    /// others decode as `try_new` does. Either error means the message is
    /// dropped.
    pub fn from_driver(raw_message: &[u8]) -> (r: Result<MidiMessage, DecodeError>)
        ensures
            raw_message@.len() == 0 ==> r == Err::<MidiMessage, DecodeError>(
                DecodeError::Truncated,
            ),
            raw_message@.len() > 0 && raw_message@.len() < spec_message_len(raw_message@[0])
                ==> r == Err::<MidiMessage, DecodeError>(DecodeError::Truncated),
            raw_message@.len() > 0 && raw_message@.len() >= spec_message_len(raw_message@[0])
                ==> r == decoded(raw_message@),
    {
        if raw_message.len() == 0 || raw_message.len() < message_len(raw_message[0]) {
            Err(DecodeError::Truncated)
        } else {
            MidiMessage::try_new(raw_message)
        }
    }
}

} // verus!
