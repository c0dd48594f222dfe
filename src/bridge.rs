use vstd::prelude::*;
use crossbeam::atomic::AtomicCell;
use crate::control::{spec_key_event, spec_select, ControlSnapshot, GateEvent, InputSource, Pitch, KEYBOARD_VELOCITY};

verus! {

#[verifier::external_type_specification]
#[verifier::external_body]
#[verifier::reject_recursive_types(T)]
pub struct ExAtomicCell<T>(AtomicCell<T>);

/// Relies on crossbeam's `AtomicCell::new`: builds a cell that holds `val`.
pub assume_specification<T>[ AtomicCell::<T>::new ](val: T) -> AtomicCell<T>;

/// Relies on crossbeam's `AtomicCell::store`: an atomic release store of `val`
/// (for a `u64`, one hardware atomic store, so no reader sees part of it).
pub assume_specification<T>[ AtomicCell::<T>::store ](cell: &AtomicCell<T>, val: T);

/// Relies on crossbeam's `AtomicCell::load`: an atomic acquire load of the
/// value that some store, or `new`, put in the cell.
pub assume_specification<T: Copy>[ AtomicCell::<T>::load ](cell: &AtomicCell<T>) -> T;

/// Bits 0 to 15 of a packed snapshot hold the bend value.
pub const BEND_MASK: u64 = 0xFFFF;

/// Bits 16 to 23 hold the velocity of an opened gate.
pub const VELOCITY_SHIFT: u64 = 16;

/// Bit 24 is set while a note is held.
pub const GATE_SHIFT: u64 = 24;

/// Bit 25 is set when the pitch is a keyboard scan code.
pub const SCANCODE_SHIFT: u64 = 25;

/// Bits 32 to 63 hold the key or scan code.
pub const PITCH_SHIFT: u64 = 32;

pub open spec fn pitch_tag(p: Pitch) -> u64 {
    match p {
        Pitch::Key(_) => 0,
        Pitch::Scancode(_) => 1,
    }
}

pub open spec fn pitch_value(p: Pitch) -> u32 {
    match p {
        Pitch::Key(k) => k as u32,
        Pitch::Scancode(c) => c,
    }
}

pub open spec fn gate_bit(g: GateEvent) -> u64 {
    match g {
        GateEvent::On { .. } => 1,
        GateEvent::Off => 0,
    }
}

pub open spec fn gate_velocity(g: GateEvent) -> u8 {
    match g {
        GateEvent::On { velocity } => velocity,
        GateEvent::Off => 0,
    }
}

/// The one machine word that stands for a snapshot.
pub open spec fn spec_pack(s: ControlSnapshot) -> u64 {
    (s.bend as u64) | ((gate_velocity(s.gate) as u64) << VELOCITY_SHIFT) | (gate_bit(s.gate)
        << GATE_SHIFT) | (pitch_tag(s.pitch) << SCANCODE_SHIFT) | ((pitch_value(s.pitch) as u64)
        << PITCH_SHIFT)
}

/// The snapshot that a machine word stands for.
pub open spec fn spec_unpack(w: u64) -> ControlSnapshot {
    let value = (w >> PITCH_SHIFT) as u32;
    ControlSnapshot {
        pitch: if (w >> SCANCODE_SHIFT) & 1 == 1 {
            Pitch::Scancode(value)
        } else {
            Pitch::Key(value as u8)
        },
        gate: if (w >> GATE_SHIFT) & 1 == 1 {
            GateEvent::On { velocity: ((w >> VELOCITY_SHIFT) & 0xFF) as u8 }
        } else {
            GateEvent::Off
        },
        bend: (w & BEND_MASK) as u16,
    }
}

proof fn lemma_fields_of_word(bend: u16, velocity: u8, gate: u64, tag: u64, value: u32)
    requires
        gate <= 1,
        tag <= 1,
    ensures
        ({
            let w = (bend as u64) | ((velocity as u64) << 16u64) | (gate << 24u64) | (tag << 25u64)
                | ((value as u64) << 32u64);
            &&& (w >> 32u64) as u32 == value
            &&& (w >> 25u64) & 1 == tag
            &&& (w >> 24u64) & 1 == gate
            &&& ((w >> 16u64) & 0xFF) as u8 == velocity
            &&& (w & 0xFFFF) as u16 == bend
        }),
{
    let w = (bend as u64) | ((velocity as u64) << 16u64) | (gate << 24u64) | (tag << 25u64) | ((
    value as u64) << 32u64);
    assert((w >> 32u64) as u32 == value && (w >> 25u64) & 1 == tag && (w >> 24u64) & 1 == gate
        && ((w >> 16u64) & 0xFF) as u8 == velocity && (w & 0xFFFF) as u16 == bend) by (bit_vector)
        requires
            gate <= 1,
            tag <= 1,
            w == (bend as u64) | ((velocity as u64) << 16u64) | (gate << 24u64) | (tag << 25u64)
                | ((value as u64) << 32u64),
    ;
}

/// A packed snapshot unpacks to exactly that snapshot: a word carries all
/// fields of one publish and nothing of another.
pub proof fn lemma_word_round_trip(s: ControlSnapshot)
    ensures
        spec_unpack(spec_pack(s)) == s,
{
    lemma_fields_of_word(
        s.bend,
        gate_velocity(s.gate),
        gate_bit(s.gate),
        pitch_tag(s.pitch),
        pitch_value(s.pitch),
    );
    match s.pitch {
        Pitch::Key(k) => {
            assert((k as u32) as u8 == k);
        },
        Pitch::Scancode(_) => {},
    }
}

/// With no MIDI port the keyboard becomes the source; a key press then
/// yields a snapshot whose gate is open at full velocity and a release one
/// whose gate is closed, and each comes out of the bridge's word as it went
/// in.
pub proof fn lemma_keyboard_fallback(current: ControlSnapshot, scancode: u32)
    ensures
        spec_select(0) == InputSource::Keyboard,
        spec_key_event(current, scancode, true).gate == (GateEvent::On {
            velocity: KEYBOARD_VELOCITY,
        }),
        spec_key_event(current, scancode, true).pitch == Pitch::Scancode(scancode),
        spec_key_event(current, scancode, false).gate == GateEvent::Off,
        spec_unpack(spec_pack(spec_key_event(current, scancode, true))) == spec_key_event(
            current,
            scancode,
            true,
        ),
        spec_unpack(spec_pack(spec_key_event(current, scancode, false))) == spec_key_event(
            current,
            scancode,
            false,
        ),
{
    lemma_word_round_trip(spec_key_event(current, scancode, true));
    lemma_word_round_trip(spec_key_event(current, scancode, false));
}

impl ControlSnapshot {
    /// Packs the snapshot into one machine word.
    pub fn to_word(&self) -> (r: u64)
        ensures
            r == spec_pack(*self),
    {
        let (tag, value): (u64, u32) = match self.pitch {
            Pitch::Key(k) => (0, k as u32),
            Pitch::Scancode(c) => (1, c),
        };
        let (gate, velocity): (u64, u8) = match self.gate {
            GateEvent::On { velocity } => (1, velocity),
            GateEvent::Off => (0, 0),
        };
        (self.bend as u64) | ((velocity as u64) << VELOCITY_SHIFT) | (gate << GATE_SHIFT) | (tag
            << SCANCODE_SHIFT) | ((value as u64) << PITCH_SHIFT)
    }

    /// The snapshot that a packed word stands for.
    pub fn from_word(w: u64) -> (r: ControlSnapshot)
        ensures
            r == spec_unpack(w),
    {
        let value = (w >> PITCH_SHIFT) as u32;
        let pitch = if (w >> SCANCODE_SHIFT) & 1 == 1 {
            Pitch::Scancode(value)
        } else {
            Pitch::Key(value as u8)
        };
        let gate = if (w >> GATE_SHIFT) & 1 == 1 {
            GateEvent::On { velocity: ((w >> VELOCITY_SHIFT) & 0xFF) as u8 }
        } else {
            GateEvent::Off
        };
        ControlSnapshot { pitch, gate, bend: (w & BEND_MASK) as u16 }
    }
}

/// The single-slot cell through which control threads hand snapshots to the
/// render thread. A snapshot travels as one packed word in an atomic cell: a
/// publish is one release store, a read one acquire load, so a read never
/// sees a mix of two publishes. On targets with 64-bit atomics both are
/// single lock-free instructions and a read never blocks; on targets without
/// them the cell falls back to a global sequence lock, where a read may spin
/// while a publish is under way. Each thread holds its own shared handle (an
/// `Arc`) to the bridge.
pub struct ControlBridge {
    cell: AtomicCell<u64>,
}

impl ControlBridge {
    /// A bridge that holds `initial` until the first publish.
    pub fn new(initial: ControlSnapshot) -> ControlBridge {
        let word = initial.to_word();
        ControlBridge { cell: AtomicCell::new(word) }
    }

    /// Makes `snapshot` the one that readers see; the last publish wins.
    pub fn publish(&self, snapshot: ControlSnapshot) {
        let word = snapshot.to_word();
        self.cell.store(word);
    }

    /// The latest published snapshot, read once per render buffer.
    pub fn read(&self) -> ControlSnapshot {
        let word = self.cell.load();
        ControlSnapshot::from_word(word)
    }
}

} // verus!
