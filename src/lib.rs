//! Control side of a software synthesizer: a decoder for MIDI channel
//! messages, the rules that turn decoded messages and computer-keyboard
//! events into parameter snapshots, a lock-free cell that hands snapshots to
//! the render thread, and the decisions of a MIDI input session.

pub mod bridge;
pub mod control;
pub mod messages;
pub mod naming;
pub mod session;

pub use bridge::ControlBridge;
pub use control::{ControlSnapshot, Dispatch, GateEvent, InputSource, Pitch};
pub use messages::{ControlChange, DecodeError, MidiMessage, Note};
pub use naming::debug_struct_name;
pub use session::{parse_port_choice, MidiSession, SelectionError, SessionError};
