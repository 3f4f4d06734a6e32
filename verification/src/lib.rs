//! Frame-synchronous core of a MIDI-controlled action game: the sample buffers
//! that turn controller events into button and slider queries, the gun's latch
//! state machine, and the per-frame control decisions of the player.

pub mod fraction;
pub mod gun;
pub mod input;
pub mod player;
