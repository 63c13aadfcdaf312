//! Merges keyboard input with a periodic heartbeat into one ordered stream.
//!
//! The [`pump::Pump`] decides, round by round, what the background input
//! task sends; [`events::KeyEvents`] is the handle an application reads from.
//! The pure model of the stream a run produces lives in [`stream`].
pub mod events;
pub mod key;
pub mod pump;
pub mod stream;

mod channel;
