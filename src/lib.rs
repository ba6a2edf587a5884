//! A local media-playback engine: a playback controller that sequences
//! transport commands, a decoder engine state machine, and a real-time audio
//! sink, with the decisions of each stated and proved.
pub mod channel;
pub mod decoder;
pub mod engine;
pub mod player;
pub mod sink;
