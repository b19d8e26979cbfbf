//! A bounded, single-producer/single-consumer sample channel that relays
//! captured audio to a playback device, with a fixed priming delay.
//!
//! Samples travel through the library as the raw IEEE-754 bit patterns of
//! `f32` values (`f32::to_bits`): the channel never looks at a sample's
//! amplitude, and silence is the pattern `0`.
pub mod ring;
pub mod channel;
pub mod latency;
pub mod laws;
pub mod lifecycle;
