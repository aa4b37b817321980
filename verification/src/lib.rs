//! Core logic of a network soundboard.
//!
//! The crate has three parts:
//!
//! - a wire codec for the framed binary event stream that a remote input
//!   server sends (`codec`), together with the event taxonomy used to
//!   classify decoded records (`event`);
//! - the session logic of the remote input client and its manager
//!   (`input`), modelled as state machines that a host drives with the
//!   outcomes of its blocking reads;
//! - the playback-control state of sounds and output devices (`audio`),
//!   whose periodic pipeline decisions are computed here and applied by
//!   the host audio engine.
//!
//! Network, file and audio-hardware access live outside this crate; every
//! function here is pure state logic and is verified.

pub mod as_hex;
pub mod audio;
pub mod codec;
pub mod event;
pub mod input;
