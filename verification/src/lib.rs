//! Capture, framing, and reconstruction of raw keyboard input events.
//!
//! The crate models one hardware input occurrence as an [`input::InputEvent`],
//! serializes it through a fixed-width wire codec ([`codec`]), feeds the
//! length-prefixed byte stream through an incremental frame decoder
//! ([`decoder`]), and turns a batch of decoded key events into one line of
//! human-readable text ([`parser`]).

pub mod codec;
pub mod decoder;
pub mod errors;
pub mod input;
pub mod keycodes;
pub mod parser;
