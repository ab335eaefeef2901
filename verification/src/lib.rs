//! Streaming decoder for the framing layer of an AMQP 0-9-1 style binary
//! protocol.
//!
//! The decoder is a pure function from "bytes available so far" to a
//! three-way outcome: a decoded frame together with the number of bytes it
//! consumed, a signal that more bytes are needed, or a fatal parse error.
//! It never consumes past a frame boundary and never skips bytes.
//!
//! Layers, leaves first:
//! - [`wire`] holds the mathematical model of the wire format: what a valid
//!   frame envelope looks like as a sequence of bytes, and the byte encoding
//!   of each value.
//! - [`frame`] holds the decoded value types and the trait through which the
//!   caller supplies the external payload decoders.
//! - [`parsing`] holds the executable decoders, each proved against the model.
//! - [`laws`] holds the protocol-level theorems: round trips, grammar
//!   disjointness, and frame sequencing.

pub mod frame;
pub mod laws;
pub mod parsing;
pub mod wire;
