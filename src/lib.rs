//! A verified bridge between a managed host and a real-time speech
//! enhancement and voice-activity engine: it decodes the identifiers that
//! cross the boundary, keeps track of the engine's lifecycle so that no call
//! reaches the engine out of order or with a misshapen buffer, and binds
//! planar channel buffers only after proving that they do not overlap.

pub mod codec;
pub mod error;
pub mod lifecycle;
pub mod planar;
