//! Codec and session logic for a byte-oriented, checksummed model-railroad
//! control bus: field codecs for the 7-bit wire values, the message catalog
//! with its framing and checksum rules, and the duplex session state machine
//! that correlates sent frames with their echoes and acknowledgments.

/// The field codecs: small value types wrapping the raw bytes of the wire format.
pub mod args;
/// The error types reported by the codec and by the sending path.
pub mod error;
/// The session state machine of the duplex controller.
pub mod loco_controller;
/// The message catalog: framing, dispatch and checksum of whole wire frames.
pub mod protocol;
