use vstd::prelude::*;

verus! {

/// Error reported when a received byte sequence could not be decoded
/// into a valid, known message.
#[derive(Debug, Clone)]
pub enum MessageParseError {
    /// The opcode byte of the frame is not recognised.
    UnknownOpcode(u8),
    /// The frame ended before all bytes its opcode class declares were available.
    /// Carries the opcode of the truncated frame for diagnostics.
    UnexpectedEnd(u8),
    /// A fixed-format byte of a known message did not hold its required value,
    /// or a sub-format selector byte had no defined mapping.
    InvalidFormat(String),
    /// The XOR-fold of the frame is not `0xFF`: the frame is corrupted.
    InvalidChecksum,
    /// Internal wake-up of the reader, used to re-check the stop flag; never a
    /// decoding failure of actual wire bytes.
    Update,
}

/// The decoding faults, without the diagnostic text that
/// [`MessageParseError::InvalidFormat`] carries: the form in which the
/// specification functions of the codec state which fault a byte sequence
/// produces.
pub enum ParseFault {
    /// The opcode byte of the frame is not recognised.
    UnknownOpcode(u8),
    /// The frame ended before all bytes its opcode class declares were available.
    UnexpectedEnd(u8),
    /// A fixed-format byte did not hold its required value, or a sub-format
    /// selector byte had no defined mapping.
    InvalidFormat,
    /// The XOR-fold of the frame is not `0xFF`.
    InvalidChecksum,
}

/// Whether the reported error `e` is the one that the fault `f` calls for:
/// the same variant, with the same opcode where one is carried. The
/// diagnostic text of an invalid-format error is not constrained.
pub open spec fn fault_matches(e: MessageParseError, f: ParseFault) -> bool {
    match f {
        ParseFault::UnknownOpcode(o) => e == MessageParseError::UnknownOpcode(o),
        ParseFault::UnexpectedEnd(o) => e == MessageParseError::UnexpectedEnd(o),
        ParseFault::InvalidChecksum => e == MessageParseError::InvalidChecksum,
        ParseFault::InvalidFormat => e matches MessageParseError::InvalidFormat(_),
    }
}

/// Whether the outcome `r` of a decoder is the outcome `s` that its
/// specification calls for: the same value on success, the matching error on
/// failure.
pub open spec fn parse_result_matches<T>(
    r: Result<T, MessageParseError>,
    s: Result<T, ParseFault>,
) -> bool {
    match s {
        Ok(b) => r == Ok::<T, MessageParseError>(b),
        Err(f) => match r {
            Ok(_) => false,
            Err(e) => fault_matches(e, f),
        },
    }
}

/// Error returned to a caller whose attempt to send a message failed.
#[derive(Debug, Copy, Clone)]
pub enum LocoDriveSendingError {
    /// No reader is running: the connection can no longer be used.
    IllegalState,
    /// The bus did not echo the frame back within the configured time.
    Timeout,
    /// Writing to the underlying byte stream failed.
    NotWritable,
}

} // verus!
