//! Errors surfaced by the protocol engine.

use vstd::prelude::*;

verus! {

/// Which negotiated algorithm category failed to find a common entry.
#[derive(Debug, Clone, Copy, PartialEq, Eq, Structural)]
pub enum AlgoKind {
    Kex,
    HostKey,
    Encryption,
    Mac,
    Compression,
}

#[derive(Debug, Clone, Copy, PartialEq, Eq, Structural)]
pub enum Error {
    /// Input ended before a complete item could be read.
    RanOut,
    /// A length field points past the end of the available input.
    BadLength,
    /// A name held a byte that is not printable ASCII, or a comma where none may be.
    BadName,
    /// A text field was not valid UTF-8.
    BadString,
    /// A packet arrived with a message number that is not known.
    UnknownPacket { number: u8 },
    /// A packet arrived in a state where it is not allowed.
    PacketWrong,
    /// Malformed packet framing.
    SSHProtoError,
    /// Integrity check or decryption failure.
    BadDecrypt,
    /// No algorithm in common.
    AlgoNoMatch { algo: AlgoKind },
    /// The key exchange produced unusable output.
    BadKex,
    /// A signature failed to verify.
    BadSignature,
    /// A method name was not recognised.
    UnknownMethod,
    /// The output buffer is too small.
    NoRoom,
    /// A bounded table is full.
    TooMany,
    /// The application declined or failed a request.
    BehaviourError,
    /// A value that must never be put on the wire was asked to be encoded.
    NoEncode,
    /// The peer's identification line is not SSH 2.0.
    BadVersion,
    /// No progress is possible until the peer grants more window or the
    /// channel is open.
    WouldBlock,
    /// An internal condition that should be unreachable.
    Bug,
}

} // verus!
