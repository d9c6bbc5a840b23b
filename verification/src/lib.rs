//! One share processor's batch-validation workflow for a Prio-style
//! privacy-preserving aggregation pipeline: take custody of an ingestion
//! batch, verify its authenticity, compute this processor's validation
//! share for every packet, and publish a signed output batch.

use vstd::prelude::*;

pub mod codec;
pub mod crypto;
pub mod engine;
pub mod idl;
pub mod ingestion;
pub mod transport;

verus! {

/// The step of the workflow at which a failure arose, so a caller can tell
/// upstream corruption from key misconfiguration from a storage outage.
#[derive(Clone, Copy, Debug, PartialEq, Eq, Structural)]
pub enum Stage {
    SignatureRead,
    HeaderRead,
    HeaderVerify,
    PacketFileRead,
    PacketFileVerify,
    PacketDecode,
    PacketFileWrite,
    PacketFileSign,
    HeaderWrite,
    HeaderSign,
    SignatureWrite,
}

/// The error taxonomy this core surfaces. Every fatal condition aborts the
/// whole call; there is no retry or skip-and-continue for single packets.
#[derive(Clone, Copy, Debug, PartialEq, Eq, Structural)]
pub enum Error {
    /// Transport read or write failure; always fatal to the current call.
    IoError(Stage),
    /// Record encode/decode failure distinct from clean end-of-stream.
    AvroError(Stage),
    /// Not a true error: the sentinel for the clean end of the packet
    /// stream, consumed internally by the per-packet loop.
    EofError,
    /// Signature verification or signing failure; indicates a corrupted or
    /// tampered batch, or a key mismatch.
    CryptographyError(Stage),
    /// Structurally present but semantically invalid header — a bin count
    /// that is non-positive or beyond what the engine's field supports;
    /// carries the offending value.
    MalformedHeaderError(i32),
    /// A packet field outside its valid domain; carries the offending
    /// widened `r_pit` value.
    MalformedDataPacketError(i64),
    /// The secret-share engine could not produce a verification message.
    LibPrioError,
}

} // verus!
