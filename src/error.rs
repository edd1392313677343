//! Failures of the demuxer lifecycle.
use vstd::prelude::*;

verus! {

/// Why a lifecycle operation failed.
#[derive(Clone, Copy, Debug, PartialEq, Eq, Structural)]
pub enum DemuxError {
    /// The underlying byte source failed.
    Io,
    /// The header or a packet is structurally invalid for the format.
    InvalidData,
    /// No further packets exist; the expected end of a stream.
    EndOfStream,
    /// An operation other than `open` came before `open`.
    NotOpened,
    /// `open` came a second time.
    AlreadyOpened,
    /// `read_packet` came before `read_headers`.
    HeadersNotRead,
    /// `read_headers` came a second time.
    HeadersAlreadyRead,
    /// An operation came after the session had ended.
    Terminated,
}

} // verus!
