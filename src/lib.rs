//! Client side of a voxel-game network protocol: a big-endian codec, the two
//! packet catalogs, transport framing, and the connection state machine; and
//! the decoding of stored map blocks and world settings.
use vstd::prelude::*;

pub mod common;
pub mod serialize;
pub mod transport;
pub mod world;
pub mod serverbound;
pub mod clientbound;
pub mod connection;

verus! {

/// Why decoding a frame or a packet failed.
#[derive(Debug)]
pub enum Error {
    /// The input ended inside a field.
    UnexpectedEof,
    /// The transport header was not understood.
    Transport(TransportError),
    /// A packet id that the catalog does not hold.
    UnknownPacket(u16),
    /// A text field that is not valid UTF-8, with its raw bytes.
    NonUnicodeString(Vec<u8>),
    /// Compressed data that does not decompress.
    Decompression,
    /// A map block in a format older than the oldest one understood.
    UnsupportedBlockVersion(u8),
}

/// Transport-layer decoding errors.
#[derive(Clone, Copy, Debug, PartialEq, Eq, Structural)]
pub enum TransportError {
    UnknownProtocolId(u32),
    UnknownFrameType(u8),
    UnknownControlType(u8),
}

/// The mathematical value of an [`Error`].
pub enum ErrorView {
    UnexpectedEof,
    Transport(TransportError),
    UnknownPacket(u16),
    NonUnicodeString(Seq<u8>),
    Decompression,
    UnsupportedBlockVersion(u8),
}

impl View for Error {
    type V = ErrorView;

    open spec fn view(&self) -> ErrorView {
        match self {
            Error::UnexpectedEof => ErrorView::UnexpectedEof,
            Error::Transport(t) => ErrorView::Transport(*t),
            Error::UnknownPacket(id) => ErrorView::UnknownPacket(*id),
            Error::NonUnicodeString(b) => ErrorView::NonUnicodeString(b@),
            Error::Decompression => ErrorView::Decompression,
            Error::UnsupportedBlockVersion(v) => ErrorView::UnsupportedBlockVersion(*v),
        }
    }
}

} // verus!

pub use connection::{ClientConnectionState, Credentials, Input, Output, Phase};
