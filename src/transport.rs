//! Transport framing: the header in front of every datagram.
use vstd::prelude::*;

use crate::serialize::{
    be16, be32, from_be16, from_be32, lemma_be16, lemma_be32, lemma_from_be32, Cursor, Serialize,
};
use crate::{Error, ErrorView, TransportError};

verus! {

/// Magic number that opens every frame.
pub const PROTOCOL_ID: u32 = 0x4F457403;

/// The type byte that announces a sequence number and a second type byte.
pub const RELIABLE_MARKER: u8 = 3;

/// One transport-layer unit: header and body.
#[derive(Clone, Copy, Debug, PartialEq, Eq, Structural)]
pub struct Frame {
    pub peer_id: u16,
    pub channel: u8,
    pub reliability: Reliability,
    pub ty: FrameType,
}

/// Whether the peer must acknowledge the frame.
#[derive(Clone, Copy, Debug, PartialEq, Eq, Structural)]
pub enum Reliability {
    Reliable { seqnum: u16 },
    Unreliable,
}

/// The body of a frame.
#[derive(Clone, Copy, Debug, PartialEq, Eq, Structural)]
pub enum FrameType {
    /// A transport-management message.
    Control(ControlHeader),
    /// A whole packet follows the header.
    Original,
    /// One fragment of a packet follows the header.
    Split(SplitHeader),
}

/// Transport-management messages.
#[derive(Clone, Copy, Debug, PartialEq, Eq, Structural)]
pub enum ControlHeader {
    Ack { seqnum: u16 },
    SetPeerId { peer_id: u16 },
    Ping,
    Disco,
}

/// Which fragment of which packet follows.
#[derive(Clone, Copy, Debug, PartialEq, Eq, Structural)]
pub struct SplitHeader {
    pub seqnum: u16,
    pub chunk_count: u16,
    pub chunk_number: u16,
}

impl View for Frame {
    type V = Frame;

    open spec fn view(&self) -> Frame {
        *self
    }
}

impl View for ControlHeader {
    type V = ControlHeader;

    open spec fn view(&self) -> ControlHeader {
        *self
    }
}

impl View for SplitHeader {
    type V = SplitHeader;

    open spec fn view(&self) -> SplitHeader {
        *self
    }
}

impl Serialize for SplitHeader {
    open spec fn encodable(&self) -> bool {
        true
    }

    open spec fn encoding(&self) -> Seq<u8> {
        be16(self.seqnum) + be16(self.chunk_count) + be16(self.chunk_number)
    }

    open spec fn decoding(data: Seq<u8>) -> Result<(SplitHeader, int), ErrorView> {
        if data.len() < 6 {
            Err(ErrorView::UnexpectedEof)
        } else {
            Ok(
                (
                    SplitHeader {
                        seqnum: from_be16(data),
                        chunk_count: from_be16(data.skip(2)),
                        chunk_number: from_be16(data.skip(4)),
                    },
                    6,
                ),
            )
        }
    }

    proof fn lemma_round_trip(&self, rest: Seq<u8>) {
        let d = self.encoding() + rest;
        self.seqnum.lemma_round_trip(d.skip(2));
        self.chunk_count.lemma_round_trip(d.skip(4));
        self.chunk_number.lemma_round_trip(d.skip(6));
        assert(d =~= be16(self.seqnum) + d.skip(2));
        assert(d.skip(2) =~= be16(self.chunk_count) + d.skip(4));
        assert(d.skip(4) =~= be16(self.chunk_number) + d.skip(6));
    }

    fn serialize(&self, w: &mut Vec<u8>) {
        self.seqnum.serialize(w);
        self.chunk_count.serialize(w);
        self.chunk_number.serialize(w);
        assert(w@ =~= old(w)@ + self.encoding());
    }

    fn deserialize(r: &mut Cursor) -> (res: Result<Self, Error>) {
        let start = Ghost(r.rest());
        let seqnum = u16::deserialize(r)?;
        let chunk_count = u16::deserialize(r)?;
        let chunk_number = u16::deserialize(r)?;
        proof {
            assert(start@.skip(2).skip(2) =~= start@.skip(4));
            assert(start@.skip(4).skip(2) =~= start@.skip(6));
        }
        Ok(SplitHeader { seqnum, chunk_count, chunk_number })
    }
}

impl Serialize for ControlHeader {
    open spec fn encodable(&self) -> bool {
        true
    }

    open spec fn encoding(&self) -> Seq<u8> {
        match *self {
            ControlHeader::Ack { seqnum } => seq![0u8] + be16(seqnum),
            ControlHeader::SetPeerId { peer_id } => seq![1u8] + be16(peer_id),
            ControlHeader::Ping => seq![2u8],
            ControlHeader::Disco => seq![3u8],
        }
    }

    open spec fn decoding(data: Seq<u8>) -> Result<(ControlHeader, int), ErrorView> {
        if data.len() < 1 {
            Err(ErrorView::UnexpectedEof)
        } else {
            let tag = data[0];
            if tag == 0 || tag == 1 {
                if data.len() < 3 {
                    Err(ErrorView::UnexpectedEof)
                } else if tag == 0 {
                    Ok((ControlHeader::Ack { seqnum: from_be16(data.skip(1)) }, 3))
                } else {
                    Ok((ControlHeader::SetPeerId { peer_id: from_be16(data.skip(1)) }, 3))
                }
            } else if tag == 2 {
                Ok((ControlHeader::Ping, 1))
            } else if tag == 3 {
                Ok((ControlHeader::Disco, 1))
            } else {
                Err(ErrorView::Transport(TransportError::UnknownControlType(tag)))
            }
        }
    }

    proof fn lemma_round_trip(&self, rest: Seq<u8>) {
        let d = self.encoding() + rest;
        match *self {
            ControlHeader::Ack { seqnum } => {
                seqnum.lemma_round_trip(rest);
                assert(d.skip(1) =~= be16(seqnum) + rest);
            },
            ControlHeader::SetPeerId { peer_id } => {
                peer_id.lemma_round_trip(rest);
                assert(d.skip(1) =~= be16(peer_id) + rest);
            },
            _ => {},
        }
    }

    fn serialize(&self, w: &mut Vec<u8>) {
        match *self {
            ControlHeader::Ack { seqnum } => {
                w.push(0u8);
                seqnum.serialize(w);
            },
            ControlHeader::SetPeerId { peer_id } => {
                w.push(1u8);
                peer_id.serialize(w);
            },
            ControlHeader::Ping => w.push(2u8),
            ControlHeader::Disco => w.push(3u8),
        }
        assert(w@ =~= old(w)@ + self.encoding());
    }

    fn deserialize(r: &mut Cursor) -> (res: Result<Self, Error>) {
        let start = Ghost(r.rest());
        let tag = u8::deserialize(r)?;
        if tag == 0 {
            let seqnum = u16::deserialize(r)?;
            assert(start@.skip(1).skip(2) =~= start@.skip(3));
            Ok(ControlHeader::Ack { seqnum })
        } else if tag == 1 {
            let peer_id = u16::deserialize(r)?;
            assert(start@.skip(1).skip(2) =~= start@.skip(3));
            Ok(ControlHeader::SetPeerId { peer_id })
        } else if tag == 2 {
            Ok(ControlHeader::Ping)
        } else if tag == 3 {
            Ok(ControlHeader::Disco)
        } else {
            Err(Error::Transport(TransportError::UnknownControlType(tag)))
        }
    }
}

/// The bytes that follow the reliability part of the header.
pub open spec fn body_encoding(ty: FrameType) -> Seq<u8> {
    match ty {
        FrameType::Control(c) => seq![0u8] + c.encoding(),
        FrameType::Original => seq![1u8],
        FrameType::Split(h) => seq![2u8] + h.encoding(),
    }
}

/// Reading a frame body announced by type byte `t` from `data`, which follows
/// that byte.
pub open spec fn body_decoding(t: u8, data: Seq<u8>) -> Result<(FrameType, int), ErrorView> {
    if t == 0 {
        match ControlHeader::decoding(data) {
            Ok((c, n)) => Ok((FrameType::Control(c), n)),
            Err(e) => Err(e),
        }
    } else if t == 1 {
        Ok((FrameType::Original, 0))
    } else if t == 2 {
        match SplitHeader::decoding(data) {
            Ok((h, n)) => Ok((FrameType::Split(h), n)),
            Err(e) => Err(e),
        }
    } else {
        Err(ErrorView::Transport(TransportError::UnknownFrameType(t)))
    }
}

/// Adds the header length `k` to a decoded body's length.
pub open spec fn frame_after(
    peer_id: u16,
    channel: u8,
    reliability: Reliability,
    body: Result<(FrameType, int), ErrorView>,
    k: int,
) -> Result<(Frame, int), ErrorView> {
    match body {
        Ok((ty, n)) => Ok((Frame { peer_id, channel, reliability, ty }, k + n)),
        Err(e) => Err(e),
    }
}

/// Reading back a written frame body, whatever follows it.
pub proof fn lemma_body_round_trip(ty: FrameType, rest: Seq<u8>)
    ensures
        (body_encoding(ty) + rest)[0] != RELIABLE_MARKER,
        body_decoding((body_encoding(ty) + rest)[0], (body_encoding(ty) + rest).skip(1)) == Ok::<
            (FrameType, int),
            ErrorView,
        >((ty, body_encoding(ty).len() - 1)),
{
    let b = body_encoding(ty) + rest;
    match ty {
        FrameType::Control(c) => {
            c.lemma_round_trip(rest);
            assert(b.skip(1) =~= c.encoding() + rest);
        },
        FrameType::Original => {},
        FrameType::Split(h) => {
            h.lemma_round_trip(rest);
            assert(b.skip(1) =~= h.encoding() + rest);
        },
    }
}

impl Serialize for Frame {
    open spec fn encodable(&self) -> bool {
        true
    }

    open spec fn encoding(&self) -> Seq<u8> {
        let rel = match self.reliability {
            Reliability::Reliable { seqnum } => seq![RELIABLE_MARKER] + be16(seqnum),
            Reliability::Unreliable => Seq::empty(),
        };
        be32(PROTOCOL_ID) + be16(self.peer_id) + seq![self.channel] + rel + body_encoding(self.ty)
    }

    open spec fn decoding(data: Seq<u8>) -> Result<(Frame, int), ErrorView> {
        if data.len() < 4 {
            Err(ErrorView::UnexpectedEof)
        } else if from_be32(data) != PROTOCOL_ID {
            Err(ErrorView::Transport(TransportError::UnknownProtocolId(from_be32(data))))
        } else if data.len() < 8 {
            Err(ErrorView::UnexpectedEof)
        } else {
            let peer_id = from_be16(data.skip(4));
            let channel = data[6];
            let t = data[7];
            if t == RELIABLE_MARKER {
                if data.len() < 11 {
                    Err(ErrorView::UnexpectedEof)
                } else {
                    let rel = Reliability::Reliable { seqnum: from_be16(data.skip(8)) };
                    frame_after(peer_id, channel, rel, body_decoding(data[10], data.skip(11)), 11)
                }
            } else {
                frame_after(
                    peer_id,
                    channel,
                    Reliability::Unreliable,
                    body_decoding(t, data.skip(8)),
                    8,
                )
            }
        }
    }

    proof fn lemma_round_trip(&self, rest: Seq<u8>) {
        let d = self.encoding() + rest;
        let b = body_encoding(self.ty) + rest;
        lemma_body_round_trip(self.ty, rest);
        let h = match self.reliability {
            Reliability::Reliable { seqnum } => be32(PROTOCOL_ID) + be16(self.peer_id) + seq![
                self.channel,
            ] + (seq![RELIABLE_MARKER] + be16(seqnum)),
            Reliability::Unreliable => be32(PROTOCOL_ID) + be16(self.peer_id) + seq![self.channel]
                + Seq::<u8>::empty(),
        };
        assert(d =~= h + b);
        lemma_be32(PROTOCOL_ID);
        lemma_be16(self.peer_id);
        assert(d[0] == h[0] && d[1] == h[1] && d[2] == h[2] && d[3] == h[3]);
        assert(d.skip(4)[0] == h[4] && d.skip(4)[1] == h[5]);
        assert(d[6] == self.channel);
        if let Reliability::Reliable { seqnum } = self.reliability {
            lemma_be16(seqnum);
            assert(h.len() == 10);
            assert(d[7] == RELIABLE_MARKER);
            assert(d.skip(8)[0] == h[8] && d.skip(8)[1] == h[9]);
            assert(d.skip(10) =~= b);
        } else {
            assert(h.len() == 7);
            assert(d.skip(7) =~= b);
            assert(d.skip(8) =~= b.skip(1));
        }
    }

    fn serialize(&self, w: &mut Vec<u8>) {
        PROTOCOL_ID.serialize(w);
        self.peer_id.serialize(w);
        self.channel.serialize(w);
        if let Reliability::Reliable { seqnum } = self.reliability {
            RELIABLE_MARKER.serialize(w);
            seqnum.serialize(w);
        }
        match self.ty {
            FrameType::Control(control) => {
                0u8.serialize(w);
                control.serialize(w);
            },
            FrameType::Original => 1u8.serialize(w),
            FrameType::Split(split) => {
                2u8.serialize(w);
                split.serialize(w);
            },
        }
        assert(w@ =~= old(w)@ + self.encoding());
    }

    fn deserialize(r: &mut Cursor) -> (res: Result<Self, Error>) {
        let start = Ghost(r.rest());
        let protocol_id = u32::deserialize(r)?;
        if protocol_id != PROTOCOL_ID {
            return Err(Error::Transport(TransportError::UnknownProtocolId(protocol_id)));
        }
        let peer_id = u16::deserialize(r)?;
        let channel = u8::deserialize(r)?;
        let mut ty = u8::deserialize(r)?;
        proof {
            assert(start@.skip(4).skip(2) =~= start@.skip(6));
            assert(start@.skip(6).skip(1) =~= start@.skip(7));
            assert(start@.skip(7).skip(1) =~= start@.skip(8));
        }
        let body_start = Ghost(r.rest());
        let reliability = if ty == RELIABLE_MARKER {
            let seqnum = u16::deserialize(r)?;
            ty = u8::deserialize(r)?;
            proof {
                assert(start@.skip(8).skip(2) =~= start@.skip(10));
                assert(start@.skip(10).skip(1) =~= start@.skip(11));
            }
            Reliability::Reliable { seqnum }
        } else {
            Reliability::Unreliable
        };
        let k = Ghost(
            if reliability is Reliable {
                11int
            } else {
                8int
            },
        );
        assert(r.rest() == start@.skip(k@));
        let ty = if ty == 0 {
            FrameType::Control(ControlHeader::deserialize(r)?)
        } else if ty == 1 {
            FrameType::Original
        } else if ty == 2 {
            FrameType::Split(SplitHeader::deserialize(r)?)
        } else {
            return Err(Error::Transport(TransportError::UnknownFrameType(ty)));
        };
        proof {
            assert forall|n: int| 0 <= n <= start@.skip(k@).len() implies #[trigger] start@.skip(
                k@,
            ).skip(n) =~= start@.skip(k@ + n) by {}
        }
        Ok(Frame { peer_id, channel, reliability, ty })
    }
}

/// Every frame reads back as itself, whatever follows it.
pub proof fn lemma_frame_round_trip(f: Frame, rest: Seq<u8>)
    ensures
        Frame::decoding(f.encoding() + rest) == Ok::<(Frame, int), ErrorView>(
            (f, f.encoding().len() as int),
        ),
{
    f.lemma_round_trip(rest);
}

/// A buffer that does not open with the protocol id is refused as such.
pub proof fn lemma_unknown_protocol_id(data: Seq<u8>)
    requires
        data.len() >= 4,
        data.take(4) != be32(PROTOCOL_ID),
    ensures
        Frame::decoding(data) == Err::<(Frame, int), ErrorView>(
            ErrorView::Transport(TransportError::UnknownProtocolId(from_be32(data))),
        ),
{
    lemma_from_be32(data);
}

/// A control message whose tag is none of the four known ones is refused as such.
pub proof fn lemma_unknown_control_type(data: Seq<u8>)
    requires
        data.len() >= 1,
        data[0] > 3,
    ensures
        ControlHeader::decoding(data) == Err::<(ControlHeader, int), ErrorView>(
            ErrorView::Transport(TransportError::UnknownControlType(data[0])),
        ),
{
}

/// A frame whose type byte is none of the known ones is refused as such.
pub proof fn lemma_unknown_frame_type(data: Seq<u8>)
    requires
        data.len() >= 8,
        data.take(4) == be32(PROTOCOL_ID),
        data[7] > 3,
    ensures
        Frame::decoding(data) == Err::<(Frame, int), ErrorView>(
            ErrorView::Transport(TransportError::UnknownFrameType(data[7])),
        ),
{
    lemma_be32(PROTOCOL_ID);
    assert(data.take(4)[0] == data[0] && data.take(4)[1] == data[1] && data.take(4)[2] == data[2]
        && data.take(4)[3] == data[3]);
}

} // verus!
