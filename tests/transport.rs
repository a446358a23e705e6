use tiki_proto::serialize::{Cursor, Serialize};
use tiki_proto::transport::{
    ControlHeader, Frame, FrameType, Reliability, SplitHeader, PROTOCOL_ID,
};
use tiki_proto::{Error, TransportError};

fn encode(f: &Frame) -> Vec<u8> {
    let mut w = Vec::new();
    f.serialize(&mut w);
    w
}

fn decode(bytes: &[u8]) -> Result<Frame, Error> {
    Frame::deserialize(&mut Cursor::new(bytes))
}

fn all_frames() -> Vec<Frame> {
    let bodies = [
        FrameType::Control(ControlHeader::Ack { seqnum: 65500 }),
        FrameType::Control(ControlHeader::SetPeerId { peer_id: 7 }),
        FrameType::Control(ControlHeader::Ping),
        FrameType::Control(ControlHeader::Disco),
        FrameType::Original,
        FrameType::Split(SplitHeader {
            seqnum: 3,
            chunk_count: 4,
            chunk_number: 2,
        }),
    ];
    let mut frames = Vec::new();
    for ty in bodies {
        for reliability in [Reliability::Unreliable, Reliability::Reliable { seqnum: 42 }] {
            frames.push(Frame {
                peer_id: 0x1234,
                channel: 1,
                reliability,
                ty,
            });
        }
    }
    frames
}

#[test]
fn every_frame_round_trips() {
    for f in all_frames() {
        let bytes = encode(&f);
        let mut r = Cursor::new(&bytes);
        let back = Frame::deserialize(&mut r).ok();
        assert_eq!(back, Some(f));
        assert_eq!(r.remaining(), 0);
    }
}

#[test]
fn original_frame_layout() {
    let f = Frame {
        peer_id: 7,
        channel: 0,
        reliability: Reliability::Unreliable,
        ty: FrameType::Original,
    };
    assert_eq!(encode(&f), vec![0x4F, 0x45, 0x74, 0x03, 0, 7, 0, 1]);
    assert_eq!(PROTOCOL_ID, 0x4F45_7403);
}

#[test]
fn reliable_ack_frame_layout() {
    let f = Frame {
        peer_id: 1,
        channel: 2,
        reliability: Reliability::Reliable { seqnum: 0x0102 },
        ty: FrameType::Control(ControlHeader::Ack { seqnum: 42 }),
    };
    assert_eq!(
        encode(&f),
        vec![0x4F, 0x45, 0x74, 0x03, 0, 1, 2, 3, 1, 2, 0, 0, 0, 42]
    );
}

#[test]
fn split_frame_layout() {
    let f = Frame {
        peer_id: 0,
        channel: 1,
        reliability: Reliability::Unreliable,
        ty: FrameType::Split(SplitHeader {
            seqnum: 5,
            chunk_count: 2,
            chunk_number: 1,
        }),
    };
    assert_eq!(
        encode(&f),
        vec![0x4F, 0x45, 0x74, 0x03, 0, 0, 1, 2, 0, 5, 0, 2, 0, 1]
    );
}

#[test]
fn original_frame_leaves_the_packet_unread() {
    let bytes = [0x4F, 0x45, 0x74, 0x03, 0, 0, 0, 1, 0xAA, 0xBB];
    let mut r = Cursor::new(&bytes);
    let f = Frame::deserialize(&mut r).ok().unwrap();
    assert_eq!(f.ty, FrameType::Original);
    assert_eq!(r.remaining(), 2);
}

#[test]
fn wrong_protocol_id_is_refused() {
    let bytes = [0x4F, 0x45, 0x74, 0x04, 0, 0, 0, 1];
    assert!(matches!(
        decode(&bytes),
        Err(Error::Transport(TransportError::UnknownProtocolId(0x4F45_7404)))
    ));
    // Refused as soon as the id is read, however short the rest.
    assert!(matches!(
        decode(&[0, 0, 0, 0]),
        Err(Error::Transport(TransportError::UnknownProtocolId(0)))
    ));
}

#[test]
fn unknown_frame_type_is_refused() {
    let bytes = [0x4F, 0x45, 0x74, 0x03, 0, 0, 0, 9];
    assert!(matches!(
        decode(&bytes),
        Err(Error::Transport(TransportError::UnknownFrameType(9)))
    ));
    // A second reliability marker after the sequence number is no frame type.
    let bytes = [0x4F, 0x45, 0x74, 0x03, 0, 0, 0, 3, 0, 1, 3];
    assert!(matches!(
        decode(&bytes),
        Err(Error::Transport(TransportError::UnknownFrameType(3)))
    ));
}

#[test]
fn unknown_control_type_is_refused() {
    for tag in [4u8, 5, 200, 255] {
        let bytes = [0x4F, 0x45, 0x74, 0x03, 0, 0, 0, 0, tag];
        assert!(matches!(
            decode(&bytes),
            Err(Error::Transport(TransportError::UnknownControlType(t))) if t == tag
        ));
        assert!(matches!(
            ControlHeader::deserialize(&mut Cursor::new(&[tag])),
            Err(Error::Transport(TransportError::UnknownControlType(t))) if t == tag
        ));
    }
}

#[test]
fn truncated_frame_is_eof() {
    let full = encode(&Frame {
        peer_id: 3,
        channel: 0,
        reliability: Reliability::Reliable { seqnum: 9 },
        ty: FrameType::Control(ControlHeader::SetPeerId { peer_id: 4 }),
    });
    for len in 0..full.len() {
        let r = decode(&full[..len]);
        assert!(matches!(r, Err(Error::UnexpectedEof)), "length {len}");
    }
}
