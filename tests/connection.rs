use tiki_proto::clientbound::{self, Clientbound};
use tiki_proto::serialize::{Cursor, Serialize};
use tiki_proto::serverbound::{self, Serverbound};
use tiki_proto::transport::{ControlHeader, Frame, FrameType, Reliability, SplitHeader};
use tiki_proto::{ClientConnectionState, Credentials, Error, Input, Output, Phase, TransportError};

fn connection(name: &str) -> ClientConnectionState {
    ClientConnectionState::new(Credentials {
        name: name.to_string(),
        password: "secret".to_string(),
    })
}

fn frame(reliability: Reliability, ty: FrameType) -> Vec<u8> {
    let mut w = Vec::new();
    Frame {
        peer_id: 1,
        channel: 0,
        reliability,
        ty,
    }
    .serialize(&mut w);
    w
}

fn control(c: ControlHeader) -> Vec<u8> {
    frame(Reliability::Unreliable, FrameType::Control(c))
}

fn server_hello() -> Vec<u8> {
    let mut w = frame(Reliability::Unreliable, FrameType::Original);
    Clientbound::Hello(clientbound::Hello {
        serialization_version: 29,
        compression_mode: 0,
        protocol_version: 44,
        auth_mechs: 2,
        legacy_name: "alice".to_string(),
    })
    .serialize(&mut w);
    w
}

fn sent(out: Output) -> Vec<u8> {
    match out {
        Output::SendData(bytes) => bytes,
        other => panic!("expected SendData, got {other:?}"),
    }
}

/// Decodes a sent datagram into its frame and, for an original frame, its packet.
fn open(bytes: &[u8]) -> (Frame, Option<Serverbound>) {
    let mut r = Cursor::new(bytes);
    let f = Frame::deserialize(&mut r).ok().expect("frame");
    let p = match f.ty {
        FrameType::Original => Some(Serverbound::deserialize(&mut r).ok().expect("packet")),
        _ => None,
    };
    assert_eq!(r.remaining(), 0);
    (f, p)
}

#[test]
fn fresh_connection_sends_hello() {
    let mut c = connection("alice");
    assert_eq!(c.phase(), Phase::SendHello);
    let bytes = sent(c.poll_output());
    assert_eq!(bytes, vec![0x4F, 0x45, 0x74, 0x03, 0, 0, 0, 1, 0, 0]);
    let (f, p) = open(&bytes);
    assert_eq!(f.peer_id, 0);
    assert_eq!(f.channel, 0);
    assert_eq!(f.reliability, Reliability::Unreliable);
    assert_eq!(f.ty, FrameType::Original);
    assert!(matches!(p, Some(Serverbound::Hello(_))));
}

#[test]
fn set_peer_id_moves_to_await_hello_and_sends_init() {
    let mut c = connection("alice");
    let r = c.submit_input(Input::ReceivedData(&control(ControlHeader::SetPeerId { peer_id: 7 })));
    assert!(r.is_ok());
    assert_eq!(c.phase(), Phase::AwaitHello);
    assert_eq!(c.peer_id(), 7);
    let (f, p) = open(&sent(c.poll_output()));
    assert_eq!(f.peer_id, 7);
    assert_eq!(f.ty, FrameType::Original);
    match p {
        Some(Serverbound::Init(init)) => {
            assert_eq!(init.player_name, "alice");
            assert_eq!(init.client_max_serialization_ver, 255);
            assert_eq!(init.supp_compr_modes, 0);
            assert_eq!(init.min_net_proto_version, 0);
            assert_eq!(init.max_net_proto_version, 100);
        }
        _ => panic!("expected Init"),
    }
}

#[test]
fn set_peer_id_is_ignored_after_hello_phase() {
    let mut c = connection("alice");
    c.submit_input(Input::ReceivedData(&control(ControlHeader::SetPeerId { peer_id: 7 })))
        .ok()
        .unwrap();
    c.submit_input(Input::ReceivedData(&control(ControlHeader::SetPeerId { peer_id: 9 })))
        .ok()
        .unwrap();
    assert_eq!(c.peer_id(), 7);
    assert_eq!(c.phase(), Phase::AwaitHello);
}

#[test]
fn server_hello_moves_to_send_auth1_and_is_queued() {
    let mut c = connection("alice");
    c.submit_input(Input::ReceivedData(&control(ControlHeader::SetPeerId { peer_id: 7 })))
        .ok()
        .unwrap();
    assert_eq!(c.phase(), Phase::AwaitHello);
    assert!(c.submit_input(Input::ReceivedData(&server_hello())).is_ok());
    assert_eq!(c.phase(), Phase::SendAuth1);
    let received = c.recv_packets();
    assert_eq!(received.len(), 1);
    match &received[0] {
        Clientbound::Hello(h) => {
            assert_eq!(h.protocol_version, 44);
            assert_eq!(h.legacy_name, "alice");
        }
        _ => panic!("expected Hello"),
    }
    assert!(c.recv_packets().is_empty());
}

#[test]
fn other_packets_are_queued_without_phase_change() {
    let mut c = connection("alice");
    let mut w = frame(Reliability::Unreliable, FrameType::Original);
    Clientbound::ChatMessage(clientbound::ChatMessage {}).serialize(&mut w);
    assert!(c.submit_input(Input::ReceivedData(&w)).is_ok());
    assert_eq!(c.phase(), Phase::SendHello);
    let received = c.recv_packets();
    assert_eq!(received.len(), 1);
    assert_eq!(received[0].id(), 0x2F);
}

#[test]
fn reliable_frame_is_acknowledged_first() {
    let mut c = connection("alice");
    let data = frame(
        Reliability::Reliable { seqnum: 42 },
        FrameType::Control(ControlHeader::Ping),
    );
    assert!(c.submit_input(Input::ReceivedData(&data)).is_ok());
    let (f, p) = open(&sent(c.poll_output()));
    assert_eq!(f.ty, FrameType::Control(ControlHeader::Ack { seqnum: 42 }));
    assert_eq!(f.reliability, Reliability::Unreliable);
    assert_eq!(f.channel, 0);
    assert!(p.is_none());
    // The phase's own packet comes after the acknowledgment.
    let (_, p) = open(&sent(c.poll_output()));
    assert!(matches!(p, Some(Serverbound::Hello(_))));
}

#[test]
fn acknowledgment_keeps_the_channel() {
    let mut c = connection("alice");
    let mut w = Vec::new();
    Frame {
        peer_id: 1,
        channel: 2,
        reliability: Reliability::Reliable { seqnum: 5 },
        ty: FrameType::Split(SplitHeader {
            seqnum: 1,
            chunk_count: 2,
            chunk_number: 0,
        }),
    }
    .serialize(&mut w);
    w.extend_from_slice(&[1, 2, 3]);
    assert!(c.submit_input(Input::ReceivedData(&w)).is_ok());
    let (f, _) = open(&sent(c.poll_output()));
    assert_eq!(f.channel, 2);
    assert_eq!(f.ty, FrameType::Control(ControlHeader::Ack { seqnum: 5 }));
    assert_eq!(c.phase(), Phase::SendHello);
}

#[test]
fn disco_disconnects_in_every_phase() {
    for steps in 0..3 {
        let mut c = connection("alice");
        if steps >= 1 {
            c.submit_input(Input::ReceivedData(&control(ControlHeader::SetPeerId { peer_id: 7 })))
                .ok()
                .unwrap();
        }
        if steps >= 2 {
            c.submit_input(Input::ReceivedData(&server_hello())).ok().unwrap();
        }
        // Leave an acknowledgment waiting in the send queue.
        let ping = frame(
            Reliability::Reliable { seqnum: 1 },
            FrameType::Control(ControlHeader::Ping),
        );
        c.submit_input(Input::ReceivedData(&ping)).ok().unwrap();
        assert!(c.submit_input(Input::ReceivedData(&control(ControlHeader::Disco))).is_ok());
        assert_eq!(c.phase(), Phase::Disconnected);
        assert!(matches!(c.poll_output(), Output::Disconnect));
        assert!(matches!(c.poll_output(), Output::Disconnect));
    }
}

#[test]
fn disconnected_stays_disconnected() {
    let mut c = connection("alice");
    c.submit_input(Input::ReceivedData(&control(ControlHeader::Disco))).ok().unwrap();
    c.submit_input(Input::ReceivedData(&server_hello())).ok().unwrap();
    c.submit_input(Input::ReceivedData(&control(ControlHeader::SetPeerId { peer_id: 3 })))
        .ok()
        .unwrap();
    assert_eq!(c.phase(), Phase::Disconnected);
    assert!(matches!(c.poll_output(), Output::Disconnect));
}

#[test]
fn timed_out_changes_nothing() {
    let mut c = connection("alice");
    assert!(c.submit_input(Input::TimedOut).is_ok());
    assert_eq!(c.phase(), Phase::SendHello);
    assert_eq!(c.peer_id(), 0);
    assert!(matches!(c.poll_output(), Output::SendData(_)));
    assert!(matches!(c.poll_output(), Output::SendData(_)));
}

#[test]
fn nothing_to_send_waits() {
    let mut c = connection("alice");
    c.submit_input(Input::ReceivedData(&control(ControlHeader::SetPeerId { peer_id: 7 })))
        .ok()
        .unwrap();
    c.submit_input(Input::ReceivedData(&server_hello())).ok().unwrap();
    assert!(matches!(c.poll_output(), Output::Wait));
}

#[test]
fn bad_protocol_id_changes_nothing() {
    let mut c = connection("alice");
    let mut data = frame(
        Reliability::Reliable { seqnum: 8 },
        FrameType::Control(ControlHeader::Disco),
    );
    data[3] = 0x04;
    assert!(matches!(
        c.submit_input(Input::ReceivedData(&data)),
        Err(Error::Transport(TransportError::UnknownProtocolId(0x4F45_7404)))
    ));
    assert_eq!(c.phase(), Phase::SendHello);
    // No acknowledgment was queued: the next datagram is the hello.
    let (f, p) = open(&sent(c.poll_output()));
    assert_eq!(f.ty, FrameType::Original);
    assert!(matches!(p, Some(Serverbound::Hello(_))));
}

#[test]
fn undecodable_packet_changes_nothing() {
    let mut c = connection("alice");
    c.submit_input(Input::ReceivedData(&control(ControlHeader::SetPeerId { peer_id: 7 })))
        .ok()
        .unwrap();
    let mut data = frame(Reliability::Reliable { seqnum: 3 }, FrameType::Original);
    data.extend_from_slice(&[0x00, 0x01]);
    assert!(matches!(
        c.submit_input(Input::ReceivedData(&data)),
        Err(Error::UnknownPacket(1))
    ));
    assert_eq!(c.phase(), Phase::AwaitHello);
    assert!(c.recv_packets().is_empty());
    let (_, p) = open(&sent(c.poll_output()));
    assert!(matches!(p, Some(Serverbound::Init(_))));
    assert!(matches!(c.poll_output(), Output::SendData(_)));
}

#[test]
fn send_packet_queues_an_original_frame() {
    let mut c = connection("alice");
    c.submit_input(Input::ReceivedData(&control(ControlHeader::SetPeerId { peer_id: 7 })))
        .ok()
        .unwrap();
    c.submit_input(Input::ReceivedData(&server_hello())).ok().unwrap();
    c.send_packet(Serverbound::Init2(serverbound::Init2 {
        lang: "en".to_string(),
    }));
    let bytes = sent(c.poll_output());
    assert_eq!(
        bytes,
        vec![0x4F, 0x45, 0x74, 0x03, 0, 7, 0, 1, 0, 0x11, 0, 2, b'e', b'n']
    );
    assert!(matches!(c.poll_output(), Output::Wait));
}
