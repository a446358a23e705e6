use tiki_proto::clientbound::{self, Clientbound};
use tiki_proto::serialize::{Cursor, Serialize};
use tiki_proto::serverbound::{self, Serverbound};
use tiki_proto::Error;

fn encode<T: Serialize>(v: &T) -> Vec<u8> {
    let mut w = Vec::new();
    v.serialize(&mut w);
    w
}

#[test]
fn serverbound_hello_is_its_id_alone() {
    let p = Serverbound::Hello(serverbound::Hello {});
    assert_eq!(encode(&p), vec![0, 0]);
    assert_eq!(p.id(), 0x00);
}

#[test]
fn serverbound_init_layout_and_round_trip() {
    let p = Serverbound::Init(serverbound::Init {
        client_max_serialization_ver: 255,
        supp_compr_modes: 0,
        min_net_proto_version: 0,
        max_net_proto_version: 100,
        player_name: "bob".to_string(),
    });
    let bytes = encode(&p);
    assert_eq!(
        bytes,
        vec![0, 2, 255, 0, 0, 0, 0, 0, 100, 0, 3, b'b', b'o', b'b']
    );
    let mut r = Cursor::new(&bytes);
    match Serverbound::deserialize(&mut r) {
        Ok(Serverbound::Init(i)) => {
            assert_eq!(i.client_max_serialization_ver, 255);
            assert_eq!(i.supp_compr_modes, 0);
            assert_eq!(i.min_net_proto_version, 0);
            assert_eq!(i.max_net_proto_version, 100);
            assert_eq!(i.player_name, "bob");
        }
        _ => panic!("expected Init"),
    }
    assert_eq!(r.remaining(), 0);
}

#[test]
fn serverbound_init2_round_trip() {
    let p = Serverbound::Init2(serverbound::Init2 {
        lang: "de".to_string(),
    });
    let bytes = encode(&p);
    assert_eq!(bytes, vec![0, 0x11, 0, 2, b'd', b'e']);
    match Serverbound::deserialize(&mut Cursor::new(&bytes)) {
        Ok(Serverbound::Init2(i)) => assert_eq!(i.lang, "de"),
        _ => panic!("expected Init2"),
    }
}

#[test]
fn serverbound_empty_packets_round_trip() {
    let packets = [
        Serverbound::ModChannelJoin(serverbound::ModChannelJoin {}),
        Serverbound::PlayerPos(serverbound::PlayerPos {}),
        Serverbound::ClientReady(serverbound::ClientReady {}),
        Serverbound::UpdateClientInfo(serverbound::UpdateClientInfo {}),
    ];
    let ids = [0x17u16, 0x23, 0x43, 0x53];
    for (p, id) in packets.iter().zip(ids) {
        assert_eq!(p.id(), id);
        let bytes = encode(p);
        assert_eq!(bytes, id.to_be_bytes().to_vec());
        let back = Serverbound::deserialize(&mut Cursor::new(&bytes)).ok().unwrap();
        assert_eq!(back.id(), id);
    }
}

#[test]
fn clientbound_hello_round_trip() {
    let p = Clientbound::Hello(clientbound::Hello {
        serialization_version: 29,
        compression_mode: 0,
        protocol_version: 44,
        auth_mechs: 2,
        legacy_name: "bob".to_string(),
    });
    let bytes = encode(&p);
    assert_eq!(
        bytes,
        vec![0, 2, 29, 0, 0, 0, 44, 0, 0, 0, 2, 0, 3, b'b', b'o', b'b']
    );
    let mut r = Cursor::new(&bytes);
    match Clientbound::deserialize(&mut r) {
        Ok(Clientbound::Hello(h)) => {
            assert_eq!(h.serialization_version, 29);
            assert_eq!(h.compression_mode, 0);
            assert_eq!(h.protocol_version, 44);
            assert_eq!(h.auth_mechs, 2);
            assert_eq!(h.legacy_name, "bob");
        }
        _ => panic!("expected Hello"),
    }
    assert_eq!(r.remaining(), 0);
}

#[test]
fn clientbound_ids_are_kept() {
    let cases = [
        (Clientbound::AuthAccept(clientbound::AuthAccept {}), 0x03u16),
        (Clientbound::AccessDenied(clientbound::AccessDenied {}), 0x0A),
        (Clientbound::BlockData(clientbound::BlockData {}), 0x20),
        (Clientbound::ChatMessage(clientbound::ChatMessage {}), 0x2F),
        (Clientbound::SrpBytesSB(clientbound::SrpBytesSB {}), 0x60),
        (Clientbound::SetLighting(clientbound::SetLighting {}), 0x63),
    ];
    for (p, id) in cases {
        assert_eq!(p.id(), id);
        let bytes = encode(&p);
        assert_eq!(bytes, id.to_be_bytes().to_vec());
        let back = Clientbound::deserialize(&mut Cursor::new(&bytes)).ok().unwrap();
        assert_eq!(back.id(), id);
    }
}

#[test]
fn same_id_means_different_packets_per_direction() {
    // 0x02 is Init towards the server and Hello towards the client.
    let bytes = [0u8, 0x02, 29, 0, 0, 0, 44, 0, 0, 0, 2, 0, 0];
    assert!(matches!(
        Clientbound::deserialize(&mut Cursor::new(&bytes)),
        Ok(Clientbound::Hello(_))
    ));
    assert!(matches!(
        Serverbound::deserialize(&mut Cursor::new(&bytes)),
        Ok(Serverbound::Init(_))
    ));
}

#[test]
fn unknown_packet_ids_are_refused() {
    assert!(matches!(
        Clientbound::deserialize(&mut Cursor::new(&[0x00, 0x01])),
        Err(Error::UnknownPacket(0x01))
    ));
    assert!(matches!(
        Clientbound::deserialize(&mut Cursor::new(&[0xFF, 0xFF, 1, 2, 3])),
        Err(Error::UnknownPacket(0xFFFF))
    ));
    assert!(matches!(
        Serverbound::deserialize(&mut Cursor::new(&[0x00, 0x01])),
        Err(Error::UnknownPacket(0x01))
    ));
    assert!(matches!(
        Serverbound::deserialize(&mut Cursor::new(&[0x00, 0x60])),
        Err(Error::UnknownPacket(0x60))
    ));
}

#[test]
fn truncated_packet_is_eof() {
    assert!(matches!(
        Clientbound::deserialize(&mut Cursor::new(&[0x00])),
        Err(Error::UnexpectedEof)
    ));
    // Hello whose text field is cut short.
    let bytes = [0u8, 0x02, 29, 0, 0, 0, 44, 0, 0, 0, 2, 0, 3, b'b'];
    assert!(matches!(
        Clientbound::deserialize(&mut Cursor::new(&bytes)),
        Err(Error::UnexpectedEof)
    ));
}

#[test]
fn packet_with_invalid_text_is_refused() {
    let bytes = [0u8, 0x11, 0, 1, 0xC0];
    match Serverbound::deserialize(&mut Cursor::new(&bytes)) {
        Err(Error::NonUnicodeString(raw)) => assert_eq!(raw, vec![0xC0]),
        _ => panic!("expected NonUnicodeString"),
    }
}
