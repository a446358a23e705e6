//! Packets that the client sends to the server, keyed by a 16-bit id.
use vstd::prelude::*;

use crate::serialize::{
    be16, from_be16, lemma_be16, text_encodable, text_encoding, Cursor, Serialize,
};
use crate::{Error, ErrorView};

verus! {

/// The client's opening of the handshake; the server answers with its own hello.
#[derive(Debug)]
pub struct Init {
    pub client_max_serialization_ver: u8,
    pub supp_compr_modes: u16,
    pub min_net_proto_version: u16,
    pub max_net_proto_version: u16,
    pub player_name: String,
}

/// Sent once the client is authenticated.
#[derive(Debug)]
pub struct Init2 {
    pub lang: String,
}

/// The mathematical value of [`Init`].
pub struct InitView {
    pub client_max_serialization_ver: u8,
    pub supp_compr_modes: u16,
    pub min_net_proto_version: u16,
    pub max_net_proto_version: u16,
    pub player_name: Seq<char>,
}

impl InitView {
    /// Whether the text fields fit their length prefix.
    pub open spec fn encodable(self) -> bool {
        text_encodable(self.player_name)
    }

    /// The bytes the record is written as, field by field.
    pub open spec fn encoding(self) -> Seq<u8> {
        seq![self.client_max_serialization_ver] + be16(self.supp_compr_modes) + be16(
            self.min_net_proto_version,
        ) + be16(self.max_net_proto_version) + text_encoding(self.player_name)
    }
}

impl View for Init {
    type V = InitView;

    open spec fn view(&self) -> InitView {
        InitView {
            client_max_serialization_ver: self.client_max_serialization_ver,
            supp_compr_modes: self.supp_compr_modes,
            min_net_proto_version: self.min_net_proto_version,
            max_net_proto_version: self.max_net_proto_version,
            player_name: self.player_name@,
        }
    }
}

impl Serialize for Init {
    open spec fn encodable(&self) -> bool {
        self@.encodable()
    }

    open spec fn encoding(&self) -> Seq<u8> {
        self@.encoding()
    }

    open spec fn decoding(data: Seq<u8>) -> Result<(InitView, int), ErrorView> {
        if data.len() < 7 {
            Err(ErrorView::UnexpectedEof)
        } else {
            match String::decoding(data.skip(7)) {
                Ok((s, n)) => Ok(
                    (
                        InitView {
                            client_max_serialization_ver: data[0],
                            supp_compr_modes: from_be16(data.skip(1)),
                            min_net_proto_version: from_be16(data.skip(3)),
                            max_net_proto_version: from_be16(data.skip(5)),
                            player_name: s,
                        },
                        7 + n,
                    ),
                ),
                Err(e) => Err(e),
            }
        }
    }

    proof fn lemma_round_trip(&self, rest: Seq<u8>) {
        let d = self.encoding() + rest;
        let h = seq![self.client_max_serialization_ver] + be16(self.supp_compr_modes) + be16(
            self.min_net_proto_version,
        ) + be16(self.max_net_proto_version);
        assert(h.len() == 7);
        assert(d =~= h + (self.player_name.encoding() + rest));
        assert(d.skip(7) =~= self.player_name.encoding() + rest);
        self.player_name.lemma_round_trip(rest);
        assert(d[0] == h[0]);
        lemma_be16(self.supp_compr_modes);
        assert(d.skip(1)[0] == h[1] && d.skip(1)[1] == h[2]);
        lemma_be16(self.min_net_proto_version);
        assert(d.skip(3)[0] == h[3] && d.skip(3)[1] == h[4]);
        lemma_be16(self.max_net_proto_version);
        assert(d.skip(5)[0] == h[5] && d.skip(5)[1] == h[6]);
    }

    fn serialize(&self, w: &mut Vec<u8>) {
        self.client_max_serialization_ver.serialize(w);
        self.supp_compr_modes.serialize(w);
        self.min_net_proto_version.serialize(w);
        self.max_net_proto_version.serialize(w);
        self.player_name.serialize(w);
        assert(w@ =~= old(w)@ + self.encoding());
    }

    fn deserialize(r: &mut Cursor) -> (res: Result<Self, Error>) {
        let start = Ghost(r.rest());
        let client_max_serialization_ver = u8::deserialize(r)?;
        let supp_compr_modes = u16::deserialize(r)?;
        assert(start@.skip(1).skip(2) =~= start@.skip(3));
        let min_net_proto_version = u16::deserialize(r)?;
        assert(start@.skip(3).skip(2) =~= start@.skip(5));
        let max_net_proto_version = u16::deserialize(r)?;
        assert(start@.skip(5).skip(2) =~= start@.skip(7));
        let player_name = String::deserialize(r)?;
        assert forall|n: int| 0 <= n <= start@.skip(7).len() implies #[trigger] start@.skip(7).skip(n)
            =~= start@.skip(7 + n) by {}
        Ok(
            Init {
                client_max_serialization_ver,
                supp_compr_modes,
                min_net_proto_version,
                max_net_proto_version,
                player_name,
            },
        )
    }
}

/// The mathematical value of [`Init2`].
pub struct Init2View {
    pub lang: Seq<char>,
}

impl Init2View {
    /// Whether the text fields fit their length prefix.
    pub open spec fn encodable(self) -> bool {
        text_encodable(self.lang)
    }

    /// The bytes the record is written as, field by field.
    pub open spec fn encoding(self) -> Seq<u8> {
        text_encoding(self.lang)
    }
}

impl View for Init2 {
    type V = Init2View;

    open spec fn view(&self) -> Init2View {
        Init2View {
            lang: self.lang@,
        }
    }
}

impl Serialize for Init2 {
    open spec fn encodable(&self) -> bool {
        self@.encodable()
    }

    open spec fn encoding(&self) -> Seq<u8> {
        self@.encoding()
    }

    open spec fn decoding(data: Seq<u8>) -> Result<(Init2View, int), ErrorView> {
        match String::decoding(data) {
            Ok((s, n)) => Ok((Init2View { lang: s }, n)),
            Err(e) => Err(e),
        }
    }

    proof fn lemma_round_trip(&self, rest: Seq<u8>) {
        self.lang.lemma_round_trip(rest);
    }

    fn serialize(&self, w: &mut Vec<u8>) {
        self.lang.serialize(w);
    }

    fn deserialize(r: &mut Cursor) -> (res: Result<Self, Error>) {
        let lang = String::deserialize(r)?;
        Ok(Init2 { lang })
    }
}

/// A packet that the client sends.
#[derive(Debug)]
pub enum Serverbound {
    Hello(Hello),
    Init(Init),
    Init2(Init2),
    ModChannelJoin(ModChannelJoin),
    ModChannelLeave(ModChannelLeave),
    ModChannelMsg(ModChannelMsg),
    PlayerPos(PlayerPos),
    GotBlocks(GotBlocks),
    DeletedBlocks(DeletedBlocks),
    InventoryAction(InventoryAction),
    ChatMessage(ChatMessage),
    Damage(Damage),
    PlayerItem(PlayerItem),
    Respawn(Respawn),
    Interact(Interact),
    RemovedSounds(RemovedSounds),
    NodeMetaFields(NodeMetaFields),
    InventoryFields(InventoryFields),
    RequestMedia(RequestMedia),
    HaveMedia(HaveMedia),
    ClientReady(ClientReady),
    FirstSrp(FirstSrp),
    SrpBytesA(SrpBytesA),
    SrpBytesM(SrpBytesM),
    UpdateClientInfo(UpdateClientInfo),
}

/// The mathematical value of a [`Serverbound`] packet.
pub enum ServerboundView {
    Hello(Hello),
    Init(InitView),
    Init2(Init2View),
    ModChannelJoin(ModChannelJoin),
    ModChannelLeave(ModChannelLeave),
    ModChannelMsg(ModChannelMsg),
    PlayerPos(PlayerPos),
    GotBlocks(GotBlocks),
    DeletedBlocks(DeletedBlocks),
    InventoryAction(InventoryAction),
    ChatMessage(ChatMessage),
    Damage(Damage),
    PlayerItem(PlayerItem),
    Respawn(Respawn),
    Interact(Interact),
    RemovedSounds(RemovedSounds),
    NodeMetaFields(NodeMetaFields),
    InventoryFields(InventoryFields),
    RequestMedia(RequestMedia),
    HaveMedia(HaveMedia),
    ClientReady(ClientReady),
    FirstSrp(FirstSrp),
    SrpBytesA(SrpBytesA),
    SrpBytesM(SrpBytesM),
    UpdateClientInfo(UpdateClientInfo),
}

impl View for Serverbound {
    type V = ServerboundView;

    open spec fn view(&self) -> ServerboundView {
        match self {
            Serverbound::Hello(p) => ServerboundView::Hello(*p),
            Serverbound::Init(p) => ServerboundView::Init(p@),
            Serverbound::Init2(p) => ServerboundView::Init2(p@),
            Serverbound::ModChannelJoin(p) => ServerboundView::ModChannelJoin(*p),
            Serverbound::ModChannelLeave(p) => ServerboundView::ModChannelLeave(*p),
            Serverbound::ModChannelMsg(p) => ServerboundView::ModChannelMsg(*p),
            Serverbound::PlayerPos(p) => ServerboundView::PlayerPos(*p),
            Serverbound::GotBlocks(p) => ServerboundView::GotBlocks(*p),
            Serverbound::DeletedBlocks(p) => ServerboundView::DeletedBlocks(*p),
            Serverbound::InventoryAction(p) => ServerboundView::InventoryAction(*p),
            Serverbound::ChatMessage(p) => ServerboundView::ChatMessage(*p),
            Serverbound::Damage(p) => ServerboundView::Damage(*p),
            Serverbound::PlayerItem(p) => ServerboundView::PlayerItem(*p),
            Serverbound::Respawn(p) => ServerboundView::Respawn(*p),
            Serverbound::Interact(p) => ServerboundView::Interact(*p),
            Serverbound::RemovedSounds(p) => ServerboundView::RemovedSounds(*p),
            Serverbound::NodeMetaFields(p) => ServerboundView::NodeMetaFields(*p),
            Serverbound::InventoryFields(p) => ServerboundView::InventoryFields(*p),
            Serverbound::RequestMedia(p) => ServerboundView::RequestMedia(*p),
            Serverbound::HaveMedia(p) => ServerboundView::HaveMedia(*p),
            Serverbound::ClientReady(p) => ServerboundView::ClientReady(*p),
            Serverbound::FirstSrp(p) => ServerboundView::FirstSrp(*p),
            Serverbound::SrpBytesA(p) => ServerboundView::SrpBytesA(*p),
            Serverbound::SrpBytesM(p) => ServerboundView::SrpBytesM(*p),
            Serverbound::UpdateClientInfo(p) => ServerboundView::UpdateClientInfo(*p),
        }
    }
}

impl ServerboundView {
    /// The packet's id on the wire.
    pub open spec fn id(self) -> u16 {
        match self {
            ServerboundView::Hello(_) => 0x00,
            ServerboundView::Init(_) => 0x02,
            ServerboundView::Init2(_) => 0x11,
            ServerboundView::ModChannelJoin(_) => 0x17,
            ServerboundView::ModChannelLeave(_) => 0x18,
            ServerboundView::ModChannelMsg(_) => 0x19,
            ServerboundView::PlayerPos(_) => 0x23,
            ServerboundView::GotBlocks(_) => 0x24,
            ServerboundView::DeletedBlocks(_) => 0x25,
            ServerboundView::InventoryAction(_) => 0x31,
            ServerboundView::ChatMessage(_) => 0x32,
            ServerboundView::Damage(_) => 0x35,
            ServerboundView::PlayerItem(_) => 0x37,
            ServerboundView::Respawn(_) => 0x38,
            ServerboundView::Interact(_) => 0x39,
            ServerboundView::RemovedSounds(_) => 0x3A,
            ServerboundView::NodeMetaFields(_) => 0x3B,
            ServerboundView::InventoryFields(_) => 0x3C,
            ServerboundView::RequestMedia(_) => 0x40,
            ServerboundView::HaveMedia(_) => 0x41,
            ServerboundView::ClientReady(_) => 0x43,
            ServerboundView::FirstSrp(_) => 0x50,
            ServerboundView::SrpBytesA(_) => 0x51,
            ServerboundView::SrpBytesM(_) => 0x52,
            ServerboundView::UpdateClientInfo(_) => 0x53,
        }
    }
}

impl ServerboundView {
    /// Whether the packet can be written.
    pub open spec fn encodable(self) -> bool {
        match self {
            ServerboundView::Init(r) => r.encodable(),
            ServerboundView::Init2(r) => r.encodable(),
            _ => true,
        }
    }

    /// The bytes that follow the id.
    pub open spec fn payload_encoding(self) -> Seq<u8> {
        match self {
            ServerboundView::Init(r) => r.encoding(),
            ServerboundView::Init2(r) => r.encoding(),
            _ => Seq::empty(),
        }
    }

    /// The bytes the packet is written as: its id, then its payload.
    pub open spec fn encoding(self) -> Seq<u8> {
        be16(self.id()) + self.payload_encoding()
    }
}

/// Reading the payload of the packet with id `id` from `data`, which follows the id.
pub open spec fn payload_decoding(id: u16, data: Seq<u8>) -> Result<
    (ServerboundView, int),
    ErrorView,
> {
    if id == 0x00 {
        Ok((ServerboundView::Hello(Hello {}), 0))
    } else if id == 0x02 {
        match Init::decoding(data) {
            Ok((r, n)) => Ok((ServerboundView::Init(r), n)),
            Err(e) => Err(e),
        }
    } else if id == 0x11 {
        match Init2::decoding(data) {
            Ok((r, n)) => Ok((ServerboundView::Init2(r), n)),
            Err(e) => Err(e),
        }
    } else if id == 0x17 {
        Ok((ServerboundView::ModChannelJoin(ModChannelJoin {}), 0))
    } else if id == 0x18 {
        Ok((ServerboundView::ModChannelLeave(ModChannelLeave {}), 0))
    } else if id == 0x19 {
        Ok((ServerboundView::ModChannelMsg(ModChannelMsg {}), 0))
    } else if id == 0x23 {
        Ok((ServerboundView::PlayerPos(PlayerPos {}), 0))
    } else if id == 0x24 {
        Ok((ServerboundView::GotBlocks(GotBlocks {}), 0))
    } else if id == 0x25 {
        Ok((ServerboundView::DeletedBlocks(DeletedBlocks {}), 0))
    } else if id == 0x31 {
        Ok((ServerboundView::InventoryAction(InventoryAction {}), 0))
    } else if id == 0x32 {
        Ok((ServerboundView::ChatMessage(ChatMessage {}), 0))
    } else if id == 0x35 {
        Ok((ServerboundView::Damage(Damage {}), 0))
    } else if id == 0x37 {
        Ok((ServerboundView::PlayerItem(PlayerItem {}), 0))
    } else if id == 0x38 {
        Ok((ServerboundView::Respawn(Respawn {}), 0))
    } else if id == 0x39 {
        Ok((ServerboundView::Interact(Interact {}), 0))
    } else if id == 0x3A {
        Ok((ServerboundView::RemovedSounds(RemovedSounds {}), 0))
    } else if id == 0x3B {
        Ok((ServerboundView::NodeMetaFields(NodeMetaFields {}), 0))
    } else if id == 0x3C {
        Ok((ServerboundView::InventoryFields(InventoryFields {}), 0))
    } else if id == 0x40 {
        Ok((ServerboundView::RequestMedia(RequestMedia {}), 0))
    } else if id == 0x41 {
        Ok((ServerboundView::HaveMedia(HaveMedia {}), 0))
    } else if id == 0x43 {
        Ok((ServerboundView::ClientReady(ClientReady {}), 0))
    } else if id == 0x50 {
        Ok((ServerboundView::FirstSrp(FirstSrp {}), 0))
    } else if id == 0x51 {
        Ok((ServerboundView::SrpBytesA(SrpBytesA {}), 0))
    } else if id == 0x52 {
        Ok((ServerboundView::SrpBytesM(SrpBytesM {}), 0))
    } else if id == 0x53 {
        Ok((ServerboundView::UpdateClientInfo(UpdateClientInfo {}), 0))
    } else {
        Err(ErrorView::UnknownPacket(id))
    }
}

impl Serverbound {
    /// The packet's id on the wire.
    pub fn id(&self) -> (r: u16)
        ensures
            r == self@.id(),
    {
        match self {
            Serverbound::Hello(_) => 0x00,
            Serverbound::Init(_) => 0x02,
            Serverbound::Init2(_) => 0x11,
            Serverbound::ModChannelJoin(_) => 0x17,
            Serverbound::ModChannelLeave(_) => 0x18,
            Serverbound::ModChannelMsg(_) => 0x19,
            Serverbound::PlayerPos(_) => 0x23,
            Serverbound::GotBlocks(_) => 0x24,
            Serverbound::DeletedBlocks(_) => 0x25,
            Serverbound::InventoryAction(_) => 0x31,
            Serverbound::ChatMessage(_) => 0x32,
            Serverbound::Damage(_) => 0x35,
            Serverbound::PlayerItem(_) => 0x37,
            Serverbound::Respawn(_) => 0x38,
            Serverbound::Interact(_) => 0x39,
            Serverbound::RemovedSounds(_) => 0x3A,
            Serverbound::NodeMetaFields(_) => 0x3B,
            Serverbound::InventoryFields(_) => 0x3C,
            Serverbound::RequestMedia(_) => 0x40,
            Serverbound::HaveMedia(_) => 0x41,
            Serverbound::ClientReady(_) => 0x43,
            Serverbound::FirstSrp(_) => 0x50,
            Serverbound::SrpBytesA(_) => 0x51,
            Serverbound::SrpBytesM(_) => 0x52,
            Serverbound::UpdateClientInfo(_) => 0x53,
        }
    }
}

impl Serialize for Serverbound {
    open spec fn encodable(&self) -> bool {
        self@.encodable()
    }

    open spec fn encoding(&self) -> Seq<u8> {
        self@.encoding()
    }

    open spec fn decoding(data: Seq<u8>) -> Result<(ServerboundView, int), ErrorView> {
        if data.len() < 2 {
            Err(ErrorView::UnexpectedEof)
        } else {
            match payload_decoding(from_be16(data), data.skip(2)) {
                Ok((p, n)) => Ok((p, 2 + n)),
                Err(e) => Err(e),
            }
        }
    }

    proof fn lemma_round_trip(&self, rest: Seq<u8>) {
        let d = self.encoding() + rest;
        lemma_be16(self@.id());
        assert(d[0] == be16(self@.id())[0] && d[1] == be16(self@.id())[1]);
        assert(d.skip(2) =~= self@.payload_encoding() + rest);
        match self {
            Serverbound::Init(r) => r.lemma_round_trip(rest),
            Serverbound::Init2(r) => r.lemma_round_trip(rest),
            _ => {},
        }
    }

    fn serialize(&self, w: &mut Vec<u8>) {
        self.id().serialize(w);
        match self {
            Serverbound::Init(r) => r.serialize(w),
            Serverbound::Init2(r) => r.serialize(w),
            _ => {},
        }
        assert(w@ =~= old(w)@ + self.encoding());
    }

    fn deserialize(r: &mut Cursor) -> (res: Result<Self, Error>) {
        let start = Ghost(r.rest());
        let id = u16::deserialize(r)?;
        assert forall|n: int| 0 <= n <= start@.skip(2).len() implies #[trigger] start@.skip(2).skip(n)
            =~= start@.skip(2 + n) by {}
        assert(start@.skip(2).skip(0) =~= start@.skip(2));
        match id {
            0x00 => Ok(Serverbound::Hello(Hello {})),
            0x02 => Ok(Serverbound::Init(Init::deserialize(r)?)),
            0x11 => Ok(Serverbound::Init2(Init2::deserialize(r)?)),
            0x17 => Ok(Serverbound::ModChannelJoin(ModChannelJoin {})),
            0x18 => Ok(Serverbound::ModChannelLeave(ModChannelLeave {})),
            0x19 => Ok(Serverbound::ModChannelMsg(ModChannelMsg {})),
            0x23 => Ok(Serverbound::PlayerPos(PlayerPos {})),
            0x24 => Ok(Serverbound::GotBlocks(GotBlocks {})),
            0x25 => Ok(Serverbound::DeletedBlocks(DeletedBlocks {})),
            0x31 => Ok(Serverbound::InventoryAction(InventoryAction {})),
            0x32 => Ok(Serverbound::ChatMessage(ChatMessage {})),
            0x35 => Ok(Serverbound::Damage(Damage {})),
            0x37 => Ok(Serverbound::PlayerItem(PlayerItem {})),
            0x38 => Ok(Serverbound::Respawn(Respawn {})),
            0x39 => Ok(Serverbound::Interact(Interact {})),
            0x3A => Ok(Serverbound::RemovedSounds(RemovedSounds {})),
            0x3B => Ok(Serverbound::NodeMetaFields(NodeMetaFields {})),
            0x3C => Ok(Serverbound::InventoryFields(InventoryFields {})),
            0x40 => Ok(Serverbound::RequestMedia(RequestMedia {})),
            0x41 => Ok(Serverbound::HaveMedia(HaveMedia {})),
            0x43 => Ok(Serverbound::ClientReady(ClientReady {})),
            0x50 => Ok(Serverbound::FirstSrp(FirstSrp {})),
            0x51 => Ok(Serverbound::SrpBytesA(SrpBytesA {})),
            0x52 => Ok(Serverbound::SrpBytesM(SrpBytesM {})),
            0x53 => Ok(Serverbound::UpdateClientInfo(UpdateClientInfo {})),
            _ => Err(Error::UnknownPacket(id)),
        }
    }
}

/// Every serverbound packet that can be written reads back as itself, whatever follows it.
pub proof fn lemma_serverbound_round_trip(p: Serverbound, rest: Seq<u8>)
    requires
        p.encodable(),
    ensures
        Serverbound::decoding(p.encoding() + rest) == Ok::<(ServerboundView, int), ErrorView>(
            (p@, p.encoding().len() as int),
        ),
{
    p.lemma_round_trip(rest);
}

/// A buffer whose id no serverbound packet has is refused as an unknown packet.
pub proof fn lemma_unknown_serverbound_id(data: Seq<u8>)
    requires
        data.len() >= 2,
        forall|v: ServerboundView| #[trigger] v.id() != from_be16(data),
    ensures
        Serverbound::decoding(data) == Err::<(ServerboundView, int), ErrorView>(
            ErrorView::UnknownPacket(from_be16(data)),
        ),
{
    let id = from_be16(data);
    assert(ServerboundView::Hello(Hello {}).id() != id);
    let init = InitView {
        client_max_serialization_ver: 0,
        supp_compr_modes: 0,
        min_net_proto_version: 0,
        max_net_proto_version: 0,
        player_name: Seq::empty(),
    };
    assert(ServerboundView::Init(init).id() != id);
    assert(ServerboundView::Init2(Init2View { lang: Seq::empty() }).id() != id);
    assert(ServerboundView::ModChannelJoin(ModChannelJoin {}).id() != id);
    assert(ServerboundView::ModChannelLeave(ModChannelLeave {}).id() != id);
    assert(ServerboundView::ModChannelMsg(ModChannelMsg {}).id() != id);
    assert(ServerboundView::PlayerPos(PlayerPos {}).id() != id);
    assert(ServerboundView::GotBlocks(GotBlocks {}).id() != id);
    assert(ServerboundView::DeletedBlocks(DeletedBlocks {}).id() != id);
    assert(ServerboundView::InventoryAction(InventoryAction {}).id() != id);
    assert(ServerboundView::ChatMessage(ChatMessage {}).id() != id);
    assert(ServerboundView::Damage(Damage {}).id() != id);
    assert(ServerboundView::PlayerItem(PlayerItem {}).id() != id);
    assert(ServerboundView::Respawn(Respawn {}).id() != id);
    assert(ServerboundView::Interact(Interact {}).id() != id);
    assert(ServerboundView::RemovedSounds(RemovedSounds {}).id() != id);
    assert(ServerboundView::NodeMetaFields(NodeMetaFields {}).id() != id);
    assert(ServerboundView::InventoryFields(InventoryFields {}).id() != id);
    assert(ServerboundView::RequestMedia(RequestMedia {}).id() != id);
    assert(ServerboundView::HaveMedia(HaveMedia {}).id() != id);
    assert(ServerboundView::ClientReady(ClientReady {}).id() != id);
    assert(ServerboundView::FirstSrp(FirstSrp {}).id() != id);
    assert(ServerboundView::SrpBytesA(SrpBytesA {}).id() != id);
    assert(ServerboundView::SrpBytesM(SrpBytesM {}).id() != id);
    assert(ServerboundView::UpdateClientInfo(UpdateClientInfo {}).id() != id);
}

#[derive(Clone, Copy, Debug, PartialEq, Eq, Structural)]
pub struct Hello {}

#[derive(Clone, Copy, Debug, PartialEq, Eq, Structural)]
pub struct ModChannelJoin {}

#[derive(Clone, Copy, Debug, PartialEq, Eq, Structural)]
pub struct ModChannelLeave {}

#[derive(Clone, Copy, Debug, PartialEq, Eq, Structural)]
pub struct ModChannelMsg {}

#[derive(Clone, Copy, Debug, PartialEq, Eq, Structural)]
pub struct PlayerPos {}

#[derive(Clone, Copy, Debug, PartialEq, Eq, Structural)]
pub struct GotBlocks {}

#[derive(Clone, Copy, Debug, PartialEq, Eq, Structural)]
pub struct DeletedBlocks {}

#[derive(Clone, Copy, Debug, PartialEq, Eq, Structural)]
pub struct InventoryAction {}

#[derive(Clone, Copy, Debug, PartialEq, Eq, Structural)]
pub struct ChatMessage {}

#[derive(Clone, Copy, Debug, PartialEq, Eq, Structural)]
pub struct Damage {}

#[derive(Clone, Copy, Debug, PartialEq, Eq, Structural)]
pub struct PlayerItem {}

#[derive(Clone, Copy, Debug, PartialEq, Eq, Structural)]
pub struct Respawn {}

#[derive(Clone, Copy, Debug, PartialEq, Eq, Structural)]
pub struct Interact {}

#[derive(Clone, Copy, Debug, PartialEq, Eq, Structural)]
pub struct RemovedSounds {}

#[derive(Clone, Copy, Debug, PartialEq, Eq, Structural)]
pub struct NodeMetaFields {}

#[derive(Clone, Copy, Debug, PartialEq, Eq, Structural)]
pub struct InventoryFields {}

#[derive(Clone, Copy, Debug, PartialEq, Eq, Structural)]
pub struct RequestMedia {}

#[derive(Clone, Copy, Debug, PartialEq, Eq, Structural)]
pub struct HaveMedia {}

#[derive(Clone, Copy, Debug, PartialEq, Eq, Structural)]
pub struct ClientReady {}

#[derive(Clone, Copy, Debug, PartialEq, Eq, Structural)]
pub struct FirstSrp {}

#[derive(Clone, Copy, Debug, PartialEq, Eq, Structural)]
pub struct SrpBytesA {}

#[derive(Clone, Copy, Debug, PartialEq, Eq, Structural)]
pub struct SrpBytesM {}

#[derive(Clone, Copy, Debug, PartialEq, Eq, Structural)]
pub struct UpdateClientInfo {}

} // verus!
