//! Packets that the server sends to the client, keyed by a 16-bit id.
use vstd::prelude::*;

use crate::serialize::{
    be16, be32, from_be16, from_be32, lemma_be16, lemma_be32, text_encodable, text_encoding, Cursor,
    Serialize,
};
use crate::{Error, ErrorView};

verus! {

/// The server's answer to the client's hello.
#[derive(Debug)]
pub struct Hello {
    pub serialization_version: u8,
    pub compression_mode: u16,
    pub protocol_version: u16,
    pub auth_mechs: u32,
    pub legacy_name: String,
}

/// The mathematical value of [`Hello`].
pub struct HelloView {
    pub serialization_version: u8,
    pub compression_mode: u16,
    pub protocol_version: u16,
    pub auth_mechs: u32,
    pub legacy_name: Seq<char>,
}

impl HelloView {
    /// Whether the text fields fit their length prefix.
    pub open spec fn encodable(self) -> bool {
        text_encodable(self.legacy_name)
    }

    /// The bytes the record is written as, field by field.
    pub open spec fn encoding(self) -> Seq<u8> {
        seq![self.serialization_version] + be16(self.compression_mode) + be16(self.protocol_version)
            + be32(self.auth_mechs) + text_encoding(self.legacy_name)
    }
}

impl View for Hello {
    type V = HelloView;

    open spec fn view(&self) -> HelloView {
        HelloView {
            serialization_version: self.serialization_version,
            compression_mode: self.compression_mode,
            protocol_version: self.protocol_version,
            auth_mechs: self.auth_mechs,
            legacy_name: self.legacy_name@,
        }
    }
}

impl Serialize for Hello {
    open spec fn encodable(&self) -> bool {
        self@.encodable()
    }

    open spec fn encoding(&self) -> Seq<u8> {
        self@.encoding()
    }

    open spec fn decoding(data: Seq<u8>) -> Result<(HelloView, int), ErrorView> {
        if data.len() < 9 {
            Err(ErrorView::UnexpectedEof)
        } else {
            match String::decoding(data.skip(9)) {
                Ok((s, n)) => Ok(
                    (
                        HelloView {
                            serialization_version: data[0],
                            compression_mode: from_be16(data.skip(1)),
                            protocol_version: from_be16(data.skip(3)),
                            auth_mechs: from_be32(data.skip(5)),
                            legacy_name: s,
                        },
                        9 + n,
                    ),
                ),
                Err(e) => Err(e),
            }
        }
    }

    proof fn lemma_round_trip(&self, rest: Seq<u8>) {
        let d = self.encoding() + rest;
        let h = seq![self.serialization_version] + be16(self.compression_mode) + be16(
            self.protocol_version,
        ) + be32(self.auth_mechs);
        assert(h.len() == 9);
        assert(d =~= h + (self.legacy_name.encoding() + rest));
        assert(d.skip(9) =~= self.legacy_name.encoding() + rest);
        self.legacy_name.lemma_round_trip(rest);
        assert(d[0] == h[0]);
        lemma_be16(self.compression_mode);
        assert(d.skip(1)[0] == h[1] && d.skip(1)[1] == h[2]);
        lemma_be16(self.protocol_version);
        assert(d.skip(3)[0] == h[3] && d.skip(3)[1] == h[4]);
        lemma_be32(self.auth_mechs);
        assert(d.skip(5)[0] == h[5] && d.skip(5)[1] == h[6] && d.skip(5)[2] == h[7] && d.skip(5)[3]
            == h[8]);
    }

    fn serialize(&self, w: &mut Vec<u8>) {
        self.serialization_version.serialize(w);
        self.compression_mode.serialize(w);
        self.protocol_version.serialize(w);
        self.auth_mechs.serialize(w);
        self.legacy_name.serialize(w);
        assert(w@ =~= old(w)@ + self.encoding());
    }

    fn deserialize(r: &mut Cursor) -> (res: Result<Self, Error>) {
        let start = Ghost(r.rest());
        let serialization_version = u8::deserialize(r)?;
        let compression_mode = u16::deserialize(r)?;
        assert(start@.skip(1).skip(2) =~= start@.skip(3));
        let protocol_version = u16::deserialize(r)?;
        assert(start@.skip(3).skip(2) =~= start@.skip(5));
        let auth_mechs = u32::deserialize(r)?;
        assert(start@.skip(5).skip(4) =~= start@.skip(9));
        let legacy_name = String::deserialize(r)?;
        assert forall|n: int| 0 <= n <= start@.skip(9).len() implies #[trigger] start@.skip(9).skip(n)
            =~= start@.skip(9 + n) by {}
        Ok(
            Hello {
                serialization_version,
                compression_mode,
                protocol_version,
                auth_mechs,
                legacy_name,
            },
        )
    }
}

/// A packet that the server sends.
#[derive(Debug)]
pub enum Clientbound {
    Hello(Hello),
    AuthAccept(AuthAccept),
    AcceptSudoMode(AcceptSudoMode),
    DenySudoMode(DenySudoMode),
    AccessDenied(AccessDenied),
    BlockData(BlockData),
    AddNode(AddNode),
    RemoveNode(RemoveNode),
    Inventory(Inventory),
    TimeOfDay(TimeOfDay),
    CsmRestrictionFlags(CsmRestrictionFlags),
    PlayerSpeed(PlayerSpeed),
    MediaPush(MediaPush),
    ChatMessage(ChatMessage),
    ActiveObjectRemoveAdd(ActiveObjectRemoveAdd),
    ActiveObjectMessages(ActiveObjectMessages),
    Hp(Hp),
    MovePlayer(MovePlayer),
    AccessDeniedLegacy(AccessDeniedLegacy),
    Fov(Fov),
    DeathScreen(DeathScreen),
    Media(Media),
    NodeDef(NodeDef),
    AnnounceMedia(AnnounceMedia),
    ItemDef(ItemDef),
    PlaySound(PlaySound),
    StopSound(StopSound),
    Privileges(Privileges),
    InventoryFormSpec(InventoryFormSpec),
    DetachedInventory(DetachedInventory),
    ShowFormspec(ShowFormspec),
    Movement(Movement),
    SpawnParticle(SpawnParticle),
    AddParticleSpawner(AddParticleSpawner),
    HudAdd(HudAdd),
    HudRm(HudRm),
    HudChange(HudChange),
    Breath(Breath),
    SetSky(SetSky),
    OverrideDayNightRatio(OverrideDayNightRatio),
    LocalPlayerAnimations(LocalPlayerAnimations),
    EyeOffset(EyeOffset),
    DeleteParticleSpawner(DeleteParticleSpawner),
    CloudParams(CloudParams),
    FadeSound(FadeSound),
    UpdatePlayerList(UpdatePlayerList),
    ModChannelMsg(ModChannelMsg),
    ModChannelSignal(ModChannelSignal),
    NodeMetaChanged(NodeMetaChanged),
    SetSun(SetSun),
    SetMoon(SetMoon),
    SetStars(SetStars),
    MovePlayerRel(MovePlayerRel),
    SrpBytesSB(SrpBytesSB),
    FormspecPrepend(FormspecPrepend),
    MinimapModes(MinimapModes),
    SetLighting(SetLighting),
}

/// The mathematical value of a [`Clientbound`] packet.
pub enum ClientboundView {
    Hello(HelloView),
    AuthAccept(AuthAccept),
    AcceptSudoMode(AcceptSudoMode),
    DenySudoMode(DenySudoMode),
    AccessDenied(AccessDenied),
    BlockData(BlockData),
    AddNode(AddNode),
    RemoveNode(RemoveNode),
    Inventory(Inventory),
    TimeOfDay(TimeOfDay),
    CsmRestrictionFlags(CsmRestrictionFlags),
    PlayerSpeed(PlayerSpeed),
    MediaPush(MediaPush),
    ChatMessage(ChatMessage),
    ActiveObjectRemoveAdd(ActiveObjectRemoveAdd),
    ActiveObjectMessages(ActiveObjectMessages),
    Hp(Hp),
    MovePlayer(MovePlayer),
    AccessDeniedLegacy(AccessDeniedLegacy),
    Fov(Fov),
    DeathScreen(DeathScreen),
    Media(Media),
    NodeDef(NodeDef),
    AnnounceMedia(AnnounceMedia),
    ItemDef(ItemDef),
    PlaySound(PlaySound),
    StopSound(StopSound),
    Privileges(Privileges),
    InventoryFormSpec(InventoryFormSpec),
    DetachedInventory(DetachedInventory),
    ShowFormspec(ShowFormspec),
    Movement(Movement),
    SpawnParticle(SpawnParticle),
    AddParticleSpawner(AddParticleSpawner),
    HudAdd(HudAdd),
    HudRm(HudRm),
    HudChange(HudChange),
    Breath(Breath),
    SetSky(SetSky),
    OverrideDayNightRatio(OverrideDayNightRatio),
    LocalPlayerAnimations(LocalPlayerAnimations),
    EyeOffset(EyeOffset),
    DeleteParticleSpawner(DeleteParticleSpawner),
    CloudParams(CloudParams),
    FadeSound(FadeSound),
    UpdatePlayerList(UpdatePlayerList),
    ModChannelMsg(ModChannelMsg),
    ModChannelSignal(ModChannelSignal),
    NodeMetaChanged(NodeMetaChanged),
    SetSun(SetSun),
    SetMoon(SetMoon),
    SetStars(SetStars),
    MovePlayerRel(MovePlayerRel),
    SrpBytesSB(SrpBytesSB),
    FormspecPrepend(FormspecPrepend),
    MinimapModes(MinimapModes),
    SetLighting(SetLighting),
}

impl View for Clientbound {
    type V = ClientboundView;

    open spec fn view(&self) -> ClientboundView {
        match self {
            Clientbound::Hello(p) => ClientboundView::Hello(p@),
            Clientbound::AuthAccept(p) => ClientboundView::AuthAccept(*p),
            Clientbound::AcceptSudoMode(p) => ClientboundView::AcceptSudoMode(*p),
            Clientbound::DenySudoMode(p) => ClientboundView::DenySudoMode(*p),
            Clientbound::AccessDenied(p) => ClientboundView::AccessDenied(*p),
            Clientbound::BlockData(p) => ClientboundView::BlockData(*p),
            Clientbound::AddNode(p) => ClientboundView::AddNode(*p),
            Clientbound::RemoveNode(p) => ClientboundView::RemoveNode(*p),
            Clientbound::Inventory(p) => ClientboundView::Inventory(*p),
            Clientbound::TimeOfDay(p) => ClientboundView::TimeOfDay(*p),
            Clientbound::CsmRestrictionFlags(p) => ClientboundView::CsmRestrictionFlags(*p),
            Clientbound::PlayerSpeed(p) => ClientboundView::PlayerSpeed(*p),
            Clientbound::MediaPush(p) => ClientboundView::MediaPush(*p),
            Clientbound::ChatMessage(p) => ClientboundView::ChatMessage(*p),
            Clientbound::ActiveObjectRemoveAdd(p) => ClientboundView::ActiveObjectRemoveAdd(*p),
            Clientbound::ActiveObjectMessages(p) => ClientboundView::ActiveObjectMessages(*p),
            Clientbound::Hp(p) => ClientboundView::Hp(*p),
            Clientbound::MovePlayer(p) => ClientboundView::MovePlayer(*p),
            Clientbound::AccessDeniedLegacy(p) => ClientboundView::AccessDeniedLegacy(*p),
            Clientbound::Fov(p) => ClientboundView::Fov(*p),
            Clientbound::DeathScreen(p) => ClientboundView::DeathScreen(*p),
            Clientbound::Media(p) => ClientboundView::Media(*p),
            Clientbound::NodeDef(p) => ClientboundView::NodeDef(*p),
            Clientbound::AnnounceMedia(p) => ClientboundView::AnnounceMedia(*p),
            Clientbound::ItemDef(p) => ClientboundView::ItemDef(*p),
            Clientbound::PlaySound(p) => ClientboundView::PlaySound(*p),
            Clientbound::StopSound(p) => ClientboundView::StopSound(*p),
            Clientbound::Privileges(p) => ClientboundView::Privileges(*p),
            Clientbound::InventoryFormSpec(p) => ClientboundView::InventoryFormSpec(*p),
            Clientbound::DetachedInventory(p) => ClientboundView::DetachedInventory(*p),
            Clientbound::ShowFormspec(p) => ClientboundView::ShowFormspec(*p),
            Clientbound::Movement(p) => ClientboundView::Movement(*p),
            Clientbound::SpawnParticle(p) => ClientboundView::SpawnParticle(*p),
            Clientbound::AddParticleSpawner(p) => ClientboundView::AddParticleSpawner(*p),
            Clientbound::HudAdd(p) => ClientboundView::HudAdd(*p),
            Clientbound::HudRm(p) => ClientboundView::HudRm(*p),
            Clientbound::HudChange(p) => ClientboundView::HudChange(*p),
            Clientbound::Breath(p) => ClientboundView::Breath(*p),
            Clientbound::SetSky(p) => ClientboundView::SetSky(*p),
            Clientbound::OverrideDayNightRatio(p) => ClientboundView::OverrideDayNightRatio(*p),
            Clientbound::LocalPlayerAnimations(p) => ClientboundView::LocalPlayerAnimations(*p),
            Clientbound::EyeOffset(p) => ClientboundView::EyeOffset(*p),
            Clientbound::DeleteParticleSpawner(p) => ClientboundView::DeleteParticleSpawner(*p),
            Clientbound::CloudParams(p) => ClientboundView::CloudParams(*p),
            Clientbound::FadeSound(p) => ClientboundView::FadeSound(*p),
            Clientbound::UpdatePlayerList(p) => ClientboundView::UpdatePlayerList(*p),
            Clientbound::ModChannelMsg(p) => ClientboundView::ModChannelMsg(*p),
            Clientbound::ModChannelSignal(p) => ClientboundView::ModChannelSignal(*p),
            Clientbound::NodeMetaChanged(p) => ClientboundView::NodeMetaChanged(*p),
            Clientbound::SetSun(p) => ClientboundView::SetSun(*p),
            Clientbound::SetMoon(p) => ClientboundView::SetMoon(*p),
            Clientbound::SetStars(p) => ClientboundView::SetStars(*p),
            Clientbound::MovePlayerRel(p) => ClientboundView::MovePlayerRel(*p),
            Clientbound::SrpBytesSB(p) => ClientboundView::SrpBytesSB(*p),
            Clientbound::FormspecPrepend(p) => ClientboundView::FormspecPrepend(*p),
            Clientbound::MinimapModes(p) => ClientboundView::MinimapModes(*p),
            Clientbound::SetLighting(p) => ClientboundView::SetLighting(*p),
        }
    }
}

impl ClientboundView {
    /// The packet's id on the wire.
    pub open spec fn id(self) -> u16 {
        match self {
            ClientboundView::Hello(_) => 0x02,
            ClientboundView::AuthAccept(_) => 0x03,
            ClientboundView::AcceptSudoMode(_) => 0x04,
            ClientboundView::DenySudoMode(_) => 0x05,
            ClientboundView::AccessDenied(_) => 0x0A,
            ClientboundView::BlockData(_) => 0x20,
            ClientboundView::AddNode(_) => 0x21,
            ClientboundView::RemoveNode(_) => 0x22,
            ClientboundView::Inventory(_) => 0x27,
            ClientboundView::TimeOfDay(_) => 0x29,
            ClientboundView::CsmRestrictionFlags(_) => 0x2A,
            ClientboundView::PlayerSpeed(_) => 0x2B,
            ClientboundView::MediaPush(_) => 0x2C,
            ClientboundView::ChatMessage(_) => 0x2F,
            ClientboundView::ActiveObjectRemoveAdd(_) => 0x31,
            ClientboundView::ActiveObjectMessages(_) => 0x32,
            ClientboundView::Hp(_) => 0x33,
            ClientboundView::MovePlayer(_) => 0x34,
            ClientboundView::AccessDeniedLegacy(_) => 0x35,
            ClientboundView::Fov(_) => 0x36,
            ClientboundView::DeathScreen(_) => 0x37,
            ClientboundView::Media(_) => 0x38,
            ClientboundView::NodeDef(_) => 0x3A,
            ClientboundView::AnnounceMedia(_) => 0x3C,
            ClientboundView::ItemDef(_) => 0x3D,
            ClientboundView::PlaySound(_) => 0x3F,
            ClientboundView::StopSound(_) => 0x40,
            ClientboundView::Privileges(_) => 0x41,
            ClientboundView::InventoryFormSpec(_) => 0x42,
            ClientboundView::DetachedInventory(_) => 0x43,
            ClientboundView::ShowFormspec(_) => 0x44,
            ClientboundView::Movement(_) => 0x45,
            ClientboundView::SpawnParticle(_) => 0x46,
            ClientboundView::AddParticleSpawner(_) => 0x47,
            ClientboundView::HudAdd(_) => 0x49,
            ClientboundView::HudRm(_) => 0x4A,
            ClientboundView::HudChange(_) => 0x4B,
            ClientboundView::Breath(_) => 0x4E,
            ClientboundView::SetSky(_) => 0x4F,
            ClientboundView::OverrideDayNightRatio(_) => 0x50,
            ClientboundView::LocalPlayerAnimations(_) => 0x51,
            ClientboundView::EyeOffset(_) => 0x52,
            ClientboundView::DeleteParticleSpawner(_) => 0x53,
            ClientboundView::CloudParams(_) => 0x54,
            ClientboundView::FadeSound(_) => 0x55,
            ClientboundView::UpdatePlayerList(_) => 0x56,
            ClientboundView::ModChannelMsg(_) => 0x57,
            ClientboundView::ModChannelSignal(_) => 0x58,
            ClientboundView::NodeMetaChanged(_) => 0x59,
            ClientboundView::SetSun(_) => 0x5A,
            ClientboundView::SetMoon(_) => 0x5B,
            ClientboundView::SetStars(_) => 0x5C,
            ClientboundView::MovePlayerRel(_) => 0x5D,
            ClientboundView::SrpBytesSB(_) => 0x60,
            ClientboundView::FormspecPrepend(_) => 0x61,
            ClientboundView::MinimapModes(_) => 0x62,
            ClientboundView::SetLighting(_) => 0x63,
        }
    }
}

impl ClientboundView {
    /// Whether the packet can be written.
    pub open spec fn encodable(self) -> bool {
        match self {
            ClientboundView::Hello(r) => r.encodable(),
            _ => true,
        }
    }

    /// The bytes that follow the id.
    pub open spec fn payload_encoding(self) -> Seq<u8> {
        match self {
            ClientboundView::Hello(r) => r.encoding(),
            _ => Seq::empty(),
        }
    }

    /// The bytes the packet is written as: its id, then its payload.
    pub open spec fn encoding(self) -> Seq<u8> {
        be16(self.id()) + self.payload_encoding()
    }
}

/// Reading the payload of the packet with id `id` from `data`, which follows the id.
pub open spec fn payload_decoding(id: u16, data: Seq<u8>) -> Result<
    (ClientboundView, int),
    ErrorView,
> {
    if id == 0x02 {
        match Hello::decoding(data) {
            Ok((r, n)) => Ok((ClientboundView::Hello(r), n)),
            Err(e) => Err(e),
        }
    } else if id == 0x03 {
        Ok((ClientboundView::AuthAccept(AuthAccept {}), 0))
    } else if id == 0x04 {
        Ok((ClientboundView::AcceptSudoMode(AcceptSudoMode {}), 0))
    } else if id == 0x05 {
        Ok((ClientboundView::DenySudoMode(DenySudoMode {}), 0))
    } else if id == 0x0A {
        Ok((ClientboundView::AccessDenied(AccessDenied {}), 0))
    } else if id == 0x20 {
        Ok((ClientboundView::BlockData(BlockData {}), 0))
    } else if id == 0x21 {
        Ok((ClientboundView::AddNode(AddNode {}), 0))
    } else if id == 0x22 {
        Ok((ClientboundView::RemoveNode(RemoveNode {}), 0))
    } else if id == 0x27 {
        Ok((ClientboundView::Inventory(Inventory {}), 0))
    } else if id == 0x29 {
        Ok((ClientboundView::TimeOfDay(TimeOfDay {}), 0))
    } else if id == 0x2A {
        Ok((ClientboundView::CsmRestrictionFlags(CsmRestrictionFlags {}), 0))
    } else if id == 0x2B {
        Ok((ClientboundView::PlayerSpeed(PlayerSpeed {}), 0))
    } else if id == 0x2C {
        Ok((ClientboundView::MediaPush(MediaPush {}), 0))
    } else if id == 0x2F {
        Ok((ClientboundView::ChatMessage(ChatMessage {}), 0))
    } else if id == 0x31 {
        Ok((ClientboundView::ActiveObjectRemoveAdd(ActiveObjectRemoveAdd {}), 0))
    } else if id == 0x32 {
        Ok((ClientboundView::ActiveObjectMessages(ActiveObjectMessages {}), 0))
    } else if id == 0x33 {
        Ok((ClientboundView::Hp(Hp {}), 0))
    } else if id == 0x34 {
        Ok((ClientboundView::MovePlayer(MovePlayer {}), 0))
    } else if id == 0x35 {
        Ok((ClientboundView::AccessDeniedLegacy(AccessDeniedLegacy {}), 0))
    } else if id == 0x36 {
        Ok((ClientboundView::Fov(Fov {}), 0))
    } else if id == 0x37 {
        Ok((ClientboundView::DeathScreen(DeathScreen {}), 0))
    } else if id == 0x38 {
        Ok((ClientboundView::Media(Media {}), 0))
    } else if id == 0x3A {
        Ok((ClientboundView::NodeDef(NodeDef {}), 0))
    } else if id == 0x3C {
        Ok((ClientboundView::AnnounceMedia(AnnounceMedia {}), 0))
    } else if id == 0x3D {
        Ok((ClientboundView::ItemDef(ItemDef {}), 0))
    } else if id == 0x3F {
        Ok((ClientboundView::PlaySound(PlaySound {}), 0))
    } else if id == 0x40 {
        Ok((ClientboundView::StopSound(StopSound {}), 0))
    } else if id == 0x41 {
        Ok((ClientboundView::Privileges(Privileges {}), 0))
    } else if id == 0x42 {
        Ok((ClientboundView::InventoryFormSpec(InventoryFormSpec {}), 0))
    } else if id == 0x43 {
        Ok((ClientboundView::DetachedInventory(DetachedInventory {}), 0))
    } else if id == 0x44 {
        Ok((ClientboundView::ShowFormspec(ShowFormspec {}), 0))
    } else if id == 0x45 {
        Ok((ClientboundView::Movement(Movement {}), 0))
    } else if id == 0x46 {
        Ok((ClientboundView::SpawnParticle(SpawnParticle {}), 0))
    } else if id == 0x47 {
        Ok((ClientboundView::AddParticleSpawner(AddParticleSpawner {}), 0))
    } else if id == 0x49 {
        Ok((ClientboundView::HudAdd(HudAdd {}), 0))
    } else if id == 0x4A {
        Ok((ClientboundView::HudRm(HudRm {}), 0))
    } else if id == 0x4B {
        Ok((ClientboundView::HudChange(HudChange {}), 0))
    } else if id == 0x4E {
        Ok((ClientboundView::Breath(Breath {}), 0))
    } else if id == 0x4F {
        Ok((ClientboundView::SetSky(SetSky {}), 0))
    } else if id == 0x50 {
        Ok((ClientboundView::OverrideDayNightRatio(OverrideDayNightRatio {}), 0))
    } else if id == 0x51 {
        Ok((ClientboundView::LocalPlayerAnimations(LocalPlayerAnimations {}), 0))
    } else if id == 0x52 {
        Ok((ClientboundView::EyeOffset(EyeOffset {}), 0))
    } else if id == 0x53 {
        Ok((ClientboundView::DeleteParticleSpawner(DeleteParticleSpawner {}), 0))
    } else if id == 0x54 {
        Ok((ClientboundView::CloudParams(CloudParams {}), 0))
    } else if id == 0x55 {
        Ok((ClientboundView::FadeSound(FadeSound {}), 0))
    } else if id == 0x56 {
        Ok((ClientboundView::UpdatePlayerList(UpdatePlayerList {}), 0))
    } else if id == 0x57 {
        Ok((ClientboundView::ModChannelMsg(ModChannelMsg {}), 0))
    } else if id == 0x58 {
        Ok((ClientboundView::ModChannelSignal(ModChannelSignal {}), 0))
    } else if id == 0x59 {
        Ok((ClientboundView::NodeMetaChanged(NodeMetaChanged {}), 0))
    } else if id == 0x5A {
        Ok((ClientboundView::SetSun(SetSun {}), 0))
    } else if id == 0x5B {
        Ok((ClientboundView::SetMoon(SetMoon {}), 0))
    } else if id == 0x5C {
        Ok((ClientboundView::SetStars(SetStars {}), 0))
    } else if id == 0x5D {
        Ok((ClientboundView::MovePlayerRel(MovePlayerRel {}), 0))
    } else if id == 0x60 {
        Ok((ClientboundView::SrpBytesSB(SrpBytesSB {}), 0))
    } else if id == 0x61 {
        Ok((ClientboundView::FormspecPrepend(FormspecPrepend {}), 0))
    } else if id == 0x62 {
        Ok((ClientboundView::MinimapModes(MinimapModes {}), 0))
    } else if id == 0x63 {
        Ok((ClientboundView::SetLighting(SetLighting {}), 0))
    } else {
        Err(ErrorView::UnknownPacket(id))
    }
}

impl Clientbound {
    /// The packet's id on the wire.
    pub fn id(&self) -> (r: u16)
        ensures
            r == self@.id(),
    {
        match self {
            Clientbound::Hello(_) => 0x02,
            Clientbound::AuthAccept(_) => 0x03,
            Clientbound::AcceptSudoMode(_) => 0x04,
            Clientbound::DenySudoMode(_) => 0x05,
            Clientbound::AccessDenied(_) => 0x0A,
            Clientbound::BlockData(_) => 0x20,
            Clientbound::AddNode(_) => 0x21,
            Clientbound::RemoveNode(_) => 0x22,
            Clientbound::Inventory(_) => 0x27,
            Clientbound::TimeOfDay(_) => 0x29,
            Clientbound::CsmRestrictionFlags(_) => 0x2A,
            Clientbound::PlayerSpeed(_) => 0x2B,
            Clientbound::MediaPush(_) => 0x2C,
            Clientbound::ChatMessage(_) => 0x2F,
            Clientbound::ActiveObjectRemoveAdd(_) => 0x31,
            Clientbound::ActiveObjectMessages(_) => 0x32,
            Clientbound::Hp(_) => 0x33,
            Clientbound::MovePlayer(_) => 0x34,
            Clientbound::AccessDeniedLegacy(_) => 0x35,
            Clientbound::Fov(_) => 0x36,
            Clientbound::DeathScreen(_) => 0x37,
            Clientbound::Media(_) => 0x38,
            Clientbound::NodeDef(_) => 0x3A,
            Clientbound::AnnounceMedia(_) => 0x3C,
            Clientbound::ItemDef(_) => 0x3D,
            Clientbound::PlaySound(_) => 0x3F,
            Clientbound::StopSound(_) => 0x40,
            Clientbound::Privileges(_) => 0x41,
            Clientbound::InventoryFormSpec(_) => 0x42,
            Clientbound::DetachedInventory(_) => 0x43,
            Clientbound::ShowFormspec(_) => 0x44,
            Clientbound::Movement(_) => 0x45,
            Clientbound::SpawnParticle(_) => 0x46,
            Clientbound::AddParticleSpawner(_) => 0x47,
            Clientbound::HudAdd(_) => 0x49,
            Clientbound::HudRm(_) => 0x4A,
            Clientbound::HudChange(_) => 0x4B,
            Clientbound::Breath(_) => 0x4E,
            Clientbound::SetSky(_) => 0x4F,
            Clientbound::OverrideDayNightRatio(_) => 0x50,
            Clientbound::LocalPlayerAnimations(_) => 0x51,
            Clientbound::EyeOffset(_) => 0x52,
            Clientbound::DeleteParticleSpawner(_) => 0x53,
            Clientbound::CloudParams(_) => 0x54,
            Clientbound::FadeSound(_) => 0x55,
            Clientbound::UpdatePlayerList(_) => 0x56,
            Clientbound::ModChannelMsg(_) => 0x57,
            Clientbound::ModChannelSignal(_) => 0x58,
            Clientbound::NodeMetaChanged(_) => 0x59,
            Clientbound::SetSun(_) => 0x5A,
            Clientbound::SetMoon(_) => 0x5B,
            Clientbound::SetStars(_) => 0x5C,
            Clientbound::MovePlayerRel(_) => 0x5D,
            Clientbound::SrpBytesSB(_) => 0x60,
            Clientbound::FormspecPrepend(_) => 0x61,
            Clientbound::MinimapModes(_) => 0x62,
            Clientbound::SetLighting(_) => 0x63,
        }
    }
}

impl Serialize for Clientbound {
    open spec fn encodable(&self) -> bool {
        self@.encodable()
    }

    open spec fn encoding(&self) -> Seq<u8> {
        self@.encoding()
    }

    open spec fn decoding(data: Seq<u8>) -> Result<(ClientboundView, int), ErrorView> {
        if data.len() < 2 {
            Err(ErrorView::UnexpectedEof)
        } else {
            match payload_decoding(from_be16(data), data.skip(2)) {
                Ok((p, n)) => Ok((p, 2 + n)),
                Err(e) => Err(e),
            }
        }
    }

    proof fn lemma_round_trip(&self, rest: Seq<u8>) {
        let d = self.encoding() + rest;
        lemma_be16(self@.id());
        assert(d[0] == be16(self@.id())[0] && d[1] == be16(self@.id())[1]);
        assert(d.skip(2) =~= self@.payload_encoding() + rest);
        match self {
            Clientbound::Hello(r) => r.lemma_round_trip(rest),
            _ => {},
        }
    }

    fn serialize(&self, w: &mut Vec<u8>) {
        self.id().serialize(w);
        match self {
            Clientbound::Hello(r) => r.serialize(w),
            _ => {},
        }
        assert(w@ =~= old(w)@ + self.encoding());
    }

    fn deserialize(r: &mut Cursor) -> (res: Result<Self, Error>) {
        let start = Ghost(r.rest());
        let id = u16::deserialize(r)?;
        assert forall|n: int| 0 <= n <= start@.skip(2).len() implies #[trigger] start@.skip(2).skip(n)
            =~= start@.skip(2 + n) by {}
        assert(start@.skip(2).skip(0) =~= start@.skip(2));
        match id {
            0x02 => Ok(Clientbound::Hello(Hello::deserialize(r)?)),
            0x03 => Ok(Clientbound::AuthAccept(AuthAccept {})),
            0x04 => Ok(Clientbound::AcceptSudoMode(AcceptSudoMode {})),
            0x05 => Ok(Clientbound::DenySudoMode(DenySudoMode {})),
            0x0A => Ok(Clientbound::AccessDenied(AccessDenied {})),
            0x20 => Ok(Clientbound::BlockData(BlockData {})),
            0x21 => Ok(Clientbound::AddNode(AddNode {})),
            0x22 => Ok(Clientbound::RemoveNode(RemoveNode {})),
            0x27 => Ok(Clientbound::Inventory(Inventory {})),
            0x29 => Ok(Clientbound::TimeOfDay(TimeOfDay {})),
            0x2A => Ok(Clientbound::CsmRestrictionFlags(CsmRestrictionFlags {})),
            0x2B => Ok(Clientbound::PlayerSpeed(PlayerSpeed {})),
            0x2C => Ok(Clientbound::MediaPush(MediaPush {})),
            0x2F => Ok(Clientbound::ChatMessage(ChatMessage {})),
            0x31 => Ok(Clientbound::ActiveObjectRemoveAdd(ActiveObjectRemoveAdd {})),
            0x32 => Ok(Clientbound::ActiveObjectMessages(ActiveObjectMessages {})),
            0x33 => Ok(Clientbound::Hp(Hp {})),
            0x34 => Ok(Clientbound::MovePlayer(MovePlayer {})),
            0x35 => Ok(Clientbound::AccessDeniedLegacy(AccessDeniedLegacy {})),
            0x36 => Ok(Clientbound::Fov(Fov {})),
            0x37 => Ok(Clientbound::DeathScreen(DeathScreen {})),
            0x38 => Ok(Clientbound::Media(Media {})),
            0x3A => Ok(Clientbound::NodeDef(NodeDef {})),
            0x3C => Ok(Clientbound::AnnounceMedia(AnnounceMedia {})),
            0x3D => Ok(Clientbound::ItemDef(ItemDef {})),
            0x3F => Ok(Clientbound::PlaySound(PlaySound {})),
            0x40 => Ok(Clientbound::StopSound(StopSound {})),
            0x41 => Ok(Clientbound::Privileges(Privileges {})),
            0x42 => Ok(Clientbound::InventoryFormSpec(InventoryFormSpec {})),
            0x43 => Ok(Clientbound::DetachedInventory(DetachedInventory {})),
            0x44 => Ok(Clientbound::ShowFormspec(ShowFormspec {})),
            0x45 => Ok(Clientbound::Movement(Movement {})),
            0x46 => Ok(Clientbound::SpawnParticle(SpawnParticle {})),
            0x47 => Ok(Clientbound::AddParticleSpawner(AddParticleSpawner {})),
            0x49 => Ok(Clientbound::HudAdd(HudAdd {})),
            0x4A => Ok(Clientbound::HudRm(HudRm {})),
            0x4B => Ok(Clientbound::HudChange(HudChange {})),
            0x4E => Ok(Clientbound::Breath(Breath {})),
            0x4F => Ok(Clientbound::SetSky(SetSky {})),
            0x50 => Ok(Clientbound::OverrideDayNightRatio(OverrideDayNightRatio {})),
            0x51 => Ok(Clientbound::LocalPlayerAnimations(LocalPlayerAnimations {})),
            0x52 => Ok(Clientbound::EyeOffset(EyeOffset {})),
            0x53 => Ok(Clientbound::DeleteParticleSpawner(DeleteParticleSpawner {})),
            0x54 => Ok(Clientbound::CloudParams(CloudParams {})),
            0x55 => Ok(Clientbound::FadeSound(FadeSound {})),
            0x56 => Ok(Clientbound::UpdatePlayerList(UpdatePlayerList {})),
            0x57 => Ok(Clientbound::ModChannelMsg(ModChannelMsg {})),
            0x58 => Ok(Clientbound::ModChannelSignal(ModChannelSignal {})),
            0x59 => Ok(Clientbound::NodeMetaChanged(NodeMetaChanged {})),
            0x5A => Ok(Clientbound::SetSun(SetSun {})),
            0x5B => Ok(Clientbound::SetMoon(SetMoon {})),
            0x5C => Ok(Clientbound::SetStars(SetStars {})),
            0x5D => Ok(Clientbound::MovePlayerRel(MovePlayerRel {})),
            0x60 => Ok(Clientbound::SrpBytesSB(SrpBytesSB {})),
            0x61 => Ok(Clientbound::FormspecPrepend(FormspecPrepend {})),
            0x62 => Ok(Clientbound::MinimapModes(MinimapModes {})),
            0x63 => Ok(Clientbound::SetLighting(SetLighting {})),
            _ => Err(Error::UnknownPacket(id)),
        }
    }
}

/// Every clientbound packet that can be written reads back as itself, whatever follows it.
pub proof fn lemma_clientbound_round_trip(p: Clientbound, rest: Seq<u8>)
    requires
        p.encodable(),
    ensures
        Clientbound::decoding(p.encoding() + rest) == Ok::<(ClientboundView, int), ErrorView>(
            (p@, p.encoding().len() as int),
        ),
{
    p.lemma_round_trip(rest);
}

/// A buffer whose id no clientbound packet has is refused as an unknown packet.
pub proof fn lemma_unknown_clientbound_id(data: Seq<u8>)
    requires
        data.len() >= 2,
        forall|v: ClientboundView| #[trigger] v.id() != from_be16(data),
    ensures
        Clientbound::decoding(data) == Err::<(ClientboundView, int), ErrorView>(
            ErrorView::UnknownPacket(from_be16(data)),
        ),
{
    let id = from_be16(data);
    let hello = HelloView {
        serialization_version: 0,
        compression_mode: 0,
        protocol_version: 0,
        auth_mechs: 0,
        legacy_name: Seq::empty(),
    };
    assert(ClientboundView::Hello(hello).id() != id);
    assert(ClientboundView::AuthAccept(AuthAccept {}).id() != id);
    assert(ClientboundView::AcceptSudoMode(AcceptSudoMode {}).id() != id);
    assert(ClientboundView::DenySudoMode(DenySudoMode {}).id() != id);
    assert(ClientboundView::AccessDenied(AccessDenied {}).id() != id);
    assert(ClientboundView::BlockData(BlockData {}).id() != id);
    assert(ClientboundView::AddNode(AddNode {}).id() != id);
    assert(ClientboundView::RemoveNode(RemoveNode {}).id() != id);
    assert(ClientboundView::Inventory(Inventory {}).id() != id);
    assert(ClientboundView::TimeOfDay(TimeOfDay {}).id() != id);
    assert(ClientboundView::CsmRestrictionFlags(CsmRestrictionFlags {}).id() != id);
    assert(ClientboundView::PlayerSpeed(PlayerSpeed {}).id() != id);
    assert(ClientboundView::MediaPush(MediaPush {}).id() != id);
    assert(ClientboundView::ChatMessage(ChatMessage {}).id() != id);
    assert(ClientboundView::ActiveObjectRemoveAdd(ActiveObjectRemoveAdd {}).id() != id);
    assert(ClientboundView::ActiveObjectMessages(ActiveObjectMessages {}).id() != id);
    assert(ClientboundView::Hp(Hp {}).id() != id);
    assert(ClientboundView::MovePlayer(MovePlayer {}).id() != id);
    assert(ClientboundView::AccessDeniedLegacy(AccessDeniedLegacy {}).id() != id);
    assert(ClientboundView::Fov(Fov {}).id() != id);
    assert(ClientboundView::DeathScreen(DeathScreen {}).id() != id);
    assert(ClientboundView::Media(Media {}).id() != id);
    assert(ClientboundView::NodeDef(NodeDef {}).id() != id);
    assert(ClientboundView::AnnounceMedia(AnnounceMedia {}).id() != id);
    assert(ClientboundView::ItemDef(ItemDef {}).id() != id);
    assert(ClientboundView::PlaySound(PlaySound {}).id() != id);
    assert(ClientboundView::StopSound(StopSound {}).id() != id);
    assert(ClientboundView::Privileges(Privileges {}).id() != id);
    assert(ClientboundView::InventoryFormSpec(InventoryFormSpec {}).id() != id);
    assert(ClientboundView::DetachedInventory(DetachedInventory {}).id() != id);
    assert(ClientboundView::ShowFormspec(ShowFormspec {}).id() != id);
    assert(ClientboundView::Movement(Movement {}).id() != id);
    assert(ClientboundView::SpawnParticle(SpawnParticle {}).id() != id);
    assert(ClientboundView::AddParticleSpawner(AddParticleSpawner {}).id() != id);
    assert(ClientboundView::HudAdd(HudAdd {}).id() != id);
    assert(ClientboundView::HudRm(HudRm {}).id() != id);
    assert(ClientboundView::HudChange(HudChange {}).id() != id);
    assert(ClientboundView::Breath(Breath {}).id() != id);
    assert(ClientboundView::SetSky(SetSky {}).id() != id);
    assert(ClientboundView::OverrideDayNightRatio(OverrideDayNightRatio {}).id() != id);
    assert(ClientboundView::LocalPlayerAnimations(LocalPlayerAnimations {}).id() != id);
    assert(ClientboundView::EyeOffset(EyeOffset {}).id() != id);
    assert(ClientboundView::DeleteParticleSpawner(DeleteParticleSpawner {}).id() != id);
    assert(ClientboundView::CloudParams(CloudParams {}).id() != id);
    assert(ClientboundView::FadeSound(FadeSound {}).id() != id);
    assert(ClientboundView::UpdatePlayerList(UpdatePlayerList {}).id() != id);
    assert(ClientboundView::ModChannelMsg(ModChannelMsg {}).id() != id);
    assert(ClientboundView::ModChannelSignal(ModChannelSignal {}).id() != id);
    assert(ClientboundView::NodeMetaChanged(NodeMetaChanged {}).id() != id);
    assert(ClientboundView::SetSun(SetSun {}).id() != id);
    assert(ClientboundView::SetMoon(SetMoon {}).id() != id);
    assert(ClientboundView::SetStars(SetStars {}).id() != id);
    assert(ClientboundView::MovePlayerRel(MovePlayerRel {}).id() != id);
    assert(ClientboundView::SrpBytesSB(SrpBytesSB {}).id() != id);
    assert(ClientboundView::FormspecPrepend(FormspecPrepend {}).id() != id);
    assert(ClientboundView::MinimapModes(MinimapModes {}).id() != id);
    assert(ClientboundView::SetLighting(SetLighting {}).id() != id);
}

#[derive(Clone, Copy, Debug, PartialEq, Eq, Structural)]
pub struct AuthAccept {}

#[derive(Clone, Copy, Debug, PartialEq, Eq, Structural)]
pub struct AcceptSudoMode {}

#[derive(Clone, Copy, Debug, PartialEq, Eq, Structural)]
pub struct DenySudoMode {}

#[derive(Clone, Copy, Debug, PartialEq, Eq, Structural)]
pub struct AccessDenied {}

#[derive(Clone, Copy, Debug, PartialEq, Eq, Structural)]
pub struct BlockData {}

#[derive(Clone, Copy, Debug, PartialEq, Eq, Structural)]
pub struct AddNode {}

#[derive(Clone, Copy, Debug, PartialEq, Eq, Structural)]
pub struct RemoveNode {}

#[derive(Clone, Copy, Debug, PartialEq, Eq, Structural)]
pub struct Inventory {}

#[derive(Clone, Copy, Debug, PartialEq, Eq, Structural)]
pub struct TimeOfDay {}

#[derive(Clone, Copy, Debug, PartialEq, Eq, Structural)]
pub struct CsmRestrictionFlags {}

#[derive(Clone, Copy, Debug, PartialEq, Eq, Structural)]
pub struct PlayerSpeed {}

#[derive(Clone, Copy, Debug, PartialEq, Eq, Structural)]
pub struct MediaPush {}

#[derive(Clone, Copy, Debug, PartialEq, Eq, Structural)]
pub struct ChatMessage {}

#[derive(Clone, Copy, Debug, PartialEq, Eq, Structural)]
pub struct ActiveObjectRemoveAdd {}

#[derive(Clone, Copy, Debug, PartialEq, Eq, Structural)]
pub struct ActiveObjectMessages {}

#[derive(Clone, Copy, Debug, PartialEq, Eq, Structural)]
pub struct Hp {}

#[derive(Clone, Copy, Debug, PartialEq, Eq, Structural)]
pub struct MovePlayer {}

#[derive(Clone, Copy, Debug, PartialEq, Eq, Structural)]
pub struct AccessDeniedLegacy {}

#[derive(Clone, Copy, Debug, PartialEq, Eq, Structural)]
pub struct Fov {}

#[derive(Clone, Copy, Debug, PartialEq, Eq, Structural)]
pub struct DeathScreen {}

#[derive(Clone, Copy, Debug, PartialEq, Eq, Structural)]
pub struct Media {}

#[derive(Clone, Copy, Debug, PartialEq, Eq, Structural)]
pub struct NodeDef {}

#[derive(Clone, Copy, Debug, PartialEq, Eq, Structural)]
pub struct AnnounceMedia {}

#[derive(Clone, Copy, Debug, PartialEq, Eq, Structural)]
pub struct ItemDef {}

#[derive(Clone, Copy, Debug, PartialEq, Eq, Structural)]
pub struct PlaySound {}

#[derive(Clone, Copy, Debug, PartialEq, Eq, Structural)]
pub struct StopSound {}

#[derive(Clone, Copy, Debug, PartialEq, Eq, Structural)]
pub struct Privileges {}

#[derive(Clone, Copy, Debug, PartialEq, Eq, Structural)]
pub struct InventoryFormSpec {}

#[derive(Clone, Copy, Debug, PartialEq, Eq, Structural)]
pub struct DetachedInventory {}

#[derive(Clone, Copy, Debug, PartialEq, Eq, Structural)]
pub struct ShowFormspec {}

#[derive(Clone, Copy, Debug, PartialEq, Eq, Structural)]
pub struct Movement {}

#[derive(Clone, Copy, Debug, PartialEq, Eq, Structural)]
pub struct SpawnParticle {}

#[derive(Clone, Copy, Debug, PartialEq, Eq, Structural)]
pub struct AddParticleSpawner {}

#[derive(Clone, Copy, Debug, PartialEq, Eq, Structural)]
pub struct HudAdd {}

#[derive(Clone, Copy, Debug, PartialEq, Eq, Structural)]
pub struct HudRm {}

#[derive(Clone, Copy, Debug, PartialEq, Eq, Structural)]
pub struct HudChange {}

#[derive(Clone, Copy, Debug, PartialEq, Eq, Structural)]
pub struct Breath {}

#[derive(Clone, Copy, Debug, PartialEq, Eq, Structural)]
pub struct SetSky {}

#[derive(Clone, Copy, Debug, PartialEq, Eq, Structural)]
pub struct OverrideDayNightRatio {}

#[derive(Clone, Copy, Debug, PartialEq, Eq, Structural)]
pub struct LocalPlayerAnimations {}

#[derive(Clone, Copy, Debug, PartialEq, Eq, Structural)]
pub struct EyeOffset {}

#[derive(Clone, Copy, Debug, PartialEq, Eq, Structural)]
pub struct DeleteParticleSpawner {}

#[derive(Clone, Copy, Debug, PartialEq, Eq, Structural)]
pub struct CloudParams {}

#[derive(Clone, Copy, Debug, PartialEq, Eq, Structural)]
pub struct FadeSound {}

#[derive(Clone, Copy, Debug, PartialEq, Eq, Structural)]
pub struct UpdatePlayerList {}

#[derive(Clone, Copy, Debug, PartialEq, Eq, Structural)]
pub struct ModChannelMsg {}

#[derive(Clone, Copy, Debug, PartialEq, Eq, Structural)]
pub struct ModChannelSignal {}

#[derive(Clone, Copy, Debug, PartialEq, Eq, Structural)]
pub struct NodeMetaChanged {}

#[derive(Clone, Copy, Debug, PartialEq, Eq, Structural)]
pub struct SetSun {}

#[derive(Clone, Copy, Debug, PartialEq, Eq, Structural)]
pub struct SetMoon {}

#[derive(Clone, Copy, Debug, PartialEq, Eq, Structural)]
pub struct SetStars {}

#[derive(Clone, Copy, Debug, PartialEq, Eq, Structural)]
pub struct MovePlayerRel {}

#[derive(Clone, Copy, Debug, PartialEq, Eq, Structural)]
pub struct SrpBytesSB {}

#[derive(Clone, Copy, Debug, PartialEq, Eq, Structural)]
pub struct FormspecPrepend {}

#[derive(Clone, Copy, Debug, PartialEq, Eq, Structural)]
pub struct MinimapModes {}

#[derive(Clone, Copy, Debug, PartialEq, Eq, Structural)]
pub struct SetLighting {}

} // verus!
