//! The client's connection state machine: it consumes received datagrams one at
//! a time and hands out the datagrams to send, without doing any I/O itself.
use std::collections::VecDeque;
use vstd::prelude::*;

use crate::clientbound::{Clientbound, ClientboundView};
use crate::serialize::{be32, text_encodable, Cursor, Serialize};
use crate::serverbound::{Hello, Init, InitView, Serverbound, ServerboundView};
use crate::transport::{
    lemma_unknown_protocol_id, ControlHeader, Frame, FrameType, Reliability, PROTOCOL_ID,
};
use crate::{Error, ErrorView, TransportError};

verus! {

/// What the transport hands to the connection.
#[derive(Debug)]
pub enum Input<'a> {
    /// One datagram arrived.
    ReceivedData(&'a [u8]),
    /// No datagram arrived in the transport's waiting time.
    TimedOut,
}

/// What the connection asks the transport to do next.
#[derive(Debug)]
pub enum Output {
    /// Send these bytes as one datagram.
    SendData(Vec<u8>),
    /// End the session.
    Disconnect,
    /// Nothing to send: back off before polling again.
    Wait,
}

/// The mathematical value of an [`Output`].
pub enum OutputView {
    SendData(Seq<u8>),
    Disconnect,
    Wait,
}

impl View for Output {
    type V = OutputView;

    open spec fn view(&self) -> OutputView {
        match self {
            Output::SendData(b) => OutputView::SendData(b@),
            Output::Disconnect => OutputView::Disconnect,
            Output::Wait => OutputView::Wait,
        }
    }
}

/// The phases of a connection, in the order they are passed through;
/// `Disconnected` ends every one of them.
#[derive(Clone, Copy, Debug, PartialEq, Eq, Structural)]
pub enum Phase {
    SendHello,
    AwaitHello,
    SendAuth1,
    RecvAuth1,
    SendAuth2,
    RecvAuth2,
    ReceivingMedia,
    InGame,
    Disconnected,
}

impl Phase {
    /// Position of the phase in the handshake order.
    pub open spec fn rank(self) -> nat {
        match self {
            Phase::SendHello => 0,
            Phase::AwaitHello => 1,
            Phase::SendAuth1 => 2,
            Phase::RecvAuth1 => 3,
            Phase::SendAuth2 => 4,
            Phase::RecvAuth2 => 5,
            Phase::ReceivingMedia => 6,
            Phase::InGame => 7,
            Phase::Disconnected => 8,
        }
    }
}

/// The phase after moving forward to `target`: no move out of `Disconnected`,
/// and none backwards.
pub open spec fn advance(phase: Phase, target: Phase) -> Phase {
    if phase == Phase::Disconnected || phase.rank() >= target.rank() {
        phase
    } else {
        target
    }
}

/// Name and password of the player.
pub struct Credentials {
    pub name: String,
    pub password: String,
}

/// One connection attempt, from the client's side.
pub struct ClientConnectionState {
    phase: Phase,
    peer_id: u16,
    send_queue: VecDeque<Vec<u8>>,
    recv_packet_queue: VecDeque<Clientbound>,
    credentials: Credentials,
}

/// The mathematical value of a [`ClientConnectionState`].
pub struct ConnectionView {
    pub phase: Phase,
    /// Assigned by the server during the handshake; 0 until then.
    pub peer_id: u16,
    /// Datagrams waiting to be sent, oldest first.
    pub send_queue: Seq<Seq<u8>>,
    /// Packets received and not taken yet, oldest first.
    pub recv_queue: Seq<ClientboundView>,
    pub name: Seq<char>,
    pub password: Seq<char>,
}

impl View for ClientConnectionState {
    type V = ConnectionView;

    closed spec fn view(&self) -> ConnectionView {
        ConnectionView {
            phase: self.phase,
            peer_id: self.peer_id,
            send_queue: self.send_queue@.map_values(|b: Vec<u8>| b@),
            recv_queue: self.recv_packet_queue@.map_values(|p: Clientbound| p@),
            name: self.credentials.name@,
            password: self.credentials.password@,
        }
    }
}

/// The header of a datagram that carries one whole packet.
pub open spec fn original_frame(peer_id: u16) -> Frame {
    Frame { peer_id, channel: 0, reliability: Reliability::Unreliable, ty: FrameType::Original }
}

/// The datagram that acknowledges frame `seqnum` on `channel`.
pub open spec fn ack_frame(peer_id: u16, channel: u8, seqnum: u16) -> Frame {
    Frame {
        peer_id,
        channel,
        reliability: Reliability::Unreliable,
        ty: FrameType::Control(ControlHeader::Ack { seqnum }),
    }
}

/// The datagram that carries packet `p`.
pub open spec fn packet_datagram(peer_id: u16, p: ServerboundView) -> Seq<u8> {
    original_frame(peer_id).encoding() + p.encoding()
}

/// The Init packet that opens the handshake for player `name`.
pub open spec fn init_packet(name: Seq<char>) -> ServerboundView {
    ServerboundView::Init(
        InitView {
            client_max_serialization_ver: 255,
            supp_compr_modes: 0,
            min_net_proto_version: 0,
            max_net_proto_version: 100,
            player_name: name,
        },
    )
}

impl ConnectionView {
    /// The connection with datagram `d` queued last.
    pub open spec fn queue(self, d: Seq<u8>) -> ConnectionView {
        ConnectionView { send_queue: self.send_queue.push(d), ..self }
    }

    /// The connection after a frame with this header arrived: an acknowledgment
    /// is queued for a reliable frame.
    pub open spec fn acknowledge(self, f: Frame) -> ConnectionView {
        match f.reliability {
            Reliability::Reliable { seqnum } => self.queue(
                ack_frame(self.peer_id, f.channel, seqnum).encoding(),
            ),
            Reliability::Unreliable => self,
        }
    }

    /// The connection after control message `c`.
    pub open spec fn on_control(self, c: ControlHeader) -> ConnectionView {
        match c {
            ControlHeader::SetPeerId { peer_id } => if self.phase == Phase::SendHello {
                ConnectionView { peer_id, phase: Phase::AwaitHello, ..self }
            } else {
                self
            },
            ControlHeader::Disco => ConnectionView { phase: Phase::Disconnected, ..self },
            _ => self,
        }
    }

    /// The connection after packet `p` arrived: it is queued for the caller, and
    /// the server's Hello moves the handshake on to `SendAuth1`.
    pub open spec fn on_packet(self, p: ClientboundView) -> ConnectionView {
        ConnectionView {
            phase: if p is Hello {
                advance(self.phase, Phase::SendAuth1)
            } else {
                self.phase
            },
            recv_queue: self.recv_queue.push(p),
            ..self
        }
    }

    /// The connection after datagram `data` arrived, or why it was refused; a
    /// refused datagram changes nothing.
    pub open spec fn on_datagram(self, data: Seq<u8>) -> Result<ConnectionView, ErrorView> {
        match Frame::decoding(data) {
            Err(e) => Err(e),
            Ok((f, n)) => match f.ty {
                FrameType::Control(c) => Ok(self.acknowledge(f).on_control(c)),
                FrameType::Original => match Clientbound::decoding(data.skip(n)) {
                    Err(e) => Err(e),
                    Ok((p, _)) => Ok(self.acknowledge(f).on_packet(p)),
                },
                FrameType::Split(_) => Ok(self.acknowledge(f)),
            },
        }
    }

    /// The send queue once the current phase has queued its handshake packet.
    pub open spec fn queue_for_phase(self) -> Seq<Seq<u8>> {
        match self.phase {
            Phase::SendHello => self.send_queue.push(
                packet_datagram(self.peer_id, ServerboundView::Hello(Hello {})),
            ),
            Phase::AwaitHello => self.send_queue.push(
                packet_datagram(self.peer_id, init_packet(self.name)),
            ),
            _ => self.send_queue,
        }
    }

    /// The connection after a poll, and what the poll returns.
    pub open spec fn poll(self) -> (ConnectionView, OutputView) {
        let q = self.queue_for_phase();
        if self.phase == Phase::Disconnected {
            (self, OutputView::Disconnect)
        } else if q.len() > 0 {
            (ConnectionView { send_queue: q.drop_first(), ..self }, OutputView::SendData(q[0]))
        } else {
            (ConnectionView { send_queue: q, ..self }, OutputView::Wait)
        }
    }
}

impl ClientConnectionState {
    /// A fresh connection: no peer id yet, nothing queued.
    pub fn new(credentials: Credentials) -> (r: Self)
        ensures
            r@ == (ConnectionView {
                phase: Phase::SendHello,
                peer_id: 0,
                send_queue: Seq::empty(),
                recv_queue: Seq::empty(),
                name: credentials.name@,
                password: credentials.password@,
            }),
    {
        let r = ClientConnectionState {
            phase: Phase::SendHello,
            peer_id: 0,
            send_queue: VecDeque::new(),
            recv_packet_queue: VecDeque::new(),
            credentials,
        };
        assert(r@.send_queue =~= Seq::<Seq<u8>>::empty());
        assert(r@.recv_queue =~= Seq::<ClientboundView>::empty());
        r
    }

    /// Current phase of the handshake.
    pub fn phase(&self) -> (r: Phase)
        ensures
            r == self@.phase,
    {
        self.phase
    }

    /// The peer id the server assigned, 0 before that.
    pub fn peer_id(&self) -> (r: u16)
        ensures
            r == self@.peer_id,
    {
        self.peer_id
    }

    /// Consumes one input. A datagram that cannot be decoded is refused with
    /// the decoding error and changes nothing.
    pub fn submit_input(&mut self, input: Input) -> (res: Result<(), Error>)
        ensures
            match input {
                Input::TimedOut => res is Ok && final(self)@ == old(self)@,
                Input::ReceivedData(data) => match old(self)@.on_datagram(data@) {
                    Ok(v) => res is Ok && final(self)@ == v,
                    Err(e) => res is Err && res->Err_0@ == e && final(self)@ == old(self)@,
                },
            },
    {
        match input {
            Input::ReceivedData(data) => self.handle_frame(data),
            Input::TimedOut => Ok(()),
        }
    }

    fn handle_frame(&mut self, data: &[u8]) -> (res: Result<(), Error>)
        ensures
            match old(self)@.on_datagram(data@) {
                Ok(v) => res is Ok && final(self)@ == v,
                Err(e) => res is Err && res->Err_0@ == e && final(self)@ == old(self)@,
            },
    {
        let mut r = Cursor::new(data);
        let frame = Frame::deserialize(&mut r)?;
        match frame.ty {
            FrameType::Control(control) => {
                self.acknowledge(&frame);
                match control {
                    ControlHeader::SetPeerId { peer_id } => {
                        if self.phase == Phase::SendHello {
                            self.peer_id = peer_id;
                            self.phase = Phase::AwaitHello;
                        }
                    },
                    ControlHeader::Disco => {
                        self.phase = Phase::Disconnected;
                    },
                    // Neither an acknowledgment nor a ping asks for anything here.
                    ControlHeader::Ack { .. } | ControlHeader::Ping => {},
                }
            },
            FrameType::Original => {
                // The packet is decoded before anything changes, so that a
                // refused datagram is not acknowledged either.
                let packet = Clientbound::deserialize(&mut r)?;
                self.acknowledge(&frame);
                if let Clientbound::Hello(_) = packet {
                    // Only a handshake that has not got this far moves on.
                    if self.phase == Phase::SendHello || self.phase == Phase::AwaitHello {
                        self.phase = Phase::SendAuth1;
                    }
                }
                self.recv_packet_queue.push_back(packet);
                proof {
                    assert(self@.recv_queue =~= old(self)@.acknowledge(frame).recv_queue.push(
                        packet@,
                    ));
                }
            },
            // Fragments are not reassembled.
            FrameType::Split(_) => {
                self.acknowledge(&frame);
            },
        }
        Ok(())
    }

    /// Queues the acknowledgment that a reliable frame asks for.
    fn acknowledge(&mut self, frame: &Frame)
        ensures
            final(self)@ == old(self)@.acknowledge(*frame),
    {
        if let Reliability::Reliable { seqnum } = frame.reliability {
            self.send_ack(frame.channel, seqnum);
        }
    }

    fn send_ack(&mut self, channel: u8, seqnum: u16)
        ensures
            final(self)@ == old(self)@.queue(
                ack_frame(old(self)@.peer_id, channel, seqnum).encoding(),
            ),
    {
        let mut data: Vec<u8> = Vec::new();
        let frame = Frame {
            peer_id: self.peer_id,
            channel,
            reliability: Reliability::Unreliable,
            ty: FrameType::Control(ControlHeader::Ack { seqnum }),
        };
        frame.serialize(&mut data);
        self.send_raw(data);
    }

    /// Queues a datagram that carries `payload` whole.
    fn send_original<P: Serialize>(&mut self, payload: &P)
        requires
            payload.encodable(),
        ensures
            final(self)@ == old(self)@.queue(
                original_frame(old(self)@.peer_id).encoding() + payload.encoding(),
            ),
    {
        let mut buf: Vec<u8> = Vec::new();
        let frame = Frame {
            peer_id: self.peer_id,
            channel: 0,
            reliability: Reliability::Unreliable,
            ty: FrameType::Original,
        };
        frame.serialize(&mut buf);
        payload.serialize(&mut buf);
        self.send_raw(buf);
    }

    fn send_raw(&mut self, data: Vec<u8>)
        ensures
            final(self)@ == old(self)@.queue(data@),
    {
        self.send_queue.push_back(data);
        proof {
            assert(self@.send_queue =~= old(self)@.send_queue.push(data@));
        }
    }

    /// Asks for the next thing to do: in `SendHello` and `AwaitHello` the
    /// handshake packet of the phase is queued first; a disconnected connection
    /// always answers `Disconnect`; otherwise the oldest queued datagram is
    /// handed out, or `Wait` when there is none. The player name must fit the
    /// length prefix of the Init packet.
    pub fn poll_output(&mut self) -> (out: Output)
        requires
            text_encodable(old(self)@.name),
        ensures
            (final(self)@, out@) == old(self)@.poll(),
    {
        match self.phase {
            Phase::SendHello => {
                self.send_original(&Serverbound::Hello(Hello {}));
            },
            Phase::AwaitHello => {
                let init = Serverbound::Init(
                    Init {
                        client_max_serialization_ver: 255,
                        supp_compr_modes: 0,
                        min_net_proto_version: 0,
                        max_net_proto_version: 100,
                        player_name: self.credentials.name.clone(),
                    },
                );
                self.send_original(&init);
            },
            Phase::Disconnected => {
                return Output::Disconnect;
            },
            _ => {},
        }
        let ghost queued = self@.send_queue;
        match self.send_queue.pop_front() {
            Some(buf) => {
                proof {
                    assert(self@.send_queue =~= queued.drop_first());
                }
                Output::SendData(buf)
            },
            None => Output::Wait,
        }
    }

    /// Queues `packet` to be sent whole on channel 0.
    pub fn send_packet<P: Serialize>(&mut self, packet: P)
        requires
            packet.encodable(),
        ensures
            final(self)@ == old(self)@.queue(
                original_frame(old(self)@.peer_id).encoding() + packet.encoding(),
            ),
    {
        self.send_original(&packet);
    }

    /// Takes every packet received so far, oldest first.
    pub fn recv_packets(&mut self) -> (r: Vec<Clientbound>)
        ensures
            r@.map_values(|p: Clientbound| p@) == old(self)@.recv_queue,
            final(self)@ == (ConnectionView { recv_queue: Seq::empty(), ..old(self)@ }),
    {
        let mut out: Vec<Clientbound> = Vec::new();
        let ghost all = self@.recv_queue;
        while self.recv_packet_queue.len() > 0
            invariant
                out@.map_values(|p: Clientbound| p@) + self@.recv_queue == all,
                self@ == (ConnectionView { recv_queue: self@.recv_queue, ..old(self)@ }),
            decreases self.recv_packet_queue@.len(),
        {
            let ghost before = self@.recv_queue;
            match self.recv_packet_queue.pop_front() {
                Some(p) => {
                    out.push(p);
                    proof {
                        assert(self@.recv_queue =~= before.drop_first());
                        assert(out@.map_values(|p: Clientbound| p@) + self@.recv_queue =~= all);
                    }
                },
                None => {},
            }
        }
        proof {
            assert(self@.recv_queue =~= Seq::<ClientboundView>::empty());
            assert(out@.map_values(|p: Clientbound| p@) =~= all);
        }
        out
    }
}

/// A datagram that does not open with the protocol id is refused, and so leaves
/// the connection as it was.
pub proof fn lemma_unknown_protocol_id_refused(s: ConnectionView, data: Seq<u8>)
    requires
        data.len() >= 4,
        data.take(4) != be32(PROTOCOL_ID),
    ensures
        s.on_datagram(data) == Err::<ConnectionView, ErrorView>(
            ErrorView::Transport(
                TransportError::UnknownProtocolId(crate::serialize::from_be32(data)),
            ),
        ),
{
    lemma_unknown_protocol_id(data);
}

/// The phase only moves forward, except into `Disconnected`, which it never
/// leaves; polling does not move it.
pub proof fn lemma_phase_never_regresses(s: ConnectionView, data: Seq<u8>)
    ensures
        s.on_datagram(data) matches Ok(t) ==> {
            &&& s.phase == Phase::Disconnected ==> t.phase == Phase::Disconnected
            &&& t.phase == Phase::Disconnected || t.phase.rank() >= s.phase.rank()
        },
        s.poll().0.phase == s.phase,
{
}

/// A Disco frame disconnects in every phase, and a disconnected connection
/// answers every poll with `Disconnect`, whatever is queued.
pub proof fn lemma_disco_disconnects(s: ConnectionView, f: Frame, rest: Seq<u8>)
    requires
        f.ty == FrameType::Control(ControlHeader::Disco),
    ensures
        s.on_datagram(f.encoding() + rest) matches Ok(t) && t.phase == Phase::Disconnected
            && t.poll() == (t, OutputView::Disconnect),
{
    f.lemma_round_trip(rest);
}

/// A peer id assigned while the client sends its hello is recorded and moves the
/// handshake to `AwaitHello`; with nothing else queued, the next poll sends the
/// Init packet for the player, addressed with the new peer id.
pub proof fn lemma_set_peer_id(s: ConnectionView, f: Frame, peer_id: u16, rest: Seq<u8>)
    requires
        s.phase == Phase::SendHello,
        s.send_queue.len() == 0,
        f.reliability == Reliability::Unreliable,
        f.ty == FrameType::Control(ControlHeader::SetPeerId { peer_id }),
    ensures
        s.on_datagram(f.encoding() + rest) matches Ok(t) && t.phase == Phase::AwaitHello
            && t.peer_id == peer_id && t.poll().1 == OutputView::SendData(
            packet_datagram(peer_id, init_packet(s.name)),
        ),
{
    f.lemma_round_trip(rest);
}

/// The server's Hello, received while awaiting it, moves the handshake to
/// `SendAuth1` and is queued for the caller.
pub proof fn lemma_server_hello(s: ConnectionView, f: Frame, p: Clientbound, rest: Seq<u8>)
    requires
        s.phase == Phase::AwaitHello,
        f.ty == FrameType::Original,
        p is Hello,
        p.encodable(),
    ensures
        s.on_datagram(f.encoding() + p.encoding() + rest) matches Ok(t) && t.phase
            == Phase::SendAuth1 && t.recv_queue == s.recv_queue.push(p@),
{
    let d = f.encoding() + p.encoding() + rest;
    f.lemma_round_trip(p.encoding() + rest);
    assert(d =~= f.encoding() + (p.encoding() + rest));
    assert(d.skip(f.encoding().len() as int) =~= p.encoding() + rest);
    p.lemma_round_trip(rest);
}

/// A reliable frame is acknowledged first: with nothing else queued, the next
/// poll of a connected client sends the acknowledgment, before any handshake
/// packet.
pub proof fn lemma_reliable_acknowledged_first(
    s: ConnectionView,
    f: Frame,
    seqnum: u16,
    rest: Seq<u8>,
)
    requires
        s.phase != Phase::Disconnected,
        s.send_queue.len() == 0,
        f.reliability == (Reliability::Reliable { seqnum }),
        f.ty != FrameType::Control(ControlHeader::Disco),
        s.on_datagram(f.encoding() + rest) is Ok,
    ensures
        s.on_datagram(f.encoding() + rest) matches Ok(t) && t.poll().1 == OutputView::SendData(
            ack_frame(s.peer_id, f.channel, seqnum).encoding(),
        ),
{
    f.lemma_round_trip(rest);
}

} // verus!
