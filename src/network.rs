use vstd::prelude::*;
use crate::addr::PeerAddr;
use crate::config::Config;
use crate::errors::ServerError;
use crate::key::{ed25519_pkcs8_accepted, ed25519_signature, ServerKey};
use crate::packet::{Action, Framing, GamePacket};
use crate::registry::{after_get_or_create, no_sessions, SessionRegistry};

verus! {

/// Delay, in milliseconds, after which a heartbeat answers a heartbeat.
pub const HEARTBEAT_DELAY_MS: u64 = 10_000;

/// Where an inbound datagram goes after its header has been checked.
#[derive(Clone, Debug, PartialEq, Eq)]
pub enum Ingress {
    /// The header is stale or foreign: carry out this reply and drop the
    /// datagram.
    Reply(Action),
    /// The datagram belongs to the sender's session, which was made for it
    /// if `created`.
    Session { created: bool },
}

/// The reply to a datagram whose magic or version does not match.
pub open spec fn upgrade_reply(version: u32, addr: PeerAddr) -> Action {
    Action::Enqueue { packet: GamePacket::UpgradeRequired { version }, addr, in_reply_to: None }
}

/// `a` sends, at once, an InitAck carrying `sig` to `addr` as a reply to
/// `in_seq`.
pub open spec fn is_init_ack_send(a: Action, addr: PeerAddr, in_seq: u32, sig: Seq<u8>) -> bool {
    match a {
        Action::SendNow { packet: GamePacket::InitAck { nonce_signature }, addr: to, reply_to } =>
            to == addr && reply_to == in_seq && nonce_signature@ == sig,
        _ => false,
    }
}

/// `a` derives the session key of `addr` from `public_key`.
pub open spec fn is_key_derivation(a: Action, addr: PeerAddr, public_key: Seq<u8>) -> bool {
    match a {
        Action::DeriveKey { addr: to, public_key: k } => to == addr && k@ == public_key,
        _ => false,
    }
}

/// The answer to a heartbeat: an acknowledgement now, and a heartbeat of
/// the server's own after the heartbeat delay.
pub open spec fn heartbeat_actions(addr: PeerAddr, in_seq: u32) -> Seq<Action> {
    seq![
        Action::Enqueue { packet: GamePacket::HeartbeatAck, addr, in_reply_to: Some(in_seq) },
        Action::EnqueueLater {
            packet: GamePacket::Heartbeat,
            addr,
            in_reply_to: None,
            delay_ms: HEARTBEAT_DELAY_MS,
        },
    ]
}

/// How a packet is framed: as a reply where it answers a sequence number.
pub open spec fn framing_for(in_reply_to: Option<u32>) -> Framing {
    match in_reply_to {
        Some(seq) => Framing::Reply { seq },
        None => Framing::Message,
    }
}

/// `acts` is the answer to `packet`, with sequence number `in_seq` from
/// `addr`, of a server whose key document is `key`: for an Init, the InitAck
/// with the signed nonce sent at once and then the key derivation; for a
/// Heartbeat, `heartbeat_actions`; for anything else, nothing.
pub open spec fn packet_actions(key: Seq<u8>, addr: PeerAddr, in_seq: u32, packet: GamePacket, acts: Seq<Action>) -> bool {
    match packet {
        GamePacket::Init { nonce, public_key } => acts.len() == 2
            && is_init_ack_send(acts[0], addr, in_seq, ed25519_signature(key, nonce@))
            && is_key_derivation(acts[1], addr, public_key@),
        GamePacket::Heartbeat => acts == heartbeat_actions(addr, in_seq),
        _ => acts.len() == 0,
    }
}

/// The handshake's ordering: the answer to an Init derives a key exactly
/// once, and before that derivation stands exactly one action, which sends
/// the InitAck, carrying the signature of the client's nonce, on the socket
/// at once as a reply to the Init. No action before the InitAck is sent
/// touches the session key.
pub proof fn lemma_init_ack_sent_before_key_derived(
    key: Seq<u8>,
    addr: PeerAddr,
    in_seq: u32,
    packet: GamePacket,
    acts: Seq<Action>,
)
    requires
        packet is Init,
        packet_actions(key, addr, in_seq, packet, acts),
    ensures
        acts.len() == 2,
        acts[0] is SendNow,
        is_init_ack_send(acts[0], addr, in_seq, ed25519_signature(key, packet->Init_nonce@)),
        is_key_derivation(acts[1], addr, packet->Init_public_key@),
        forall|i: int| 0 <= i < acts.len() && #[trigger] acts[i] is DeriveKey ==> i == 1,
{
}

/// The heartbeat chain: one heartbeat from `addr` is answered by exactly one
/// acknowledgement, queued at once as a reply to it, and exactly one bare
/// heartbeat to the same address, queued no earlier than the heartbeat
/// delay later; nothing else is done.
pub proof fn lemma_heartbeat_chain(key: Seq<u8>, addr: PeerAddr, in_seq: u32, acts: Seq<Action>)
    requires
        packet_actions(key, addr, in_seq, GamePacket::Heartbeat, acts),
    ensures
        acts.len() == 2,
        acts[0] == (Action::Enqueue { packet: GamePacket::HeartbeatAck, addr, in_reply_to: Some(in_seq) }),
        acts[1] matches Action::EnqueueLater { packet: GamePacket::Heartbeat, addr: to, in_reply_to: None, delay_ms }
            && to == addr && delay_ms >= HEARTBEAT_DELAY_MS,
        forall|i: int| 0 <= i < acts.len() && #[trigger] acts[i] is SendNow ==> false,
        forall|i: int| 0 <= i < acts.len() && #[trigger] acts[i] is DeriveKey ==> false,
{
}

/// The server's core: its protocol version, its signing key and the
/// session table.
pub struct NetworkSystem {
    version: u32,
    registry: SessionRegistry,
    key: ServerKey,
}

impl NetworkSystem {
    pub closed spec fn wf(&self) -> bool {
        self.registry.wf()
    }

    /// The session table: for each peer address seen, whether its session
    /// key has been derived.
    pub closed spec fn sessions(&self) -> Map<PeerAddr, bool> {
        self.registry@
    }

    /// The protocol version that datagrams must carry.
    pub closed spec fn protocol_version(&self) -> u32 {
        self.version
    }

    /// The PKCS#8 document of the server's signing key.
    pub closed spec fn key_document(&self) -> Seq<u8> {
        self.key.document()
    }

    /// A server with no sessions, which signs with the key pair of the
    /// PKCS#8 document `pkcs8` and expects protocol version `version`.
    pub fn new(config: &Config, pkcs8: &Vec<u8>, version: u32) -> (r: Result<NetworkSystem, ServerError>)
        ensures
            r is Ok <==> ed25519_pkcs8_accepted(pkcs8@),
            r matches Ok(ns) ==> ns.wf() && ns.sessions() == no_sessions()
                && ns.protocol_version() == version && ns.key_document() == pkcs8@,
            r matches Err(e) ==> e == ServerError::KeyRejected,
    {
        match ServerKey::from_pkcs8(pkcs8) {
            Some(key) => Ok(NetworkSystem {
                version,
                registry: SessionRegistry::with_capacity(config.num_expected_clients),
                key,
            }),
            None => Err(ServerError::KeyRejected),
        }
    }

    /// The number of sessions.
    pub fn session_count(&self) -> (r: usize)
        ensures
            r == self.sessions().len(),
    {
        self.registry.len()
    }

    /// Whether the session key of `addr` has been derived, if `addr` has a
    /// session.
    pub fn session(&self, addr: PeerAddr) -> (r: Option<bool>)
        ensures
            r == (if self.sessions().contains_key(addr) { Some(self.sessions()[addr]) } else { None }),
    {
        self.registry.lookup(addr)
    }

    /// First step for a datagram from `addr`; `header_valid` tells whether
    /// its magic and version match the server's. A mismatch is answered with
    /// UpgradeRequired and leaves the session table alone; otherwise the
    /// sender's session is found, or made if the sender is new.
    pub fn handle_incoming_packet(&mut self, addr: PeerAddr, header_valid: bool) -> (r: Ingress)
        requires
            old(self).wf(),
        ensures
            final(self).wf(),
            final(self).protocol_version() == old(self).protocol_version(),
            final(self).key_document() == old(self).key_document(),
            !header_valid ==> final(self).sessions() == old(self).sessions()
                && r == Ingress::Reply(upgrade_reply(old(self).protocol_version(), addr)),
            header_valid ==> final(self).sessions() == after_get_or_create(old(self).sessions(), addr)
                && r == (Ingress::Session { created: !old(self).sessions().contains_key(addr) }),
    {
        if !header_valid {
            return Ingress::Reply(Action::Enqueue {
                packet: GamePacket::UpgradeRequired { version: self.version },
                addr,
                in_reply_to: None,
            });
        }
        let created = self.registry.get_or_create(addr);
        Ingress::Session { created }
    }

    /// What to do with a decoded packet with sequence number `in_seq` from
    /// the peer at `addr`. An Init is answered by sending the InitAck at
    /// once, and only then deriving the session key; an Init from an address
    /// without a session is an error. A Heartbeat is answered by an
    /// acknowledgement now and a heartbeat later; every other packet is
    /// ignored.
    pub fn handle_packet(&self, addr: PeerAddr, in_seq: u32, packet: GamePacket) -> (r: Result<Vec<Action>, ServerError>)
        requires
            self.wf(),
        ensures
            r is Err <==> (packet is Init && !self.sessions().contains_key(addr)),
            r matches Err(e) ==> e == ServerError::UnknownSession,
            r matches Ok(acts) ==> packet_actions(self.key_document(), addr, in_seq, packet, acts@),
    {
        match packet {
            GamePacket::Init { nonce, public_key } => {
                if self.registry.lookup(addr).is_none() {
                    return Err(ServerError::UnknownSession);
                }
                Ok(self.handle_init(addr, in_seq, nonce, public_key))
            },
            GamePacket::Heartbeat => Ok(self.handle_heartbeat(addr, in_seq)),
            // Acknowledgements and session management need nothing from the
            // server.
            GamePacket::HeartbeatAck | GamePacket::Shutdown | GamePacket::ShutdownComplete
            | GamePacket::Login => Ok(Vec::new()),
            // Only the server sends these; from a client they are ignored.
            GamePacket::InitAck { .. } | GamePacket::UpgradeRequired { .. } | GamePacket::LoginSuccess
            | GamePacket::LoginFailure => Ok(Vec::new()),
        }
    }

    /// The handshake: the InitAck carries the signature of the client's
    /// nonce and goes out on the socket before the session key is derived,
    /// so that it is framed while the session key is still unset.
    fn handle_init(&self, addr: PeerAddr, in_seq: u32, nonce: Vec<u8>, public_key: Vec<u8>) -> (r: Vec<Action>)
        ensures
            r@.len() == 2,
            is_init_ack_send(r@[0], addr, in_seq, ed25519_signature(self.key_document(), nonce@)),
            is_key_derivation(r@[1], addr, public_key@),
    {
        let nonce_signature = self.key.sign(&nonce);
        let mut r: Vec<Action> = Vec::new();
        r.push(Action::SendNow { packet: GamePacket::InitAck { nonce_signature }, addr, reply_to: in_seq });
        r.push(Action::DeriveKey { addr, public_key });
        r
    }

    /// A heartbeat is acknowledged at once, and answered by a heartbeat of
    /// the server's own after the heartbeat delay, which keeps the chain
    /// going while the peer responds.
    fn handle_heartbeat(&self, addr: PeerAddr, in_seq: u32) -> (r: Vec<Action>)
        ensures
            r@ == heartbeat_actions(addr, in_seq),
    {
        let mut r: Vec<Action> = Vec::new();
        r.push(Action::Enqueue { packet: GamePacket::HeartbeatAck, addr, in_reply_to: Some(in_seq) });
        r.push(Action::EnqueueLater {
            packet: GamePacket::Heartbeat,
            addr,
            in_reply_to: None,
            delay_ms: HEARTBEAT_DELAY_MS,
        });
        r
    }

    /// Records that the session key of `addr` has been derived, once the
    /// InitAck for it has been sent; a no-op for an address without a
    /// session.
    pub fn complete_handshake(&mut self, addr: PeerAddr)
        requires
            old(self).wf(),
        ensures
            final(self).wf(),
            final(self).protocol_version() == old(self).protocol_version(),
            final(self).key_document() == old(self).key_document(),
            final(self).sessions() == (if old(self).sessions().contains_key(addr) {
                old(self).sessions().insert(addr, true)
            } else {
                old(self).sessions()
            }),
    {
        self.registry.mark_key_derived(addr);
    }

    /// How an outbound packet for `addr` is framed: by the recipient's
    /// session, as a reply where `in_reply_to` gives a sequence number. A
    /// recipient without a session is an error.
    pub fn handle_outgoing_packet(&self, addr: PeerAddr, in_reply_to: Option<u32>) -> (r: Result<Framing, ServerError>)
        ensures
            !self.sessions().contains_key(addr) ==> r == Err::<Framing, ServerError>(ServerError::UnknownRecipient),
            self.sessions().contains_key(addr) ==> r == Ok::<Framing, ServerError>(framing_for(in_reply_to)),
    {
        match self.registry.lookup(addr) {
            None => Err(ServerError::UnknownRecipient),
            Some(_) => match in_reply_to {
                Some(seq) => Ok(Framing::Reply { seq }),
                None => Ok(Framing::Message),
            },
        }
    }
}

} // verus!
