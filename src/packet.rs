use vstd::prelude::*;
use crate::addr::PeerAddr;

verus! {

/// The application packets that client and server exchange.
#[derive(Clone, Debug, PartialEq, Eq)]
pub enum GamePacket {
    /// Client opens a handshake: a nonce for the server to sign, and the
    /// client's ephemeral public key.
    Init { nonce: Vec<u8>, public_key: Vec<u8> },
    /// Server answers a handshake with its signature of the client's nonce.
    InitAck { nonce_signature: Vec<u8> },
    /// Server tells a client that speaks another protocol version which
    /// version it expects.
    UpgradeRequired { version: u32 },
    Heartbeat,
    HeartbeatAck,
    Shutdown,
    ShutdownComplete,
    Login,
    LoginSuccess,
    LoginFailure,
}

/// What the surrounding I/O must do, in the order given, to carry out a
/// decision of the server.
#[derive(Clone, Debug, PartialEq, Eq)]
pub enum Action {
    /// Frame `packet` as a reply to sequence number `reply_to` and send it
    /// on the socket at once, before the next action.
    SendNow { packet: GamePacket, addr: PeerAddr, reply_to: u32 },
    /// Derive and store the session key of the session of `addr` from the
    /// peer's public key.
    DeriveKey { addr: PeerAddr, public_key: Vec<u8> },
    /// Put `packet` on the outbound queue.
    Enqueue { packet: GamePacket, addr: PeerAddr, in_reply_to: Option<u32> },
    /// Put `packet` on the outbound queue once `delay_ms` milliseconds have
    /// passed.
    EnqueueLater { packet: GamePacket, addr: PeerAddr, in_reply_to: Option<u32>, delay_ms: u64 },
}

/// How an outbound packet is framed by its recipient's session.
#[derive(Clone, Copy, Debug, PartialEq, Eq, Structural)]
pub enum Framing {
    /// As a reply to sequence number `seq`.
    Reply { seq: u32 },
    /// As a fresh message.
    Message,
}

} // verus!
