use ring::rand::SystemRandom;
use ring::signature::{Ed25519KeyPair, KeyPair, UnparsedPublicKey, ED25519};
use siege_example_server::addr::{IpAddress, PeerAddr};
use siege_example_server::config::Config;
use siege_example_server::errors::ServerError;
use siege_example_server::network::{Ingress, NetworkSystem, HEARTBEAT_DELAY_MS};
use siege_example_server::packet::{Action, Framing, GamePacket};

const VERSION: u32 = 3;

fn fresh_pkcs8() -> Vec<u8> {
    let rng = SystemRandom::new();
    Ed25519KeyPair::generate_pkcs8(&rng).unwrap().as_ref().to_vec()
}

fn server(pkcs8: &Vec<u8>) -> NetworkSystem {
    NetworkSystem::new(&Config::default(), pkcs8, VERSION).unwrap()
}

fn client(n: u8) -> PeerAddr {
    PeerAddr::v4(10, 0, 0, n, 4000)
}

fn open_session(ns: &mut NetworkSystem, addr: PeerAddr) -> bool {
    match ns.handle_incoming_packet(addr, true) {
        Ingress::Session { created } => created,
        other => panic!("expected a session, got {:?}", other),
    }
}

#[test]
fn stale_version_gets_upgrade_required_and_no_session() {
    let mut ns = server(&fresh_pkcs8());
    let r = ns.handle_incoming_packet(client(1), false);
    assert_eq!(
        r,
        Ingress::Reply(Action::Enqueue {
            packet: GamePacket::UpgradeRequired { version: VERSION },
            addr: client(1),
            in_reply_to: None,
        })
    );
    assert_eq!(ns.session_count(), 0);
}

#[test]
fn stale_version_from_known_peer_leaves_table_alone() {
    let mut ns = server(&fresh_pkcs8());
    open_session(&mut ns, client(1));
    let r = ns.handle_incoming_packet(client(1), false);
    assert!(matches!(r, Ingress::Reply(Action::Enqueue { .. })));
    assert_eq!(ns.session_count(), 1);
}

#[test]
fn same_new_address_twice_makes_one_session() {
    let mut ns = server(&fresh_pkcs8());
    let first = ns.handle_incoming_packet(client(9), true);
    let second = ns.handle_incoming_packet(client(9), true);
    assert_eq!(first, Ingress::Session { created: true });
    assert_eq!(second, Ingress::Session { created: false });
    assert_eq!(ns.session_count(), 1);
}

#[test]
fn hundred_addresses_make_hundred_sessions() {
    let mut ns = server(&fresh_pkcs8());
    for n in 0..100u8 {
        assert!(open_session(&mut ns, client(n)));
    }
    assert_eq!(ns.session_count(), 100);
    for n in 0..100u8 {
        assert_eq!(ns.session(client(n)), Some(false));
        assert!(!open_session(&mut ns, client(n)));
    }
    assert_eq!(ns.session_count(), 100);
    assert_eq!(ns.session(client(200)), None);
}

#[test]
fn init_is_answered_with_signed_nonce_before_key_derivation() {
    let pkcs8 = fresh_pkcs8();
    let pair = Ed25519KeyPair::from_pkcs8(&pkcs8).unwrap();
    let mut ns = server(&pkcs8);
    open_session(&mut ns, client(2));
    let nonce: Vec<u8> = vec![1, 2, 3, 4, 5, 6, 7, 8];
    let public_key: Vec<u8> = vec![9; 32];
    let actions = ns.handle_packet(
        client(2),
        11,
        GamePacket::Init { nonce: nonce.clone(), public_key: public_key.clone() },
    )
    .unwrap();
    assert_eq!(actions.len(), 2);
    match &actions[0] {
        Action::SendNow { packet: GamePacket::InitAck { nonce_signature }, addr, reply_to } => {
            assert_eq!(*addr, client(2));
            assert_eq!(*reply_to, 11);
            assert_eq!(nonce_signature.len(), 64);
            assert_ne!(nonce_signature, &nonce);
            let verifier = UnparsedPublicKey::new(&ED25519, pair.public_key().as_ref());
            assert!(verifier.verify(&nonce, nonce_signature).is_ok());
        }
        other => panic!("expected an inline InitAck, got {:?}", other),
    }
    assert_eq!(actions[1], Action::DeriveKey { addr: client(2), public_key });
    assert_eq!(ns.session(client(2)), Some(false));
    ns.complete_handshake(client(2));
    assert_eq!(ns.session(client(2)), Some(true));
    ns.complete_handshake(client(3));
    assert_eq!(ns.session(client(3)), None);
}

#[test]
fn heartbeat_is_acknowledged_and_answered_later() {
    let mut ns = server(&fresh_pkcs8());
    open_session(&mut ns, client(3));
    let actions = ns.handle_packet(client(3), 7, GamePacket::Heartbeat).unwrap();
    assert_eq!(
        actions,
        vec![
            Action::Enqueue { packet: GamePacket::HeartbeatAck, addr: client(3), in_reply_to: Some(7) },
            Action::EnqueueLater {
                packet: GamePacket::Heartbeat,
                addr: client(3),
                in_reply_to: None,
                delay_ms: 10_000,
            },
        ]
    );
    assert_eq!(HEARTBEAT_DELAY_MS, 10_000);
}

#[test]
fn other_packets_are_ignored() {
    let ns = server(&fresh_pkcs8());
    let ignored = vec![
        GamePacket::InitAck { nonce_signature: vec![0; 64] },
        GamePacket::UpgradeRequired { version: 1 },
        GamePacket::HeartbeatAck,
        GamePacket::Shutdown,
        GamePacket::ShutdownComplete,
        GamePacket::Login,
        GamePacket::LoginSuccess,
        GamePacket::LoginFailure,
    ];
    for p in ignored {
        assert!(ns.handle_packet(client(4), 1, p).unwrap().is_empty());
    }
}

#[test]
fn outgoing_to_unknown_recipient_is_an_error() {
    let ns = server(&fresh_pkcs8());
    assert_eq!(ns.handle_outgoing_packet(client(5), None), Err(ServerError::UnknownRecipient));
    assert_eq!(ServerError::UnknownRecipient.message(), "Unknown Packet Recipient");
}

#[test]
fn outgoing_framing_follows_reply_sequence() {
    let mut ns = server(&fresh_pkcs8());
    open_session(&mut ns, client(5));
    open_session(&mut ns, client(6));
    assert_eq!(ns.handle_outgoing_packet(client(6), Some(42)), Ok(Framing::Reply { seq: 42 }));
    assert_eq!(ns.handle_outgoing_packet(client(6), None), Ok(Framing::Message));
}

#[test]
fn bad_key_document_is_rejected() {
    let r = NetworkSystem::new(&Config::default(), &vec![1, 2, 3], VERSION);
    assert!(matches!(r, Err(ServerError::KeyRejected)));
}

#[test]
fn ipv6_and_ipv4_peers_are_distinct() {
    let mut ns = server(&fresh_pkcs8());
    open_session(&mut ns, PeerAddr { ip: IpAddress::V4(1), port: 80 });
    open_session(&mut ns, PeerAddr { ip: IpAddress::V6(1), port: 80 });
    open_session(&mut ns, PeerAddr { ip: IpAddress::V4(1), port: 81 });
    assert_eq!(ns.session_count(), 3);
}

#[test]
fn init_from_address_without_session_is_an_error() {
    let ns = server(&fresh_pkcs8());
    let r = ns.handle_packet(client(8), 1, GamePacket::Init { nonce: vec![1; 8], public_key: vec![2; 32] });
    assert_eq!(r, Err(ServerError::UnknownSession));
    assert_eq!(ns.session_count(), 0);
    assert_eq!(ServerError::UnknownSession.message(), "Failed to get remote from CHashMap");
}

#[test]
fn heartbeat_from_address_without_session_is_answered() {
    let ns = server(&fresh_pkcs8());
    assert_eq!(ns.handle_packet(client(8), 2, GamePacket::Heartbeat).unwrap().len(), 2);
}

#[test]
fn valid_key_document_is_accepted() {
    let ns = NetworkSystem::new(&Config::default(), &fresh_pkcs8(), VERSION);
    assert!(ns.is_ok());
    assert_eq!(ns.unwrap().session_count(), 0);
}
