use siege_example_server::addr::{IpAddress, PeerAddr};
use siege_example_server::config::{
    default_local_socket_addr, default_num_expected_clients, default_packet_message_buffer_size,
    default_pkcs8_key_path, Config,
};
use siege_example_server::dispatch::{
    inbound_step, outbound_step, source_of_token, RecvOutcome, Source, Step,
};

#[test]
fn defaults() {
    assert_eq!(default_pkcs8_key_path(), "keys/pkcs8.der");
    assert_eq!(default_num_expected_clients(), 4);
    assert_eq!(default_packet_message_buffer_size(), 64);
    assert_eq!(default_local_socket_addr(), PeerAddr { ip: IpAddress::V4(0), port: 5555 });
    let c = Config::default();
    assert_eq!(c.pkcs8_key_path, "keys/pkcs8.der");
    assert_eq!(c.num_expected_clients, 4);
    assert_eq!(c.packet_message_buffer_size, 64);
    assert_eq!(c.local_socket_addr.port, 5555);
}

#[test]
fn v4_address_octets() {
    assert_eq!(PeerAddr::v4(192, 168, 1, 2, 80).ip, IpAddress::V4(0xC0A8_0102));
}

#[test]
fn config_path_prefers_argument_then_environment() {
    let args = vec!["server".to_string(), "my.toml".to_string()];
    assert_eq!(Config::get_path(&args, Some("env.toml".to_string())), "my.toml");
    let args = vec!["server".to_string()];
    assert_eq!(Config::get_path(&args, Some("env.toml".to_string())), "env.toml");
    assert_eq!(Config::get_path(&args, None), "./siege-example-server.toml");
    assert_eq!(Config::get_path(&vec![], None), "./siege-example-server.toml");
}

#[test]
fn tokens_map_to_sources() {
    assert_eq!(source_of_token(0), Some(Source::Inbound));
    assert_eq!(source_of_token(1), Some(Source::Outbound));
    assert_eq!(source_of_token(2), None);
}

#[test]
fn drain_runs_until_socket_and_queue_are_empty() {
    let socket = [RecvOutcome::Datagram, RecvOutcome::Datagram, RecvOutcome::Datagram, RecvOutcome::WouldBlock];
    let mut handled = 0;
    let mut end = Step::Handle;
    for o in socket.iter() {
        end = inbound_step(*o);
        if end != Step::Handle {
            break;
        }
        handled += 1;
    }
    assert_eq!(handled, 3);
    assert_eq!(end, Step::Drained);
    assert_eq!(inbound_step(RecvOutcome::Failed), Step::Fatal);
    assert_eq!(outbound_step(true), Step::Handle);
    assert_eq!(outbound_step(false), Step::Drained);
}
