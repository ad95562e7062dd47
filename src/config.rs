use vstd::prelude::*;
use crate::addr::{IpAddress, PeerAddr};

verus! {

/// Port the server listens on unless configured otherwise.
pub const DEFAULT_PORT: u16 = 5555;

/// Number of expected clients unless configured otherwise.
pub const DEFAULT_NUM_EXPECTED_CLIENTS: usize = 4;

/// Outbound buffer sizing hint unless configured otherwise.
pub const DEFAULT_PACKET_MESSAGE_BUFFER_SIZE: usize = 64;

pub open spec fn default_key_path_spec() -> Seq<char> {
    "keys/pkcs8.der"@
}

pub open spec fn default_config_file_spec() -> Seq<char> {
    "./siege-example-server.toml"@
}

/// The key-pair file path used when none is configured.
pub fn default_pkcs8_key_path() -> (r: String)
    ensures
        r@ == default_key_path_spec(),
{
    "keys/pkcs8.der".to_owned()
}

/// The expected client count used when none is configured.
pub fn default_num_expected_clients() -> (r: usize)
    ensures
        r == DEFAULT_NUM_EXPECTED_CLIENTS,
{
    DEFAULT_NUM_EXPECTED_CLIENTS
}

/// The bind address used when none is configured: every IPv4 interface,
/// port 5555.
pub fn default_local_socket_addr() -> (r: PeerAddr)
    ensures
        r == (PeerAddr { ip: IpAddress::V4(0), port: DEFAULT_PORT }),
{
    PeerAddr { ip: IpAddress::V4(0), port: DEFAULT_PORT }
}

/// The outbound buffer sizing hint used when none is configured.
pub fn default_packet_message_buffer_size() -> (r: usize)
    ensures
        r == DEFAULT_PACKET_MESSAGE_BUFFER_SIZE,
{
    DEFAULT_PACKET_MESSAGE_BUFFER_SIZE
}

/// The server's configuration.
pub struct Config {
    /// Path of the PKCS#8 file holding the server's long-term key pair.
    pub pkcs8_key_path: String,
    /// Sizing hint for the session table.
    pub num_expected_clients: usize,
    /// The UDP address to bind.
    pub local_socket_addr: PeerAddr,
    /// Sizing hint for outbound buffers.
    pub packet_message_buffer_size: usize,
}

impl Clone for Config {
    fn clone(&self) -> (r: Config)
        ensures
            r.pkcs8_key_path@ == self.pkcs8_key_path@,
            r.num_expected_clients == self.num_expected_clients,
            r.local_socket_addr == self.local_socket_addr,
            r.packet_message_buffer_size == self.packet_message_buffer_size,
    {
        Config {
            pkcs8_key_path: self.pkcs8_key_path.clone(),
            num_expected_clients: self.num_expected_clients,
            local_socket_addr: self.local_socket_addr,
            packet_message_buffer_size: self.packet_message_buffer_size,
        }
    }
}

impl Default for Config {
    fn default() -> (r: Config)
        ensures
            r.pkcs8_key_path@ == default_key_path_spec(),
            r.num_expected_clients == DEFAULT_NUM_EXPECTED_CLIENTS,
            r.local_socket_addr == (PeerAddr { ip: IpAddress::V4(0), port: DEFAULT_PORT }),
            r.packet_message_buffer_size == DEFAULT_PACKET_MESSAGE_BUFFER_SIZE,
    {
        Config {
            pkcs8_key_path: default_pkcs8_key_path(),
            num_expected_clients: default_num_expected_clients(),
            local_socket_addr: default_local_socket_addr(),
            packet_message_buffer_size: default_packet_message_buffer_size(),
        }
    }
}

/// Where the configuration file is looked for: the first command-line
/// argument if there is one, else the value of the configuration-file
/// environment variable if it is set, else the default file name.
pub open spec fn config_path_spec(args: Seq<Seq<char>>, env_value: Option<Seq<char>>) -> Seq<char> {
    if args.len() >= 2 {
        args[1]
    } else if env_value is Some {
        env_value->Some_0
    } else {
        default_config_file_spec()
    }
}

pub open spec fn string_opt_view(o: Option<String>) -> Option<Seq<char>> {
    match o {
        Some(s) => Some(s@),
        None => None,
    }
}

impl Config {
    /// Chooses the configuration file path from the process arguments
    /// (program name first) and the configuration-file environment variable.
    pub fn get_path(args: &Vec<String>, env_value: Option<String>) -> (r: String)
        ensures
            r@ == config_path_spec(args@.map_values(|s: String| s@), string_opt_view(env_value)),
    {
        if args.len() >= 2 {
            return args[1].clone();
        }
        match env_value {
            Some(p) => p,
            None => "./siege-example-server.toml".to_owned(),
        }
    }
}

} // verus!
