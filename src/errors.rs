use vstd::prelude::*;

verus! {

/// Failures of the server's core.
#[derive(Clone, Copy, Debug, PartialEq, Eq, Structural)]
pub enum ServerError {
    /// The key-pair document is not a valid Ed25519 PKCS#8 key pair.
    KeyRejected,
    /// An outbound packet names an address that has no session.
    UnknownRecipient,
    /// A handshake comes from an address that has no session.
    UnknownSession,
}

impl ServerError {
    /// A human-readable description of the error.
    pub fn message(&self) -> (r: String)
        ensures
            *self == ServerError::KeyRejected ==> r@ == "Key pair rejected"@,
            *self == ServerError::UnknownRecipient ==> r@ == "Unknown Packet Recipient"@,
            *self == ServerError::UnknownSession ==> r@ == "Failed to get remote from CHashMap"@,
    {
        match self {
            ServerError::KeyRejected => "Key pair rejected".to_owned(),
            ServerError::UnknownRecipient => "Unknown Packet Recipient".to_owned(),
            ServerError::UnknownSession => "Failed to get remote from CHashMap".to_owned(),
        }
    }
}

} // verus!
