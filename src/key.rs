use vstd::prelude::*;

verus! {

#[verifier::external_type_specification]
#[verifier::external_body]
pub struct ExEd25519KeyPair(ring::signature::Ed25519KeyPair);

#[verifier::external_type_specification]
#[verifier::external_body]
pub struct ExKeyRejected(ring::error::KeyRejected);

/// The Ed25519 signature of `msg` under the key pair that the PKCS#8 document
/// `pkcs8` holds. Ed25519 signing is deterministic, so the signature depends
/// on these two byte strings alone.
pub uninterp spec fn ed25519_signature(pkcs8: Seq<u8>, msg: Seq<u8>) -> Seq<u8>;

/// Whether ring accepts `pkcs8` as an unencrypted PKCS#8 v2 Ed25519 key
/// pair; this depends on the bytes of the document alone.
pub uninterp spec fn ed25519_pkcs8_accepted(pkcs8: Seq<u8>) -> bool;

/// Length in bytes of an Ed25519 signature.
pub const SIGNATURE_LEN: usize = 64;

/// Relies on ring's `Ed25519KeyPair::from_pkcs8`: parses an unencrypted
/// PKCS#8 v2 Ed25519 key pair, or rejects the document.
#[verifier::external_body]
fn parse_pkcs8(pkcs8: &Vec<u8>) -> (r: Result<ring::signature::Ed25519KeyPair, ring::error::KeyRejected>)
    ensures
        r is Ok <==> ed25519_pkcs8_accepted(pkcs8@),
{
    ring::signature::Ed25519KeyPair::from_pkcs8(pkcs8.as_slice())
}

/// The server's long-term signing key pair, with the PKCS#8 document it was
/// read from.
pub struct ServerKey {
    pkcs8: Vec<u8>,
    pair: ring::signature::Ed25519KeyPair,
}

impl ServerKey {
    /// The PKCS#8 document the key pair was read from.
    pub closed spec fn document(&self) -> Seq<u8> {
        self.pkcs8@
    }

    /// Reads a key pair from a PKCS#8 document; `None` where the document
    /// does not hold a valid Ed25519 key pair.
    pub fn from_pkcs8(pkcs8: &Vec<u8>) -> (r: Option<ServerKey>)
        ensures
            r is Some <==> ed25519_pkcs8_accepted(pkcs8@),
            r matches Some(k) ==> k.document() == pkcs8@,
    {
        match parse_pkcs8(pkcs8) {
            Ok(pair) => Some(ServerKey { pkcs8: pkcs8.clone(), pair }),
            Err(_) => None,
        }
    }

    /// Signs `msg` with this key pair.
    pub fn sign(&self, msg: &Vec<u8>) -> (r: Vec<u8>)
        ensures
            r@ == ed25519_signature(self.document(), msg@),
            r@.len() == SIGNATURE_LEN,
    {
        sign_with(self, msg)
    }
}

/// Relies on ring's `Ed25519KeyPair::sign`, which returns the 64-byte
/// Ed25519 signature of the message. `key.pair` was parsed from
/// `key.pkcs8`, as `ServerKey::from_pkcs8` is the only place a `ServerKey`
/// is made.
#[verifier::external_body]
fn sign_with(key: &ServerKey, msg: &Vec<u8>) -> (r: Vec<u8>)
    ensures
        r@ == ed25519_signature(key.document(), msg@),
        r@.len() == SIGNATURE_LEN,
{
    key.pair.sign(msg.as_slice()).as_ref().to_vec()
}

} // verus!
