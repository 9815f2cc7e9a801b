use vstd::prelude::*;

verus! {

/// The authenticated result of a successful decode: the payload that was
/// encoded, and the UID and GID the service attests for the encoder.
#[derive(Debug, Clone, PartialEq, Eq)]
pub struct Credential {
    /// The user ID attested for the credential's encoder.
    pub uid: u32,
    /// The group ID attested for the credential's encoder.
    pub gid: u32,
    /// The payload carried by the credential; empty if none was given.
    pub message: Vec<u8>,
}

} // verus!
