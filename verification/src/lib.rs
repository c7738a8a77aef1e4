//! Session-key negotiation over an already-open byte stream: two handshake
//! patterns (a mutually anonymous three-message exchange and a one-message
//! known-server-key exchange) plus deterministic password-derived identity
//! keypairs.

use vstd::prelude::*;

pub mod kdf;
pub mod negotiation;
pub mod salt;
pub mod secret;

verus! {

/// The classes of failure this library reports, one per failure source.
#[derive(Clone, Copy, Debug, PartialEq, Eq, Structural)]
pub enum Error {
    /// A short read, write failure, or closed connection.
    Transport,
    /// A handshake computation or verification failure.
    Protocol,
    /// A key-derivation parameter or computation failure.
    KeyDerivation,
    /// Salt persistence failed for a reason other than the file being absent.
    Storage,
    /// Password entry failed.
    Input,
}

} // verus!
