//! The negotiator interface and the two handshake patterns.
//!
//! A negotiation runs over an already-open byte stream: the caller owns the
//! stream and the primitive library, and drives a verified step function with
//! events (what a read, a write or a primitive computation yielded); the step
//! function decides what happens next. All sequencing decisions stand here:
//! which packet is expected, its exact size, what each failure means, and
//! that session keys are produced only by a fully completed handshake.

use vstd::prelude::*;

use crate::Error;
use crate::kdf;
use crate::secret::SecretBuf;

verus! {

/// Length in bytes of each symmetric session key.
pub const SESSION_KEY_LEN: usize = 32;

/// Exact size of the first packet of the three-message pattern.
pub const XX_PACKET1_LEN: usize = 48;

/// Exact size of the second packet of the three-message pattern.
pub const XX_PACKET2_LEN: usize = 96;

/// Exact size of the third packet of the three-message pattern.
pub const XX_PACKET3_LEN: usize = 64;

/// Exact size of the single packet of the known-server-key pattern.
pub const N_PACKET1_LEN: usize = 48;

/// The two independent symmetric session keys a completed handshake yields:
/// one for the receive direction, one for the send direction.
#[derive(Clone, Debug, PartialEq, Eq)]
pub struct SessionKeyPair {
    pub rx: Vec<u8>,
    pub tx: Vec<u8>,
}

impl SessionKeyPair {
    /// Both keys have the primitive set's fixed session-key length.
    pub open spec fn wf(&self) -> bool {
        self.rx@.len() == SESSION_KEY_LEN && self.tx@.len() == SESSION_KEY_LEN
    }
}

/// The outcome of reading one fixed-size packet from the stream: either the
/// whole packet arrived, or the read fell short (stream closed or failed
/// mid-packet). A short read is never interpreted as data.
pub enum PacketRead {
    Complete(Vec<u8>),
    Truncated,
}

/// The common capability set of the negotiator variants: per-direction
/// message-id counters for the caller's later replay-protected framing.
/// Whether the two accessors expose independent counters or alias one shared
/// counter is part of each variant's contract.
pub trait KeyNegotiator: Default {
    /// Whether both accessors alias one shared counter.
    spec fn counters_aliased() -> bool;

    /// The value of the read-direction counter.
    spec fn read_ctr(&self) -> u64;

    /// The value of the write-direction counter.
    spec fn write_ctr(&self) -> u64;

    /// The message id for read operations. Mutating through the result moves
    /// the read counter, and moves the write counter exactly when the two are
    /// aliased.
    fn read_message_id(&mut self) -> (r: &mut u64)
        ensures
            *r == old(self).read_ctr(),
            final(self).read_ctr() == *final(r),
            final(self).write_ctr() == (if Self::counters_aliased() {
                *final(r)
            } else {
                old(self).write_ctr()
            }),
    ;

    /// The message id for write operations. Mutating through the result moves
    /// the write counter, and moves the read counter exactly when the two are
    /// aliased.
    fn write_message_id(&mut self) -> (r: &mut u64)
        ensures
            *r == old(self).write_ctr(),
            final(self).write_ctr() == *final(r),
            final(self).read_ctr() == (if Self::counters_aliased() {
                *final(r)
            } else {
                old(self).read_ctr()
            }),
    ;
}

/// Where a three-message negotiation stands, together with the data its next
/// step needs. States carrying bytes double as the action the caller must
/// perform before reporting the next event.
pub enum XXState {
    /// Await the first fixed-size packet from the client.
    ExpectPacket1,
    /// Run the primitive's response computation over the held packet-1 bytes
    /// and the server's static keypair.
    ComputeResponse(Vec<u8>),
    /// Send the held packet-2 bytes, whole, to the client.
    SendPacket2(Vec<u8>),
    /// Await the client's final fixed-size packet.
    ExpectPacket3,
    /// Run the primitive's final derivation over the held packet-3 bytes.
    Finish(Vec<u8>),
    /// The handshake completed with these session keys.
    Established(SessionKeyPair),
    /// The handshake aborted; no session keys were produced.
    Failed(Error),
}

/// What the caller reports back to a three-message negotiation: a packet
/// read, the outcome of the response computation, the outcome of the send,
/// or the outcome of the final key derivation. A computation outcome of
/// `None` means the primitive refused its input.
pub enum XXEvent {
    PacketArrived(PacketRead),
    ResponseComputed(Option<Vec<u8>>),
    PacketSent(bool),
    SessionComputed(Option<SessionKeyPair>),
}

/// The state and event pairings on which a three-message negotiation can make
/// progress; on any other pairing the step fails.
pub open spec fn xx_step_fits(state: &XXState, event: &XXEvent) -> bool {
    ||| state is ExpectPacket1 && event is PacketArrived
    ||| state is ComputeResponse && event is ResponseComputed
    ||| state is SendPacket2 && event is PacketSent
    ||| state is ExpectPacket3 && event is PacketArrived
    ||| state is Finish && event is SessionComputed
}

/// Negotiates with no previous knowledge of the peer. The session gains
/// confidentiality and forward secrecy, but the peer's identity stays
/// unauthenticated; callers needing authentication must verify it at a
/// higher layer.
#[derive(Clone, Copy, Debug)]
pub struct XXNegotiator {
    read_message_id: u64,
    write_message_id: u64,
}

impl XXNegotiator {
    /// Explicit constructor: both message-id counters start at zero.
    pub fn new() -> (r: XXNegotiator)
        ensures
            r.read_ctr() == 0,
            r.write_ctr() == 0,
    {
        XXNegotiator { read_message_id: 0, write_message_id: 0 }
    }

    /// One step of the three-message anonymous handshake, from the current
    /// state and the caller's event to the next state. The negotiator itself
    /// is read-only here: negotiation never touches the message-id counters.
    ///
    /// The contract pins every transition: exact packet sizes on both reads
    /// (anything short is a transport failure), a refused computation is a
    /// protocol failure that sends nothing, a failed send is a transport
    /// failure, and session keys appear only when the final computation
    /// succeeds with two full-length keys.
    pub fn negotiate_step(&self, state: XXState, event: XXEvent) -> (r: XXState)
        ensures
            event matches XXEvent::PacketArrived(PacketRead::Complete(p)) ==> ((state
                is ExpectPacket1 && p@.len() == XX_PACKET1_LEN) ==> (
            r matches XXState::ComputeResponse(q) && q@ == p@)),
            event matches XXEvent::PacketArrived(PacketRead::Complete(p)) ==> ((state
                is ExpectPacket1 && p@.len() != XX_PACKET1_LEN) ==> r == (
            XXState::Failed(Error::Transport))),
            (state is ExpectPacket1 && event matches XXEvent::PacketArrived(PacketRead::Truncated))
                ==> r == (XXState::Failed(Error::Transport)),
            event matches XXEvent::ResponseComputed(Some(p2)) ==> ((state is ComputeResponse
                && p2@.len() == XX_PACKET2_LEN) ==> (r matches XXState::SendPacket2(q) && q@ == p2@)),
            event matches XXEvent::ResponseComputed(Some(p2)) ==> ((state is ComputeResponse
                && p2@.len() != XX_PACKET2_LEN) ==> r == (XXState::Failed(Error::Protocol))),
            (state is ComputeResponse && event matches XXEvent::ResponseComputed(None)) ==> r == (
            XXState::Failed(Error::Protocol)),
            event matches XXEvent::PacketSent(ok) ==> ((state is SendPacket2 && ok)
                ==> r is ExpectPacket3),
            event matches XXEvent::PacketSent(ok) ==> ((state is SendPacket2 && !ok) ==> r == (
            XXState::Failed(Error::Transport))),
            event matches XXEvent::PacketArrived(PacketRead::Complete(p)) ==> ((state
                is ExpectPacket3 && p@.len() == XX_PACKET3_LEN) ==> (
            r matches XXState::Finish(q) && q@ == p@)),
            event matches XXEvent::PacketArrived(PacketRead::Complete(p)) ==> ((state
                is ExpectPacket3 && p@.len() != XX_PACKET3_LEN) ==> r == (
            XXState::Failed(Error::Transport))),
            (state is ExpectPacket3 && event matches XXEvent::PacketArrived(PacketRead::Truncated))
                ==> r == (XXState::Failed(Error::Transport)),
            event matches XXEvent::SessionComputed(Some(k)) ==> ((state is Finish && k.wf()) ==> (
            r matches XXState::Established(ks) && ks == k)),
            event matches XXEvent::SessionComputed(Some(k)) ==> ((state is Finish && !k.wf()) ==> r
                == (XXState::Failed(Error::Protocol))),
            (state is Finish && event matches XXEvent::SessionComputed(None)) ==> r == (
            XXState::Failed(Error::Protocol)),
            !xx_step_fits(&state, &event) ==> r == (XXState::Failed(Error::Protocol)),
            r matches XXState::Established(ks) ==> ks.wf(),
            r is ComputeResponse ==> (state is ExpectPacket1 && event is PacketArrived),
            r is SendPacket2 ==> (state is ComputeResponse && event is ResponseComputed),
            r is ExpectPacket3 ==> (state is SendPacket2 && event is PacketSent),
            r is Finish ==> (state is ExpectPacket3 && event is PacketArrived),
            r is Established ==> (state is Finish && event is SessionComputed),
            !(r is ExpectPacket1),
    {
        match event {
            XXEvent::PacketArrived(read) => match state {
                XXState::ExpectPacket1 => match read {
                    PacketRead::Complete(p) => {
                        if p.len() == XX_PACKET1_LEN {
                            XXState::ComputeResponse(p)
                        } else {
                            XXState::Failed(Error::Transport)
                        }
                    }
                    PacketRead::Truncated => XXState::Failed(Error::Transport),
                },
                XXState::ExpectPacket3 => match read {
                    PacketRead::Complete(p) => {
                        if p.len() == XX_PACKET3_LEN {
                            XXState::Finish(p)
                        } else {
                            XXState::Failed(Error::Transport)
                        }
                    }
                    PacketRead::Truncated => XXState::Failed(Error::Transport),
                },
                _ => XXState::Failed(Error::Protocol),
            },
            XXEvent::ResponseComputed(outcome) => match state {
                XXState::ComputeResponse(_) => match outcome {
                    Some(p2) => {
                        if p2.len() == XX_PACKET2_LEN {
                            XXState::SendPacket2(p2)
                        } else {
                            XXState::Failed(Error::Protocol)
                        }
                    }
                    None => XXState::Failed(Error::Protocol),
                },
                _ => XXState::Failed(Error::Protocol),
            },
            XXEvent::PacketSent(ok) => match state {
                XXState::SendPacket2(_) => {
                    if ok {
                        XXState::ExpectPacket3
                    } else {
                        XXState::Failed(Error::Transport)
                    }
                }
                _ => XXState::Failed(Error::Protocol),
            },
            XXEvent::SessionComputed(outcome) => match state {
                XXState::Finish(_) => match outcome {
                    Some(keys) => {
                        if keys.rx.len() == SESSION_KEY_LEN && keys.tx.len() == SESSION_KEY_LEN {
                            XXState::Established(keys)
                        } else {
                            XXState::Failed(Error::Protocol)
                        }
                    }
                    None => XXState::Failed(Error::Protocol),
                },
                _ => XXState::Failed(Error::Protocol),
            },
        }
    }
}

impl KeyNegotiator for XXNegotiator {
    /// The two counters are independent.
    open spec fn counters_aliased() -> bool {
        false
    }

    closed spec fn read_ctr(&self) -> u64 {
        self.read_message_id
    }

    closed spec fn write_ctr(&self) -> u64 {
        self.write_message_id
    }

    fn read_message_id(&mut self) -> (r: &mut u64) {
        &mut self.read_message_id
    }

    fn write_message_id(&mut self) -> (r: &mut u64) {
        &mut self.write_message_id
    }
}

impl Default for XXNegotiator {
    /// Same as the explicit constructor: both counters start at zero.
    fn default() -> (r: XXNegotiator)
        ensures
            r.read_ctr() == 0,
            r.write_ctr() == 0,
    {
        XXNegotiator::new()
    }
}

/// Where a known-server-key negotiation stands. One packet arrives, one
/// derivation runs, nothing is sent back.
pub enum NState {
    /// Await the client's single fixed-size packet.
    ExpectPacket1,
    /// Run the primitive's one-way derivation over the held packet bytes and
    /// the server's static keypair.
    Derive(Vec<u8>),
    /// The handshake completed with these session keys.
    Established(SessionKeyPair),
    /// The handshake aborted; no session keys were produced.
    Failed(Error),
}

/// What the caller reports back to a known-server-key negotiation.
pub enum NEvent {
    PacketArrived(PacketRead),
    SessionComputed(Option<SessionKeyPair>),
}

/// The state and event pairings on which a known-server-key negotiation can
/// make progress.
pub open spec fn n_step_fits(state: &NState, event: &NEvent) -> bool {
    ||| state is ExpectPacket1 && event is PacketArrived
    ||| state is Derive && event is SessionComputed
}

/// Negotiates against a client that already knows the server's static public
/// key. Both message-id accessors alias one shared counter.
#[derive(Clone, Copy, Debug)]
pub struct NNegotiator {
    message_id: u64,
}

impl NNegotiator {
    /// Explicit constructor: the shared message-id counter starts at zero.
    pub fn new() -> (r: NNegotiator)
        ensures
            r.read_ctr() == 0,
            r.write_ctr() == 0,
    {
        NNegotiator { message_id: 0 }
    }

    /// One step of the one-message handshake, from the current state and the
    /// caller's event to the next state. The negotiator itself is read-only
    /// here: negotiation never touches the message-id counter.
    ///
    /// The contract pins every transition: the single packet must arrive at
    /// its exact size (anything short is a transport failure), a refused
    /// derivation is a protocol failure, and session keys appear only when
    /// the derivation succeeds with two full-length keys.
    pub fn negotiate_step(&self, state: NState, event: NEvent) -> (r: NState)
        ensures
            event matches NEvent::PacketArrived(PacketRead::Complete(p)) ==> ((state
                is ExpectPacket1 && p@.len() == N_PACKET1_LEN) ==> (
            r matches NState::Derive(q) && q@ == p@)),
            event matches NEvent::PacketArrived(PacketRead::Complete(p)) ==> ((state
                is ExpectPacket1 && p@.len() != N_PACKET1_LEN) ==> r == (
            NState::Failed(Error::Transport))),
            (state is ExpectPacket1 && event matches NEvent::PacketArrived(PacketRead::Truncated))
                ==> r == (NState::Failed(Error::Transport)),
            event matches NEvent::SessionComputed(Some(k)) ==> ((state is Derive && k.wf()) ==> (
            r matches NState::Established(ks) && ks == k)),
            event matches NEvent::SessionComputed(Some(k)) ==> ((state is Derive && !k.wf()) ==> r
                == (NState::Failed(Error::Protocol))),
            (state is Derive && event matches NEvent::SessionComputed(None)) ==> r == (
            NState::Failed(Error::Protocol)),
            !n_step_fits(&state, &event) ==> r == (NState::Failed(Error::Protocol)),
            r matches NState::Established(ks) ==> ks.wf(),
            r is Derive ==> (state is ExpectPacket1 && event is PacketArrived),
            r is Established ==> (state is Derive && event is SessionComputed),
            !(r is ExpectPacket1),
    {
        match event {
            NEvent::PacketArrived(read) => match state {
                NState::ExpectPacket1 => match read {
                    PacketRead::Complete(p) => {
                        if p.len() == N_PACKET1_LEN {
                            NState::Derive(p)
                        } else {
                            NState::Failed(Error::Transport)
                        }
                    }
                    PacketRead::Truncated => NState::Failed(Error::Transport),
                },
                _ => NState::Failed(Error::Protocol),
            },
            NEvent::SessionComputed(outcome) => match state {
                NState::Derive(_) => match outcome {
                    Some(keys) => {
                        if keys.rx.len() == SESSION_KEY_LEN && keys.tx.len() == SESSION_KEY_LEN {
                            NState::Established(keys)
                        } else {
                            NState::Failed(Error::Protocol)
                        }
                    }
                    None => NState::Failed(Error::Protocol),
                },
                _ => NState::Failed(Error::Protocol),
            },
        }
    }

    /// Derives the long-term identity seed from the operator password and the
    /// persisted salt, at the fixed interactive-login cost. The caller
    /// expands the seed into the static keypair with the primitive library's
    /// deterministic key generation, so an identical password and salt always
    /// reproduce an identical keypair.
    pub fn derive_identity_seed(password: &SecretBuf, salt: &SecretBuf) -> (r: Result<
        SecretBuf,
        Error,
    >)
        requires
            salt@.len() == crate::salt::SALT_LEN,
        ensures
            r matches Ok(seed) ==> seed@ == kdf::identity_seed(password@, salt@),
            r matches Ok(seed) ==> seed@.len() == kdf::SEED_LEN,
            r matches Err(e) ==> e == Error::KeyDerivation,
            password@.len() > 0xFFFFFFFF ==> r is Err,
    {
        kdf::derive_seed(
            password,
            salt,
            kdf::IDENTITY_M_COST,
            kdf::IDENTITY_T_COST,
            kdf::IDENTITY_P_COST,
        )
    }
}

impl KeyNegotiator for NNegotiator {
    /// Both accessors alias the one shared counter.
    open spec fn counters_aliased() -> bool {
        true
    }

    closed spec fn read_ctr(&self) -> u64 {
        self.message_id
    }

    closed spec fn write_ctr(&self) -> u64 {
        self.message_id
    }

    fn read_message_id(&mut self) -> (r: &mut u64) {
        &mut self.message_id
    }

    fn write_message_id(&mut self) -> (r: &mut u64) {
        &mut self.message_id
    }
}

impl Default for NNegotiator {
    /// Same as the explicit constructor: the shared counter starts at zero.
    fn default() -> (r: NNegotiator)
        ensures
            r.read_ctr() == 0,
            r.write_ctr() == 0,
    {
        NNegotiator::new()
    }
}

} // verus!
