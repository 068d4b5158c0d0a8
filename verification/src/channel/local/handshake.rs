//! The authentication handshake as two state machines. Each step takes the bytes the
//! endpoint read and says what to write and how many bytes to read next; the caller moves the
//! bytes over the transport.

use vstd::prelude::*;
use crate::channel::local::auth::{
    auth_tag, auth_transcript, hmac_sha256, random_nonce, spec_transcript,
    validate_expected_peer_process_id, verify_auth_tag, BootstrapOptions, EndpointRole,
};
use crate::channel::local::wire::{
    spec_connection_header_bytes, spec_tag_byte, spec_tag_of, ConnectionHeader, ProtocolTag,
};
use crate::channel::MetadataEncoding;
use crate::error::{
    authentication_failed, channel_protocol_error, is_auth_failure, is_protocol_error,
    LavaFlowError, Result,
};

verus! {

/// What an endpoint does next: write `write` (and flush), then read exactly `read` bytes and
/// pass them to the next step. `read == 0` ends the handshake successfully.
#[derive(Debug)]
pub struct HandshakeStep {
    pub write: Vec<u8>,
    pub read: usize,
}

/// `e` is what a sender reports for tag byte `b` read during `op` when it expected `expected`.
pub open spec fn sender_tag_error(e: LavaFlowError, op: &str, b: u8) -> bool {
    if spec_tag_of(b) is None {
        is_protocol_error(e, op, "unknown protocol tag")
    } else if b == spec_tag_byte(ProtocolTag::AuthFailed) {
        is_auth_failure(e, "peer rejected bootstrap")
    } else {
        is_protocol_error(e, op, "unexpected protocol tag")
    }
}

fn expect_sender_tag(b: u8, expected: ProtocolTag, operation: &'static str) -> (r: Result<()>)
    requires
        expected != ProtocolTag::AuthFailed,
    ensures
        r is Ok <==> b == spec_tag_byte(expected),
        r matches Err(e) ==> sender_tag_error(e, operation, b),
{
    let tag = ProtocolTag::read_during(b, operation)?;
    if tag == expected {
        Ok(())
    } else if tag == ProtocolTag::AuthFailed {
        Err(authentication_failed("peer rejected bootstrap"))
    } else {
        Err(channel_protocol_error(operation, "unexpected protocol tag"))
    }
}

/// Where a sender is in its handshake.
#[derive(Copy, Clone, Debug)]
pub enum SenderPhase {
    /// Header written; the peer pid is still to be checked.
    Started,
    /// Unauthenticated: waiting for the receiver's connection acknowledgement.
    AwaitConnectionOk,
    /// Waiting for the receiver's challenge tag.
    AwaitChallenge,
    /// Waiting for the receiver's nonce.
    AwaitReceiverNonce,
    /// Response written; waiting for the receiver's verdict.
    AwaitAuthOk { sender_nonce: [u8; 32], receiver_nonce: [u8; 32] },
    /// Waiting for the receiver's own proof.
    AwaitReceiverTag { sender_nonce: [u8; 32], receiver_nonce: [u8; 32] },
    /// The handshake succeeded.
    Finished,
}

/// Sender side of the handshake.
pub struct SenderHandshake {
    phase: SenderPhase,
    header: ConnectionHeader,
    bootstrap: BootstrapOptions,
}

/// The sender's response to a challenge: the tag, its nonce and its proof.
pub open spec fn spec_sender_response(
    key: Seq<u8>,
    access: crate::channel::local::wire::Access,
    header: ConnectionHeader,
    channel: Seq<char>,
    sender_nonce: Seq<u8>,
    receiver_nonce: Seq<u8>,
) -> Seq<u8> {
    seq![spec_tag_byte(ProtocolTag::AuthResponse)] + sender_nonce + hmac_sha256(
        key,
        spec_transcript(access, EndpointRole::Sender, header, channel, sender_nonce, receiver_nonce),
    )
}

impl SenderHandshake {
    #[verifier::type_invariant]
    closed spec fn inv(self) -> bool {
        &&& self.header.access == self.bootstrap.access
        &&& self.header.auth_mode == self.bootstrap.auth.spec_mode()
        &&& (self.phase is AwaitChallenge || self.phase is AwaitReceiverNonce
            || self.phase is AwaitAuthOk || self.phase is AwaitReceiverTag)
            ==> self.bootstrap.auth.secret_setting() matches Some(Ok(_))
    }

    /// The current phase.
    pub closed spec fn phase(&self) -> SenderPhase {
        self.phase
    }

    /// The header the sender announced.
    pub closed spec fn header(&self) -> ConnectionHeader {
        self.header
    }

    /// The options the handshake runs with.
    pub closed spec fn options(&self) -> BootstrapOptions {
        self.bootstrap
    }

    /// The shared secret the handshake runs with, when there is one.
    pub open spec fn key(&self) -> Seq<u8> {
        self.options().auth.secret_setting()->0->Ok_0
    }

    /// Starts a sender handshake; the connection header to write comes back with it.
    pub fn start(encoding: MetadataEncoding, bootstrap: &BootstrapOptions) -> (r: (Self, [u8; 5]))
        ensures
            r.0.phase() == SenderPhase::Started,
            r.0.header() == (ConnectionHeader {
                encoding,
                access: bootstrap.access,
                auth_mode: bootstrap.auth.spec_mode(),
            }),
            r.0.options().channel_id@ == bootstrap.channel_id@,
            r.0.options().access == bootstrap.access,
            r.0.options().auth.secret_setting() == bootstrap.auth.secret_setting(),
            r.0.options().auth.expected_peer() == bootstrap.auth.expected_peer(),
            r.1@ == spec_connection_header_bytes(r.0.header()),
    {
        let header = bootstrap.connection_header(encoding);
        let bytes = header.to_bytes();
        (SenderHandshake { phase: SenderPhase::Started, header, bootstrap: bootstrap.clone() }, bytes)
    }

    /// After the header is written: checks the peer's process id and the configured secret,
    /// then waits for one tag byte.
    pub fn authenticate(&mut self, peer_process_id: u32) -> (r: Result<HandshakeStep>)
        requires
            old(self).phase() == SenderPhase::Started,
        ensures
            final(self).header() == old(self).header(),
            final(self).options() == old(self).options(),
            r is Ok <==> (old(self).options().auth.expected_peer() is None
                || old(self).options().auth.expected_peer() == Some(peer_process_id))
                && !(old(self).options().auth.secret_setting() matches Some(Err(_))),
            !(old(self).options().auth.expected_peer() is None || old(self).options().auth.expected_peer()
                == Some(peer_process_id)) ==> (r matches Err(e) && is_auth_failure(
                e,
                "peer process id did not match expected value",
            )),
            r matches Ok(step) ==> step.write@.len() == 0 && step.read == 1 && (
            final(self).phase() == if old(self).options().auth.secret_setting() is None {
                SenderPhase::AwaitConnectionOk
            } else {
                SenderPhase::AwaitChallenge
            }),
            r matches Err(e) ==> ((old(self).options().auth.expected_peer() is None
                || old(self).options().auth.expected_peer() == Some(peer_process_id)) ==> is_auth_failure(
                e,
                "shared secret is empty",
            )),
    {
        proof {
            use_type_invariant(&*self);
        }
        validate_expected_peer_process_id(self.bootstrap.auth.expected_peer_process_id(), peer_process_id)?;
        let secret = self.bootstrap.auth.secret()?;
        let next = match secret {
            None => SenderPhase::AwaitConnectionOk,
            Some(_) => SenderPhase::AwaitChallenge,
        };
        self.phase = next;
        Ok(HandshakeStep { write: Vec::new(), read: 1 })
    }

    /// Number of bytes the current phase expects.
    pub open spec fn expected_len(&self) -> nat {
        match self.phase() {
            SenderPhase::AwaitConnectionOk => 1,
            SenderPhase::AwaitChallenge => 1,
            SenderPhase::AwaitReceiverNonce => 32,
            SenderPhase::AwaitAuthOk { .. } => 1,
            SenderPhase::AwaitReceiverTag { .. } => 32,
            _ => 0,
        }
    }

    /// Whether the handshake has succeeded.
    pub fn is_finished(&self) -> (r: bool)
        ensures
            r == (self.phase() == SenderPhase::Finished),
    {
        match self.phase {
            SenderPhase::Finished => true,
            _ => false,
        }
    }

    /// Consumes the bytes the previous step asked for.
    pub fn advance(&mut self, input: &[u8]) -> (r: Result<HandshakeStep>)
        requires
            old(self).expected_len() > 0,
            input@.len() == old(self).expected_len(),
        ensures
            final(self).header() == old(self).header(),
            final(self).options() == old(self).options(),
            old(self).phase() == SenderPhase::AwaitConnectionOk ==> {
                &&& r is Ok <==> input@[0] == spec_tag_byte(ProtocolTag::ConnectionOk)
                &&& r matches Ok(step) ==> step.write@.len() == 0 && step.read == 0
                    && final(self).phase() == SenderPhase::Finished
                &&& r matches Err(e) ==> sender_tag_error(e, "read_connection_ok", input@[0])
            },
            old(self).phase() == SenderPhase::AwaitChallenge ==> {
                &&& r is Ok <==> input@[0] == spec_tag_byte(ProtocolTag::AuthChallenge)
                &&& r matches Ok(step) ==> step.write@.len() == 0 && step.read == 32
                    && final(self).phase() == SenderPhase::AwaitReceiverNonce
                &&& r matches Err(e) ==> sender_tag_error(e, "read_auth_challenge", input@[0])
            },
            old(self).phase() == SenderPhase::AwaitReceiverNonce ==> {
                &&& r matches Ok(step) ==> step.read == 1 && step.write@.len() == 65 && final(self).phase() is AwaitAuthOk
                    && final(self).phase()->AwaitAuthOk_receiver_nonce@ == input@ && step.write@
                    == spec_sender_response(
                    old(self).key(),
                    old(self).options().access,
                    old(self).header(),
                    old(self).options().channel_id@,
                    final(self).phase()->AwaitAuthOk_sender_nonce@,
                    input@,
                )
                &&& r matches Err(e) ==> (e matches LavaFlowError::ChannelTransportOperation {
                    operation,
                    ..
                } && operation@ == "generate_auth_nonce"@)
            },
            old(self).phase() matches SenderPhase::AwaitAuthOk { sender_nonce, receiver_nonce } ==> {
                &&& r is Ok <==> input@[0] == spec_tag_byte(ProtocolTag::AuthOk)
                &&& r matches Ok(step) ==> step.write@.len() == 0 && step.read == 32
                    && final(self).phase() == (SenderPhase::AwaitReceiverTag {
                    sender_nonce,
                    receiver_nonce,
                })
                &&& r matches Err(e) ==> sender_tag_error(e, "read_auth_ok", input@[0])
            },
            old(self).phase() matches SenderPhase::AwaitReceiverTag { sender_nonce, receiver_nonce } ==> {
                &&& r is Ok <==> input@ == hmac_sha256(
                    old(self).key(),
                    spec_transcript(
                        old(self).options().access,
                        EndpointRole::Receiver,
                        old(self).header(),
                        old(self).options().channel_id@,
                        sender_nonce@,
                        receiver_nonce@,
                    ),
                )
                &&& r matches Ok(step) ==> step.write@.len() == 0 && step.read == 0
                    && final(self).phase() == SenderPhase::Finished
                &&& r matches Err(e) ==> is_auth_failure(e, "shared-secret authentication tag mismatch")
            },
    {
        proof {
            use_type_invariant(&*self);
        }
        match self.phase {
            SenderPhase::AwaitConnectionOk => {
                expect_sender_tag(input[0], ProtocolTag::ConnectionOk, "read_connection_ok")?;
                self.phase = SenderPhase::Finished;
                Ok(HandshakeStep { write: Vec::new(), read: 0 })
            },
            SenderPhase::AwaitChallenge => {
                expect_sender_tag(input[0], ProtocolTag::AuthChallenge, "read_auth_challenge")?;
                self.phase = SenderPhase::AwaitReceiverNonce;
                Ok(HandshakeStep { write: Vec::new(), read: 32 })
            },
            SenderPhase::AwaitReceiverNonce => {
                let mut receiver_nonce = [0u8; 32];
                let mut i: usize = 0;
                while i < 32
                    invariant
                        i <= 32,
                        input@.len() == 32,
                        forall|k: int| 0 <= k < i ==> receiver_nonce@[k] == input@[k],
                    decreases 32 - i,
                {
                    receiver_nonce[i] = input[i];
                    i = i + 1;
                }
                assert(receiver_nonce@ =~= input@);
                let sender_nonce = random_nonce()?;
                let transcript = auth_transcript(
                    &self.bootstrap,
                    EndpointRole::Sender,
                    self.header,
                    &sender_nonce,
                    &receiver_nonce,
                );
                let secret = match self.bootstrap.auth.secret() {
                    Ok(Some(s)) => s,
                    _ => {
                        assert(false);
                        return Err(authentication_failed("shared secret is empty"));
                    },
                };
                let mac = auth_tag(secret, transcript.as_slice());
                let mut write: Vec<u8> = Vec::new();
                write.push(ProtocolTag::AuthResponse.to_byte());
                let mut k: usize = 0;
                while k < 32
                    invariant
                        k <= 32,
                        write@ == seq![spec_tag_byte(ProtocolTag::AuthResponse)] + sender_nonce@.subrange(0, k as int),
                    decreases 32 - k,
                {
                    write.push(sender_nonce[k]);
                    k = k + 1;
                    assert(write@ =~= seq![spec_tag_byte(ProtocolTag::AuthResponse)] + sender_nonce@.subrange(0, k as int));
                }
                let mut k: usize = 0;
                let ghost with_nonce = write@;
                while k < 32
                    invariant
                        k <= 32,
                        write@ == with_nonce + mac@.subrange(0, k as int),
                    decreases 32 - k,
                {
                    write.push(mac[k]);
                    k = k + 1;
                    assert(write@ =~= with_nonce + mac@.subrange(0, k as int));
                }
                assert(sender_nonce@.subrange(0, 32) =~= sender_nonce@);
                assert(mac@.subrange(0, 32) =~= mac@);
                self.phase = SenderPhase::AwaitAuthOk { sender_nonce, receiver_nonce };
                Ok(HandshakeStep { write, read: 1 })
            },
            SenderPhase::AwaitAuthOk { sender_nonce, receiver_nonce } => {
                expect_sender_tag(input[0], ProtocolTag::AuthOk, "read_auth_ok")?;
                self.phase = SenderPhase::AwaitReceiverTag { sender_nonce, receiver_nonce };
                Ok(HandshakeStep { write: Vec::new(), read: 32 })
            },
            SenderPhase::AwaitReceiverTag { sender_nonce, receiver_nonce } => {
                let transcript = auth_transcript(
                    &self.bootstrap,
                    EndpointRole::Receiver,
                    self.header,
                    &sender_nonce,
                    &receiver_nonce,
                );
                let secret = match self.bootstrap.auth.secret() {
                    Ok(Some(s)) => s,
                    _ => {
                        assert(false);
                        return Err(authentication_failed("shared secret is empty"));
                    },
                };
                verify_auth_tag(secret, transcript.as_slice(), input)?;
                self.phase = SenderPhase::Finished;
                Ok(HandshakeStep { write: Vec::new(), read: 0 })
            },
            _ => {
                assert(false);
                Err(authentication_failed("peer rejected bootstrap"))
            },
        }
    }
}

/// A receiver's refusal: the error, and the bytes to send the peer (best effort) before
/// closing, so that it learns that the bootstrap was rejected.
#[derive(Debug)]
pub struct HandshakeFailure {
    pub error: LavaFlowError,
    pub notice: Vec<u8>,
}

/// The notice a rejecting receiver sends: one `AuthFailed` tag.
pub open spec fn spec_rejection_notice() -> Seq<u8> {
    seq![spec_tag_byte(ProtocolTag::AuthFailed)]
}

fn rejection(error: LavaFlowError) -> (r: HandshakeFailure)
    ensures
        r.error == error,
        r.notice@ == spec_rejection_notice(),
{
    let mut notice: Vec<u8> = Vec::new();
    notice.push(ProtocolTag::AuthFailed.to_byte());
    assert(notice@ =~= spec_rejection_notice());
    HandshakeFailure { error, notice }
}

/// Where a receiver is in its handshake.
#[derive(Copy, Clone, Debug)]
pub enum ReceiverPhase {
    /// Challenge written; waiting for the response tag.
    AwaitResponseTag { receiver_nonce: [u8; 32] },
    /// Waiting for the sender's nonce and proof.
    AwaitSenderProof { receiver_nonce: [u8; 32] },
    /// The handshake succeeded.
    Finished,
}

/// Receiver side of the handshake.
pub struct ReceiverHandshake {
    phase: ReceiverPhase,
    header: ConnectionHeader,
    bootstrap: BootstrapOptions,
}

/// Whether a receiver with nonce `receiver_nonce` accepts the sender's 64-byte proof `input`:
/// its second half must be the sender's tag over the transcript with the nonce of its first
/// half.
pub open spec fn spec_receiver_accepts(
    key: Seq<u8>,
    access: crate::channel::local::wire::Access,
    header: ConnectionHeader,
    channel: Seq<char>,
    receiver_nonce: Seq<u8>,
    input: Seq<u8>,
) -> bool {
    input.subrange(32, 64) == hmac_sha256(
        key,
        spec_transcript(
            access,
            EndpointRole::Sender,
            header,
            channel,
            input.subrange(0, 32),
            receiver_nonce,
        ),
    )
}

/// The receiver's verdict after accepting: the `AuthOk` tag and its own proof.
pub open spec fn spec_receiver_proof(
    key: Seq<u8>,
    access: crate::channel::local::wire::Access,
    header: ConnectionHeader,
    channel: Seq<char>,
    sender_nonce: Seq<u8>,
    receiver_nonce: Seq<u8>,
) -> Seq<u8> {
    seq![spec_tag_byte(ProtocolTag::AuthOk)] + hmac_sha256(
        key,
        spec_transcript(access, EndpointRole::Receiver, header, channel, sender_nonce, receiver_nonce),
    )
}

/// Why a receiver refuses to start, checked in this order; `None` when it starts.
pub open spec fn receiver_start_error(
    header: ConnectionHeader,
    bootstrap: BootstrapOptions,
    peer_process_id: u32,
) -> Option<&'static str> {
    if !(bootstrap.auth.expected_peer() is None || bootstrap.auth.expected_peer() == Some(
        peer_process_id,
    )) {
        Some("peer process id did not match expected value")
    } else if bootstrap.auth.secret_setting() matches Some(Err(_)) {
        Some("shared secret is empty")
    } else if header.access != bootstrap.access {
        Some("local access policies do not match")
    } else if header.auth_mode != bootstrap.auth.spec_mode() {
        Some("authentication modes do not match")
    } else {
        None
    }
}

impl ReceiverHandshake {
    #[verifier::type_invariant]
    closed spec fn inv(self) -> bool {
        &&& self.header.access == self.bootstrap.access
        &&& self.header.auth_mode == self.bootstrap.auth.spec_mode()
        &&& (self.phase is AwaitResponseTag || self.phase is AwaitSenderProof)
            ==> self.bootstrap.auth.secret_setting() matches Some(Ok(_))
    }

    /// The current phase.
    pub closed spec fn phase(&self) -> ReceiverPhase {
        self.phase
    }

    /// The header the sender announced.
    pub closed spec fn header(&self) -> ConnectionHeader {
        self.header
    }

    /// The options the handshake runs with.
    pub closed spec fn options(&self) -> BootstrapOptions {
        self.bootstrap
    }

    /// The shared secret the handshake runs with, when there is one.
    pub open spec fn key(&self) -> Seq<u8> {
        self.options().auth.secret_setting()->0->Ok_0
    }

    /// Number of bytes the current phase expects.
    pub open spec fn expected_len(&self) -> nat {
        match self.phase() {
            ReceiverPhase::AwaitResponseTag { .. } => 1,
            ReceiverPhase::AwaitSenderProof { .. } => 64,
            ReceiverPhase::Finished => 0,
        }
    }

    /// Whether the handshake has succeeded.
    pub fn is_finished(&self) -> (r: bool)
        ensures
            r == (self.phase() is Finished),
    {
        match self.phase {
            ReceiverPhase::Finished => true,
            _ => false,
        }
    }

    /// Turns an error met while moving the handshake's bytes into a refusal.
    pub fn reject(error: LavaFlowError) -> (r: HandshakeFailure)
        ensures
            r.error == error,
            r.notice@ == spec_rejection_notice(),
    {
        rejection(error)
    }

    /// Starts the receiver side once the connection header is read: checks the peer, the
    /// secret and that the header agrees with the local options, then acknowledges the
    /// connection or challenges the sender.
    pub fn start(header: ConnectionHeader, bootstrap: &BootstrapOptions, peer_process_id: u32) -> (r:
        core::result::Result<(Self, HandshakeStep), HandshakeFailure>)
        ensures
            r matches Err(f) ==> f.notice@ == spec_rejection_notice(),
            receiver_start_error(header, *bootstrap, peer_process_id) matches Some(why) ==> (r matches Err(
                f,
            ) && is_auth_failure(f.error, why)),
            r is Ok ==> receiver_start_error(header, *bootstrap, peer_process_id) is None,
            receiver_start_error(header, *bootstrap, peer_process_id) is None
                && bootstrap.auth.secret_setting() is None ==> (r matches Ok((h, step))
                && h.phase() is Finished && step.read == 0 && step.write@ == seq![
                spec_tag_byte(ProtocolTag::ConnectionOk)]),
            r matches Ok((h, step)) ==> {
                &&& h.header() == header
                &&& h.options().channel_id@ == bootstrap.channel_id@
                &&& h.options().access == bootstrap.access
                &&& h.options().auth.secret_setting() == bootstrap.auth.secret_setting()
                &&& bootstrap.auth.secret_setting() is Some ==> h.phase() is AwaitResponseTag
                    && step.read == 1 && step.write@ == seq![spec_tag_byte(ProtocolTag::AuthChallenge)]
                    + h.phase()->AwaitResponseTag_receiver_nonce@
            },
            r matches Err(f) ==> (receiver_start_error(header, *bootstrap, peer_process_id) is None
                ==> (f.error matches LavaFlowError::ChannelTransportOperation { operation, .. }
                && operation@ == "generate_auth_nonce"@)),
    {
        if let Err(e) = validate_expected_peer_process_id(
            bootstrap.auth.expected_peer_process_id(),
            peer_process_id,
        ) {
            return Err(rejection(e));
        }
        let secret = match bootstrap.auth.secret() {
            Ok(s) => s,
            Err(e) => {
                return Err(rejection(e));
            },
        };
        if header.access != bootstrap.access {
            return Err(rejection(authentication_failed("local access policies do not match")));
        }
        if header.auth_mode != bootstrap.auth.auth_mode() {
            return Err(rejection(authentication_failed("authentication modes do not match")));
        }
        match secret {
            None => {
                let mut write: Vec<u8> = Vec::new();
                write.push(ProtocolTag::ConnectionOk.to_byte());
                assert(write@ =~= seq![spec_tag_byte(ProtocolTag::ConnectionOk)]);
                Ok(
                    (
                        ReceiverHandshake {
                            phase: ReceiverPhase::Finished,
                            header,
                            bootstrap: bootstrap.clone(),
                        },
                        HandshakeStep { write, read: 0 },
                    ),
                )
            },
            Some(_) => {
                let receiver_nonce = match random_nonce() {
                    Ok(n) => n,
                    Err(e) => {
                        return Err(rejection(e));
                    },
                };
                let mut write: Vec<u8> = Vec::new();
                write.push(ProtocolTag::AuthChallenge.to_byte());
                let mut k: usize = 0;
                while k < 32
                    invariant
                        k <= 32,
                        write@ == seq![spec_tag_byte(ProtocolTag::AuthChallenge)]
                            + receiver_nonce@.subrange(0, k as int),
                    decreases 32 - k,
                {
                    write.push(receiver_nonce[k]);
                    k = k + 1;
                    assert(write@ =~= seq![spec_tag_byte(ProtocolTag::AuthChallenge)]
                        + receiver_nonce@.subrange(0, k as int));
                }
                assert(receiver_nonce@.subrange(0, 32) =~= receiver_nonce@);
                Ok(
                    (
                        ReceiverHandshake {
                            phase: ReceiverPhase::AwaitResponseTag { receiver_nonce },
                            header,
                            bootstrap: bootstrap.clone(),
                        },
                        HandshakeStep { write, read: 1 },
                    ),
                )
            },
        }
    }

    /// Consumes the bytes the previous step asked for.
    pub fn advance(&mut self, input: &[u8]) -> (r: core::result::Result<HandshakeStep, HandshakeFailure>)
        requires
            old(self).expected_len() > 0,
            input@.len() == old(self).expected_len(),
        ensures
            final(self).header() == old(self).header(),
            final(self).options() == old(self).options(),
            r matches Err(f) ==> f.notice@ == spec_rejection_notice(),
            old(self).phase() matches ReceiverPhase::AwaitResponseTag { receiver_nonce } ==> {
                &&& r is Ok <==> input@[0] == spec_tag_byte(ProtocolTag::AuthResponse)
                &&& r matches Ok(step) ==> step.write@.len() == 0 && step.read == 64
                    && final(self).phase() is AwaitSenderProof
                    && final(self).phase()->AwaitSenderProof_receiver_nonce == receiver_nonce
                &&& r matches Err(f) ==> (spec_tag_of(input@[0]) is None ==> is_protocol_error(
                    f.error,
                    "read_auth_response",
                    "unknown protocol tag",
                )) && (spec_tag_of(input@[0]) is Some ==> is_protocol_error(
                    f.error,
                    "read_auth_response",
                    "unexpected protocol tag",
                ))
            },
            old(self).phase() matches ReceiverPhase::AwaitSenderProof { receiver_nonce } ==> {
                &&& r is Ok <==> spec_receiver_accepts(
                    old(self).key(),
                    old(self).options().access,
                    old(self).header(),
                    old(self).options().channel_id@,
                    receiver_nonce@,
                    input@,
                )
                &&& r matches Ok(step) ==> step.read == 0 && final(self).phase() is Finished
                    && step.write@ == spec_receiver_proof(
                    old(self).key(),
                    old(self).options().access,
                    old(self).header(),
                    old(self).options().channel_id@,
                    input@.subrange(0, 32),
                    receiver_nonce@,
                )
                &&& r matches Err(f) ==> is_auth_failure(f.error, "shared-secret authentication tag mismatch")
            },
    {
        proof {
            use_type_invariant(&*self);
        }
        match self.phase {
            ReceiverPhase::AwaitResponseTag { receiver_nonce } => {
                let tag = match ProtocolTag::read_during(input[0], "read_auth_response") {
                    Ok(t) => t,
                    Err(e) => {
                        return Err(rejection(e));
                    },
                };
                if tag != ProtocolTag::AuthResponse {
                    return Err(
                        rejection(channel_protocol_error("read_auth_response", "unexpected protocol tag")),
                    );
                }
                self.phase = ReceiverPhase::AwaitSenderProof { receiver_nonce };
                Ok(HandshakeStep { write: Vec::new(), read: 64 })
            },
            ReceiverPhase::AwaitSenderProof { receiver_nonce } => {
                let mut sender_nonce = [0u8; 32];
                let mut sender_mac = [0u8; 32];
                let mut i: usize = 0;
                while i < 32
                    invariant
                        i <= 32,
                        input@.len() == 64,
                        forall|k: int| 0 <= k < i ==> sender_nonce@[k] == input@[k],
                        forall|k: int| 0 <= k < i ==> sender_mac@[k] == input@[k + 32],
                    decreases 32 - i,
                {
                    sender_nonce[i] = input[i];
                    sender_mac[i] = input[i + 32];
                    i = i + 1;
                }
                assert(sender_nonce@ =~= input@.subrange(0, 32));
                assert(sender_mac@ =~= input@.subrange(32, 64));
                let secret = match self.bootstrap.auth.secret() {
                    Ok(Some(s)) => s,
                    _ => {
                        assert(false);
                        return Err(rejection(authentication_failed("shared secret is empty")));
                    },
                };
                let sender_transcript = auth_transcript(
                    &self.bootstrap,
                    EndpointRole::Sender,
                    self.header,
                    &sender_nonce,
                    &receiver_nonce,
                );
                if let Err(e) = verify_auth_tag(secret, sender_transcript.as_slice(), sender_mac.as_slice()) {
                    return Err(rejection(e));
                }
                let receiver_transcript = auth_transcript(
                    &self.bootstrap,
                    EndpointRole::Receiver,
                    self.header,
                    &sender_nonce,
                    &receiver_nonce,
                );
                let mac = auth_tag(secret, receiver_transcript.as_slice());
                let mut write: Vec<u8> = Vec::new();
                write.push(ProtocolTag::AuthOk.to_byte());
                let mut k: usize = 0;
                while k < 32
                    invariant
                        k <= 32,
                        write@ == seq![spec_tag_byte(ProtocolTag::AuthOk)] + mac@.subrange(0, k as int),
                    decreases 32 - k,
                {
                    write.push(mac[k]);
                    k = k + 1;
                    assert(write@ =~= seq![spec_tag_byte(ProtocolTag::AuthOk)] + mac@.subrange(0, k as int));
                }
                assert(mac@.subrange(0, 32) =~= mac@);
                self.phase = ReceiverPhase::Finished;
                Ok(HandshakeStep { write, read: 0 })
            },
            ReceiverPhase::Finished => {
                assert(false);
                Err(rejection(authentication_failed("peer rejected bootstrap")))
            },
        }
    }
}

/// Endpoints that agree on the secret, the access policy, the header and the channel complete
/// the handshake: the receiver accepts the proof in the sender's response, and the sender
/// accepts the receiver's verdict, whatever nonces were drawn.
pub proof fn lemma_matching_endpoints_authenticate(
    key: Seq<u8>,
    access: crate::channel::local::wire::Access,
    header: ConnectionHeader,
    channel: Seq<char>,
    sender_nonce: Seq<u8>,
    receiver_nonce: Seq<u8>,
    response: Seq<u8>,
)
    requires
        sender_nonce.len() == 32,
        response == spec_sender_response(key, access, header, channel, sender_nonce, receiver_nonce),
        response.len() == 65,
    ensures
        response[0] == spec_tag_byte(ProtocolTag::AuthResponse),
        spec_receiver_accepts(key, access, header, channel, receiver_nonce, response.subrange(1, 65)),
        response.subrange(1, 65).subrange(0, 32) == sender_nonce,
        spec_receiver_proof(key, access, header, channel, sender_nonce, receiver_nonce)[0]
            == spec_tag_byte(ProtocolTag::AuthOk),
        spec_receiver_proof(key, access, header, channel, sender_nonce, receiver_nonce).subrange(
            1,
            spec_receiver_proof(key, access, header, channel, sender_nonce, receiver_nonce).len() as int,
        ) == hmac_sha256(
            key,
            spec_transcript(access, EndpointRole::Receiver, header, channel, sender_nonce, receiver_nonce),
        ),
{
    let body = response.subrange(1, 65);
    let mac = hmac_sha256(
        key,
        spec_transcript(access, EndpointRole::Sender, header, channel, sender_nonce, receiver_nonce),
    );
    assert(body.subrange(0, 32) =~= sender_nonce);
    assert(body.subrange(32, 64) =~= mac);
    let proof_bytes = spec_receiver_proof(key, access, header, channel, sender_nonce, receiver_nonce);
    assert(proof_bytes.subrange(1, proof_bytes.len() as int) =~= hmac_sha256(
        key,
        spec_transcript(access, EndpointRole::Receiver, header, channel, sender_nonce, receiver_nonce),
    ));
}

} // verus!
