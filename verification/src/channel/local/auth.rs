//! Peer authentication of the local transport: the shared secret, the options that select a
//! mode, and the challenge-response handshake of both endpoints.

use vstd::prelude::*;
use crate::channel::local::wire::{
    spec_access_byte, spec_auth_mode_byte, spec_tag_byte, spec_tag_of, Access, AuthMode,
    ConnectionHeader, ProtocolTag, LOCAL_PROTOCOL_VERSION,
};
use crate::channel::spec_encoding_byte;
use crate::error::{
    authentication_failed, channel_protocol_error, is_auth_failure, is_protocol_error,
    IoErrorKind, LavaFlowError, Result,
};
use crate::types::ChannelId;
use hmac::Mac;
use zeroize::Zeroize;

verus! {

/// Size of an authentication nonce in bytes.
pub const NONCE_SIZE: usize = 32;

/// Size of an authentication tag in bytes.
pub const TAG_SIZE: usize = 32;

/// Domain separator that opens every authentication transcript: `lava-flow local ipc auth v1`.
pub const TRANSCRIPT_DOMAIN: [u8; 27] = [
    108, 97, 118, 97, 45, 102, 108, 111, 119, 32, 108, 111, 99, 97, 108, 32, 105, 112, 99, 32, 97,
    117, 116, 104, 32, 118, 49,
];

/// HMAC-SHA256 of `message` under `key`, as the `hmac` and `sha2` crates compute it.
pub uninterp spec fn hmac_sha256(key: Seq<u8>, message: Seq<u8>) -> Seq<u8>;

/// Computes HMAC-SHA256 with `Hmac::<Sha256>::new_from_slice`, `Mac::update` and
/// `Mac::finalize` from the `hmac` crate. The contract names the 32-byte result; HMAC accepts
/// keys of any length, so the key is never refused.
#[verifier::external_body]
fn hmac_sha256_tag(key: &[u8], message: &[u8]) -> (tag: [u8; 32])
    ensures
        tag@ == hmac_sha256(key@, message@),
{
    let mut mac = <hmac::Hmac<sha2::Sha256> as Mac>::new_from_slice(key).expect("HMAC accepts keys of any size");
    mac.update(message);
    let bytes = mac.finalize().into_bytes();
    let mut tag = [0u8; 32];
    tag.copy_from_slice(&bytes);
    tag
}

/// Checks a tag with `Mac::verify_slice` of the `hmac` crate, which compares in constant time
/// and refuses tags whose length is not the 32-byte output length.
#[verifier::external_body]
fn hmac_sha256_verify(key: &[u8], message: &[u8], tag: &[u8]) -> (ok: bool)
    ensures
        ok == (tag@.len() == 32 && tag@ == hmac_sha256(key@, message@)),
{
    let mut mac = <hmac::Hmac<sha2::Sha256> as Mac>::new_from_slice(key).expect("HMAC accepts keys of any size");
    mac.update(message);
    mac.verify_slice(tag).is_ok()
}

/// The error type of the `getrandom` crate.
#[verifier::external_type_specification]
#[verifier::external_body]
pub struct ExRandomError(getrandom::Error);

/// Fills the buffer with `getrandom::fill` from the operating system's random source.
///
/// Nothing is stated of the bytes: they are random.
#[verifier::external_body]
fn fill_random(dest: &mut [u8; 32]) -> (r: core::result::Result<(), getrandom::Error>) {
    getrandom::fill(dest)
}

/// Message text of a random-source error, through its `Display` implementation.
///
/// Nothing is stated of the text: the error value is opaque to the library.
#[verifier::external_body]
fn random_error_message(e: &getrandom::Error) -> String {
    e.to_string()
}

/// Draws a fresh nonce from the operating system; failure is a transport error.
pub fn random_nonce() -> (r: Result<[u8; 32]>)
    ensures
        r matches Err(e) ==> (e matches LavaFlowError::ChannelTransportOperation { operation, .. }
            && operation@ == "generate_auth_nonce"@),
{
    let mut nonce = [0u8; 32];
    match fill_random(&mut nonce) {
        Ok(()) => Ok(nonce),
        Err(source) => Err(LavaFlowError::ChannelTransportOperation {
            operation: "generate_auth_nonce",
            kind: IoErrorKind::Other,
            message: random_error_message(&source),
        }),
    }
}

/// Authentication tag of a transcript under a secret.
pub fn auth_tag(secret: &SharedSecret, transcript: &[u8]) -> (r: [u8; 32])
    ensures
        r@ == hmac_sha256(secret@, transcript@),
{
    hmac_sha256_tag(secret.as_bytes(), transcript)
}

/// Checks a received authentication tag; a mismatch is an authentication failure.
pub fn verify_auth_tag(secret: &SharedSecret, transcript: &[u8], tag: &[u8]) -> (r: Result<()>)
    ensures
        r is Ok <==> (tag@.len() == 32 && tag@ == hmac_sha256(secret@, transcript@)),
        r matches Err(e) ==> is_auth_failure(e, "shared-secret authentication tag mismatch"),
{
    if hmac_sha256_verify(secret.as_bytes(), transcript, tag) {
        Ok(())
    } else {
        Err(authentication_failed("shared-secret authentication tag mismatch"))
    }
}

/// Why a shared secret could not be set up.
#[derive(Clone, Copy, Debug, PartialEq, Eq, Structural)]
pub enum AuthSetupError {
    EmptySharedSecret,
}

impl AuthSetupError {
    /// The public error for this setup failure.
    pub fn to_error(&self) -> (r: LavaFlowError)
        ensures
            is_auth_failure(r, "shared secret is empty"),
    {
        match self {
            AuthSetupError::EmptySharedSecret => authentication_failed("shared secret is empty"),
        }
    }
}

/// Non-empty secret shared by both endpoints.
pub struct SharedSecret(Vec<u8>);

impl View for SharedSecret {
    type V = Seq<u8>;

    closed spec fn view(&self) -> Seq<u8> {
        self.0@
    }
}

impl Clone for SharedSecret {
    fn clone(&self) -> (r: Self)
        ensures
            r@ == self@,
    {
        let mut copy: Vec<u8> = Vec::new();
        let mut i: usize = 0;
        while i < self.0.len()
            invariant
                i <= self.0@.len(),
                copy@ == self.0@.subrange(0, i as int),
            decreases self.0@.len() - i,
        {
            copy.push(self.0[i]);
            i = i + 1;
            assert(copy@ =~= self.0@.subrange(0, i as int));
        }
        assert(self.0@.subrange(0, self.0@.len() as int) =~= self.0@);
        SharedSecret(copy)
    }
}

/// Clears the secret's storage with `Zeroize::zeroize` from the `zeroize` crate, which
/// overwrites the bytes and then empties the vector. It does not panic.
#[verifier::external_body]
fn wipe(bytes: &mut Vec<u8>)
    ensures
        final(bytes)@.len() == 0,
    opens_invariants none
    no_unwind
{
    bytes.zeroize();
}

/// Whether the HMAC-SHA256 backend is available: it always is in this build.
pub fn validate_available() -> (r: core::result::Result<(), AuthSetupError>)
    ensures
        r is Ok,
{
    Ok(())
}

impl SharedSecret {
    /// Wraps a secret; an empty secret is refused.
    pub fn new(secret: Vec<u8>) -> (r: core::result::Result<Self, AuthSetupError>)
        ensures
            r is Ok <==> secret@.len() > 0,
            r matches Ok(s) ==> s@ == secret@,
            r matches Err(e) ==> e == AuthSetupError::EmptySharedSecret,
    {
        if secret.len() == 0 {
            return Err(AuthSetupError::EmptySharedSecret);
        }
        validate_available()?;
        Ok(SharedSecret(secret))
    }

    /// Returns the secret bytes.
    pub fn as_bytes(&self) -> (r: &[u8])
        ensures
            r@ == self@,
    {
        self.0.as_slice()
    }

    /// Debug rendering of a secret, which never shows its bytes.
    pub fn redacted_debug(&self) -> (r: &'static str)
        ensures
            r@ == "SharedSecret(\"<redacted>\")"@,
    {
        "SharedSecret(\"<redacted>\")"
    }

    /// Overwrites and forgets the secret bytes.
    pub fn zeroize(&mut self)
        ensures
            final(self)@.len() == 0,
    {
        wipe(&mut self.0);
    }
}

impl Drop for SharedSecret {
    /// Overwrites the secret bytes before their storage is freed.
    fn drop(&mut self)
        opens_invariants none
        no_unwind
    {
        wipe(&mut self.0);
    }
}

/// Authentication settings of one endpoint.
pub struct AuthOptions {
    shared_secret: Option<core::result::Result<SharedSecret, AuthSetupError>>,
    expected_peer_process_id: Option<u32>,
}

impl Default for AuthOptions {
    fn default() -> (r: Self)
        ensures
            r.secret_setting() is None,
            r.expected_peer() is None,
    {
        AuthOptions { shared_secret: None, expected_peer_process_id: None }
    }
}

impl Clone for AuthOptions {
    fn clone(&self) -> (r: Self)
        ensures
            r.secret_setting() == self.secret_setting(),
            r.expected_peer() == self.expected_peer(),
    {
        let shared_secret = match &self.shared_secret {
            None => None,
            Some(Ok(s)) => Some(Ok(s.clone())),
            Some(Err(e)) => Some(Err(*e)),
        };
        AuthOptions { shared_secret, expected_peer_process_id: self.expected_peer_process_id }
    }
}

/// The secret an endpoint was configured with, by its bytes.
pub open spec fn secret_bytes(s: Option<core::result::Result<SharedSecret, AuthSetupError>>) -> Option<
    core::result::Result<Seq<u8>, AuthSetupError>,
> {
    match s {
        None => None,
        Some(Ok(k)) => Some(Ok(k@)),
        Some(Err(e)) => Some(Err(e)),
    }
}

impl AuthOptions {
    /// The configured secret, by its bytes, or the setup error it produced.
    pub closed spec fn secret_setting(&self) -> Option<core::result::Result<Seq<u8>, AuthSetupError>> {
        secret_bytes(self.shared_secret)
    }

    /// The process id the peer must have, if any.
    pub closed spec fn expected_peer(&self) -> Option<u32> {
        self.expected_peer_process_id
    }

    /// The authentication mode these options select.
    pub open spec fn spec_mode(&self) -> AuthMode {
        if self.secret_setting() is Some {
            AuthMode::SharedSecretHmacSha256
        } else {
            AuthMode::NoAuth
        }
    }

    /// Requires proof of a shared secret; an empty secret is kept as a setup error that
    /// surfaces when the secret is used.
    pub fn with_shared_secret(self, secret: Vec<u8>) -> (r: Self)
        ensures
            r.secret_setting() == (if secret@.len() > 0 {
                Some(Ok::<Seq<u8>, AuthSetupError>(secret@))
            } else {
                Some(Err::<Seq<u8>, AuthSetupError>(AuthSetupError::EmptySharedSecret))
            }),
            r.expected_peer() == self.expected_peer(),
    {
        AuthOptions {
            shared_secret: Some(SharedSecret::new(secret)),
            expected_peer_process_id: self.expected_peer_process_id,
        }
    }

    /// Requires the peer to be the process with the given id.
    pub fn with_expected_peer_process_id(self, process_id: u32) -> (r: Self)
        ensures
            r.secret_setting() == self.secret_setting(),
            r.expected_peer() == Some(process_id),
    {
        AuthOptions { shared_secret: self.shared_secret, expected_peer_process_id: Some(process_id) }
    }

    /// The authentication mode these options select.
    pub fn auth_mode(&self) -> (r: AuthMode)
        ensures
            r == self.spec_mode(),
    {
        match self.shared_secret {
            Some(_) => AuthMode::SharedSecretHmacSha256,
            None => AuthMode::NoAuth,
        }
    }

    /// The secret to authenticate with, if any; a setup error becomes an authentication
    /// failure.
    pub fn secret(&self) -> (r: Result<Option<&SharedSecret>>)
        ensures
            match self.secret_setting() {
                None => r matches Ok(None),
                Some(Ok(k)) => r matches Ok(Some(s)) && s@ == k,
                Some(Err(_)) => r matches Err(e) && is_auth_failure(e, "shared secret is empty"),
            },
    {
        match &self.shared_secret {
            Some(Ok(secret)) => Ok(Some(secret)),
            Some(Err(error)) => Err(error.to_error()),
            None => Ok(None),
        }
    }

    /// The process id the peer must have, if any.
    pub fn expected_peer_process_id(&self) -> (r: Option<u32>)
        ensures
            r == self.expected_peer(),
    {
        self.expected_peer_process_id
    }
}

/// Everything an endpoint knows before the handshake: channel, access policy, authentication.
pub struct BootstrapOptions {
    pub channel_id: ChannelId,
    pub access: Access,
    pub auth: AuthOptions,
}

impl Clone for BootstrapOptions {
    fn clone(&self) -> (r: Self)
        ensures
            r.channel_id@ == self.channel_id@,
            r.access == self.access,
            r.auth.secret_setting() == self.auth.secret_setting(),
            r.auth.expected_peer() == self.auth.expected_peer(),
    {
        BootstrapOptions {
            channel_id: self.channel_id.clone(),
            access: self.access,
            auth: self.auth.clone(),
        }
    }
}

impl BootstrapOptions {
    /// Bundles the options.
    pub fn new(channel_id: ChannelId, access: Access, auth: AuthOptions) -> (r: Self)
        ensures
            r.channel_id@ == channel_id@,
            r.access == access,
            r.auth.secret_setting() == auth.secret_setting(),
            r.auth.expected_peer() == auth.expected_peer(),
    {
        BootstrapOptions { channel_id, access, auth }
    }

    /// The connection header a sender with these options announces.
    pub fn connection_header(&self, encoding: crate::channel::MetadataEncoding) -> (r: ConnectionHeader)
        ensures
            r == (ConnectionHeader {
                encoding,
                access: self.access,
                auth_mode: self.auth.spec_mode(),
            }),
    {
        ConnectionHeader { encoding, access: self.access, auth_mode: self.auth.auth_mode() }
    }
}

/// Checks the peer's process id against the expected one, if any.
pub fn validate_expected_peer_process_id(expected: Option<u32>, actual: u32) -> (r: Result<()>)
    ensures
        r is Ok <==> (expected is None || expected == Some(actual)),
        r matches Err(e) ==> is_auth_failure(e, "peer process id did not match expected value"),
{
    match expected {
        Some(expected) => {
            if actual != expected {
                return Err(authentication_failed("peer process id did not match expected value"));
            }
            Ok(())
        },
        None => Ok(()),
    }
}

/// Which endpoint a transcript authenticates.
#[derive(Copy, Clone, Debug, PartialEq, Eq, Structural)]
pub enum EndpointRole {
    Sender,
    Receiver,
}

/// Wire byte of a role.
pub open spec fn spec_role_byte(r: EndpointRole) -> u8 {
    match r {
        EndpointRole::Sender => 1,
        EndpointRole::Receiver => 2,
    }
}

/// The bytes both endpoints authenticate: domain, version, the announced header, the local
/// access policy, the role, the channel id and both nonces.
pub open spec fn spec_transcript(
    access: Access,
    role: EndpointRole,
    header: ConnectionHeader,
    channel: Seq<char>,
    sender_nonce: Seq<u8>,
    receiver_nonce: Seq<u8>,
) -> Seq<u8> {
    TRANSCRIPT_DOMAIN@ + seq![
        LOCAL_PROTOCOL_VERSION,
        spec_encoding_byte(header.encoding),
        spec_access_byte(header.access),
        spec_auth_mode_byte(header.auth_mode),
        spec_access_byte(access),
        spec_role_byte(role),
    ] + vstd::utf8::encode_utf8(channel) + sender_nonce + receiver_nonce
}

fn append_bytes(out: &mut Vec<u8>, bytes: &[u8])
    ensures
        final(out)@ == old(out)@ + bytes@,
{
    let mut i: usize = 0;
    let ghost start = out@;
    while i < bytes.len()
        invariant
            i <= bytes@.len(),
            out@ == start + bytes@.subrange(0, i as int),
        decreases bytes@.len() - i,
    {
        out.push(bytes[i]);
        i = i + 1;
        assert(out@ =~= start + bytes@.subrange(0, i as int));
    }
    assert(bytes@.subrange(0, bytes@.len() as int) =~= bytes@);
}

/// Builds the authentication transcript.
pub fn auth_transcript(
    bootstrap: &BootstrapOptions,
    role: EndpointRole,
    header: ConnectionHeader,
    sender_nonce: &[u8; 32],
    receiver_nonce: &[u8; 32],
) -> (r: Vec<u8>)
    ensures
        r@ == spec_transcript(
            bootstrap.access,
            role,
            header,
            bootstrap.channel_id@,
            sender_nonce@,
            receiver_nonce@,
        ),
{
    let mut transcript: Vec<u8> = Vec::new();
    let domain = TRANSCRIPT_DOMAIN;
    append_bytes(&mut transcript, domain.as_slice());
    transcript.push(LOCAL_PROTOCOL_VERSION);
    transcript.push(header.encoding.to_byte());
    transcript.push(header.access.to_byte());
    transcript.push(header.auth_mode.to_byte());
    transcript.push(bootstrap.access.to_byte());
    transcript.push(
        match role {
            EndpointRole::Sender => 1u8,
            EndpointRole::Receiver => 2u8,
        },
    );
    append_bytes(&mut transcript, bootstrap.channel_id.as_str().as_bytes());
    append_bytes(&mut transcript, sender_nonce.as_slice());
    append_bytes(&mut transcript, receiver_nonce.as_slice());
    assert(transcript@ =~= spec_transcript(
        bootstrap.access,
        role,
        header,
        bootstrap.channel_id@,
        sender_nonce@,
        receiver_nonce@,
    ));
    transcript
}

} // verus!
