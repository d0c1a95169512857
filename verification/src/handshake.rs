//! The Noise handshake of the prototype (pattern NN): the client sends its
//! ephemeral key and a greeting in the clear, the server answers with its own
//! ephemeral key and a sealed greeting, and both sides then hold the stateless
//! transport that seals the datagrams. Each stage of the handshake has a type of
//! its own, so that a stage is only ever reached from the one before it.
use vstd::prelude::*;

use crate::error::Error;
use crate::proto::{NOISE_MAX_MESSAGE_LEN, NOISE_PROTOCOL, NOISE_TAG_LEN};

verus! {

/// A Noise handshake in progress.
#[verifier::external_type_specification]
#[verifier::external_body]
pub struct ExHandshakeState(snow::HandshakeState);

/// Length of an X25519 key, the ephemeral key that each side sends.
pub const NOISE_KEY_LEN: usize = 32;

/// Longest remote public key that a handshake can be built with.
pub const NOISE_MAX_REMOTE_KEY_LEN: usize = 56;

/// Size of the buffers that handshake messages and their payloads are written
/// into.
pub const HANDSHAKE_BUFFER_LEN: usize = 1500;

/// A responder that has not read the first message yet.
pub struct FreshResponder {
    state: snow::HandshakeState,
}

/// A responder that has read the first message and is to answer it.
pub struct AnsweringResponder {
    state: snow::HandshakeState,
}

/// An initiator that has not written the first message yet.
pub struct FreshInitiator {
    state: snow::HandshakeState,
}

/// An initiator that has written the first message and waits for the answer.
pub struct WaitingInitiator {
    state: snow::HandshakeState,
}

/// A handshake whose two messages have been written and read.
pub struct FinishedHandshake {
    state: snow::HandshakeState,
}

/// Calls `Builder::new(protocol.parse())`, `local_private_key(private_key)` and
/// `build_responder`. Trusted: nothing is stated of the result; `None` when a
/// call fails. A private key longer than 32 bytes would make the builder panic,
/// and is left out.
#[verifier::external_body]
fn noise_build_responder(protocol: &str, private_key: &[u8]) -> (r: Option<FreshResponder>)
    requires
        protocol@ == NOISE_PROTOCOL@,
        private_key@.len() <= NOISE_KEY_LEN,
{
    let params: snow::params::NoiseParams = protocol.parse().ok()?;
    let state = snow::Builder::new(params).local_private_key(private_key).ok()?.build_responder().ok()?;
    Some(FreshResponder { state })
}

/// Calls `Builder::new(protocol.parse()).generate_keypair()` and returns the
/// private key. Trusted: an X25519 private key is 32 bytes long; the key itself is
/// drawn at random. `None` when a call fails.
#[verifier::external_body]
fn noise_generate_private_key(protocol: &str) -> (r: Option<Vec<u8>>)
    requires
        protocol@ == NOISE_PROTOCOL@,
    ensures
        r matches Some(k) ==> k@.len() == NOISE_KEY_LEN,
{
    let params: snow::params::NoiseParams = protocol.parse().ok()?;
    Some(snow::Builder::new(params).generate_keypair().ok()?.private)
}

/// Calls `Builder::new(protocol.parse())`, `local_private_key`,
/// `remote_public_key` and `build_initiator`. Trusted: nothing is stated of the
/// result; `None` when a call fails. Keys longer than the builder copies (32 and
/// 56 bytes) would make it panic, and are left out.
#[verifier::external_body]
fn noise_build_initiator(
    protocol: &str,
    local_private_key: &[u8],
    remote_public_key: &[u8],
) -> (r: Option<FreshInitiator>)
    requires
        protocol@ == NOISE_PROTOCOL@,
        local_private_key@.len() <= NOISE_KEY_LEN,
        remote_public_key@.len() <= NOISE_MAX_REMOTE_KEY_LEN,
{
    let params: snow::params::NoiseParams = protocol.parse().ok()?;
    let state = snow::Builder::new(params)
        .local_private_key(local_private_key).ok()?
        .remote_public_key(remote_public_key).ok()?
        .build_initiator().ok()?;
    Some(FreshInitiator { state })
}

/// Calls `HandshakeState::read_message` on a fresh responder. Trusted, from the
/// source of the version used: the first message of the pattern NN is the
/// initiator's 32-byte ephemeral key followed by the payload in the clear, so
/// reading succeeds exactly when the message holds the key, is at most 65535
/// bytes long and its payload fits in `payload`, and the front of `payload` then
/// holds the bytes after the key.
#[verifier::external_body]
fn noise_responder_read(
    hs: FreshResponder,
    message: &[u8],
    payload: &mut [u8],
) -> (r: Option<(AnsweringResponder, usize)>)
    ensures
        final(payload)@.len() == old(payload)@.len(),
        r is Some <==> (NOISE_KEY_LEN <= message@.len() <= NOISE_MAX_MESSAGE_LEN && message@.len()
            <= NOISE_KEY_LEN + old(payload)@.len()),
        r matches Some((_, n)) ==> n + NOISE_KEY_LEN == message@.len() && final(payload)@.take(
            n as int,
        ) == message@.skip(NOISE_KEY_LEN as int),
{
    let mut state = hs.state;
    match state.read_message(message, payload) {
        Ok(n) => Some((AnsweringResponder { state }, n)),
        Err(_) => None,
    }
}

/// Calls `HandshakeState::write_message` on a responder that has read the first
/// message. Trusted, from the source of the version used: the answer of the
/// pattern NN is the responder's 32-byte ephemeral key followed by the sealed
/// payload (the payload and a 16-byte tag); writing fails when that would not
/// fit in `message` or be longer than 65535 bytes. The ephemeral key is drawn at
/// random, and `None` also comes when drawing fails.
#[verifier::external_body]
fn noise_responder_write(
    hs: AnsweringResponder,
    payload: &[u8],
    message: &mut [u8],
) -> (r: Option<(FinishedHandshake, usize)>)
    ensures
        final(message)@.len() == old(message)@.len(),
        (NOISE_KEY_LEN + payload@.len() + NOISE_TAG_LEN > old(message)@.len() || NOISE_KEY_LEN
            + payload@.len() + NOISE_TAG_LEN > NOISE_MAX_MESSAGE_LEN) ==> r is None,
        r matches Some((_, n)) ==> n == NOISE_KEY_LEN + payload@.len() + NOISE_TAG_LEN,
{
    let mut state = hs.state;
    match state.write_message(payload, message) {
        Ok(n) => Some((FinishedHandshake { state }, n)),
        Err(_) => None,
    }
}

/// Calls `HandshakeState::write_message` on a fresh initiator. Trusted, from the
/// source of the version used: the first message of the pattern NN is the
/// initiator's 32-byte ephemeral key followed by the payload in the clear;
/// writing fails when the message and a 16-byte tag would not fit in `message`, or
/// when the message would be longer than 65535 bytes. The ephemeral key is drawn
/// at random, and `None` also comes when drawing fails.
#[verifier::external_body]
fn noise_initiator_write(
    hs: FreshInitiator,
    payload: &[u8],
    message: &mut [u8],
) -> (r: Option<(WaitingInitiator, usize)>)
    ensures
        final(message)@.len() == old(message)@.len(),
        (NOISE_KEY_LEN + payload@.len() + NOISE_TAG_LEN > old(message)@.len() || NOISE_KEY_LEN
            + payload@.len() > NOISE_MAX_MESSAGE_LEN) ==> r is None,
        r matches Some((_, n)) ==> n == NOISE_KEY_LEN + payload@.len() && final(message)@.subrange(
            NOISE_KEY_LEN as int,
            n as int,
        ) == payload@,
{
    let mut state = hs.state;
    match state.write_message(payload, message) {
        Ok(n) => Some((WaitingInitiator { state }, n)),
        Err(_) => None,
    }
}

/// Calls `HandshakeState::read_message` on an initiator that waits for the
/// answer. Trusted, from the source of the version used: the answer of the pattern
/// NN is the responder's 32-byte ephemeral key followed by the sealed payload, so
/// reading fails on a message shorter than the key and a 16-byte tag, longer than
/// 65535 bytes, or whose payload would not fit in `payload`; on success the
/// payload is the message's length less the key and the tag. Whether the payload
/// opens depends on the keys drawn, and is not stated.
#[verifier::external_body]
fn noise_initiator_read(
    hs: WaitingInitiator,
    message: &[u8],
    payload: &mut [u8],
) -> (r: Option<(FinishedHandshake, usize)>)
    ensures
        final(payload)@.len() == old(payload)@.len(),
        (message@.len() < NOISE_KEY_LEN + NOISE_TAG_LEN || message@.len() > NOISE_MAX_MESSAGE_LEN
            || message@.len() > NOISE_KEY_LEN + NOISE_TAG_LEN + old(payload)@.len()) ==> r is None,
        r matches Some((_, n)) ==> n + NOISE_KEY_LEN + NOISE_TAG_LEN == message@.len(),
{
    let mut state = hs.state;
    match state.read_message(message, payload) {
        Ok(n) => Some((FinishedHandshake { state }, n)),
        Err(_) => None,
    }
}

/// Calls `HandshakeState::into_stateless_transport_mode` on a finished handshake.
/// Trusted, from the source of the version used: the conversion fails only on a
/// handshake that is not finished, so it succeeds here.
#[verifier::external_body]
fn noise_into_transport(hs: FinishedHandshake) -> (r: Option<snow::StatelessTransportState>)
    ensures
        r is Some,
{
    hs.state.into_stateless_transport_mode().ok()
}

/// The server's side of the handshake: reads the client's first message with the
/// server's `private_key` and answers it with `greeting`. Returns the answer to
/// send, the server's 32-byte ephemeral key followed by the sealed greeting, and
/// the transport for the datagrams. Fails with `Unknown` on a first message
/// shorter than the client's ephemeral key or whose payload does not fit in the
/// handshake buffer, on a greeting whose answer does not fit in it, and when
/// Noise fails.
pub fn server_handshake(private_key: &[u8], first_message: &[u8], greeting: &[u8]) -> (r: Result<
    (Vec<u8>, snow::StatelessTransportState),
    Error,
>)
    requires
        private_key@.len() <= NOISE_KEY_LEN,
    ensures
        first_message@.len() < NOISE_KEY_LEN ==> r is Err,
        first_message@.len() > NOISE_KEY_LEN + HANDSHAKE_BUFFER_LEN ==> r is Err,
        NOISE_KEY_LEN + greeting@.len() + NOISE_TAG_LEN > HANDSHAKE_BUFFER_LEN ==> r is Err,
        r matches Ok((answer, _)) ==> answer@.len() == NOISE_KEY_LEN + greeting@.len()
            + NOISE_TAG_LEN,
        r matches Err(e) ==> e is Unknown,
{
    let responder = match noise_build_responder(NOISE_PROTOCOL, private_key) {
        Some(hs) => hs,
        None => return Err(Error::Unknown("Failed to build the Noise responder.".to_owned())),
    };
    let mut payload: Vec<u8> = vec![0u8; HANDSHAKE_BUFFER_LEN];
    let answering = match noise_responder_read(responder, first_message, payload.as_mut_slice()) {
        Some((hs, _)) => hs,
        None => return Err(Error::Unknown("Failed to read the first handshake message.".to_owned())),
    };
    let mut answer: Vec<u8> = vec![0u8; HANDSHAKE_BUFFER_LEN];
    let (finished, n) = match noise_responder_write(answering, greeting, answer.as_mut_slice()) {
        Some(written) => written,
        None => return Err(Error::Unknown("Failed to write the handshake answer.".to_owned())),
    };
    answer.truncate(n);
    match noise_into_transport(finished) {
        Some(transport) => Ok((answer, transport)),
        None => Err(Error::Unknown("Failed to finish the handshake.".to_owned())),
    }
}

/// The client's side of the handshake, first half: draws the client's static key,
/// builds the initiator for the server's public key and writes the first message
/// carrying `greeting`. Returns the waiting initiator and the first message, the
/// client's 32-byte ephemeral key followed by the greeting in the clear. Fails
/// with `Unknown` on a greeting whose message does not fit in the handshake
/// buffer, and when Noise fails.
pub fn client_handshake_start(server_public_key: &[u8], greeting: &[u8]) -> (r: Result<
    (WaitingInitiator, Vec<u8>),
    Error,
>)
    requires
        server_public_key@.len() <= NOISE_MAX_REMOTE_KEY_LEN,
    ensures
        NOISE_KEY_LEN + greeting@.len() + NOISE_TAG_LEN > HANDSHAKE_BUFFER_LEN ==> r is Err,
        r matches Ok((_, message)) ==> message@.len() == NOISE_KEY_LEN + greeting@.len()
            && message@.skip(NOISE_KEY_LEN as int) == greeting@,
        r matches Err(e) ==> e is Unknown,
{
    let private_key = match noise_generate_private_key(NOISE_PROTOCOL) {
        Some(k) => k,
        None => return Err(Error::Unknown("Failed to generate the client key.".to_owned())),
    };
    let initiator = match noise_build_initiator(NOISE_PROTOCOL, private_key.as_slice(), server_public_key) {
        Some(hs) => hs,
        None => return Err(Error::Unknown("Failed to build the Noise initiator.".to_owned())),
    };
    let mut message: Vec<u8> = vec![0u8; HANDSHAKE_BUFFER_LEN];
    let (waiting, n) = match noise_initiator_write(initiator, greeting, message.as_mut_slice()) {
        Some(written) => written,
        None => return Err(Error::Unknown("Failed to write the first handshake message.".to_owned())),
    };
    let ghost written = message@;
    message.truncate(n);
    proof {
        assert(message@.skip(NOISE_KEY_LEN as int) =~= written.subrange(NOISE_KEY_LEN as int, n as int));
    }
    Ok((waiting, message))
}

/// The client's side of the handshake, second half: reads the server's answer
/// and returns the transport for the datagrams. Fails with `Unknown` on an answer
/// shorter than the server's ephemeral key and a tag, or whose payload does not
/// fit in the handshake buffer, and when Noise fails (an answer that does not
/// open among others).
pub fn client_handshake_finish(hs: WaitingInitiator, answer: &[u8]) -> (r: Result<
    snow::StatelessTransportState,
    Error,
>)
    ensures
        answer@.len() < NOISE_KEY_LEN + NOISE_TAG_LEN ==> r is Err,
        answer@.len() > NOISE_KEY_LEN + NOISE_TAG_LEN + HANDSHAKE_BUFFER_LEN ==> r is Err,
        r matches Err(e) ==> e is Unknown,
{
    let mut payload: Vec<u8> = vec![0u8; HANDSHAKE_BUFFER_LEN];
    let finished = match noise_initiator_read(hs, answer, payload.as_mut_slice()) {
        Some((finished, _)) => finished,
        None => return Err(Error::Unknown("Failed to read the handshake answer.".to_owned())),
    };
    match noise_into_transport(finished) {
        Some(transport) => Ok(transport),
        None => Err(Error::Unknown("Failed to finish the handshake.".to_owned())),
    }
}

} // verus!
