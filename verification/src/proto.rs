//! A prototype of UDP tunnelling over the Noise protocol: datagrams are sealed
//! with a stateless Noise transport, each direction counting its own nonces, and
//! keys are given on the command line as hexadecimal text.
use vstd::prelude::*;
use vstd::string::*;
use vstd::utf8::{
    encode_utf8_valid_utf8, is_char_boundary, is_char_boundary_iff_not_is_continuation_byte,
    is_char_boundary_start_end_of_seq, is_continuation_byte, valid_utf8, valid_utf8_split,
};

use std::sync::Arc;

use crate::error::Error;

verus! {

/// The Noise protocol of the prototype.
pub const NOISE_PROTOCOL: &'static str = "Noise_NN_25519_ChaChaPoly_BLAKE2s";

/// Length of the authentication tag that sealing adds to a payload.
pub const NOISE_TAG_LEN: usize = 16;

/// The stateless transport of a finished Noise handshake.
#[verifier::external_type_specification]
#[verifier::external_body]
pub struct ExStatelessTransportState(snow::StatelessTransportState);

/// The error of a failed integer parse.
#[verifier::external_type_specification]
#[verifier::external_body]
pub struct ExParseIntError(std::num::ParseIntError);

/// The sealed message that `transport` makes of `payload` under `nonce`: the
/// payload encrypted with the transport's sending key, followed by its 16-byte
/// tag; `None` where the transport refuses to seal (a one-way pattern's responder,
/// a missing key, the reserved nonce).
pub uninterp spec fn noise_sealed(
    transport: snow::StatelessTransportState,
    nonce: u64,
    payload: Seq<u8>,
) -> Option<Seq<u8>>;

/// The payload that `transport` opens out of the sealed `message` under `nonce`;
/// `None` where the message does not open (a wrong key or nonce, a forged or
/// altered message, a one-way pattern's initiator, the reserved nonce).
pub uninterp spec fn noise_opened(
    transport: snow::StatelessTransportState,
    nonce: u64,
    message: Seq<u8>,
) -> Option<Seq<u8>>;

/// Largest message that Noise carries.
pub const NOISE_MAX_MESSAGE_LEN: usize = 65535;

/// Calls `StatelessTransportState::write_message`: seals `payload` with `nonce`
/// into `message`. Trusted, from the source of the version used: sealing fails
/// when the sealed message (the payload's length plus the 16-byte tag) would be
/// longer than `message` or than 65535 bytes; otherwise it succeeds exactly when
/// the transport seals at all (`noise_sealed`), and then the front of `message`
/// holds the sealed message, whose length it returns. The reserved nonce
/// `u64::MAX` is refused. `None` when it fails.
#[verifier::external_body]
fn noise_write_message(
    transport: &snow::StatelessTransportState,
    nonce: u64,
    payload: &[u8],
    message: &mut [u8],
) -> (r: Option<usize>)
    ensures
        final(message)@.len() == old(message)@.len(),
        r matches Some(n) ==> n == payload@.len() + NOISE_TAG_LEN && n <= old(message)@.len()
            && noise_sealed(*transport, nonce, payload@) == Some(final(message)@.take(n as int)),
        (payload@.len() + NOISE_TAG_LEN > old(message)@.len() || payload@.len() + NOISE_TAG_LEN
            > NOISE_MAX_MESSAGE_LEN) ==> r is None,
        (payload@.len() + NOISE_TAG_LEN <= old(message)@.len() && payload@.len() + NOISE_TAG_LEN
            <= NOISE_MAX_MESSAGE_LEN) ==> (r is Some <==> noise_sealed(*transport, nonce, payload@)
            is Some),
        nonce == u64::MAX ==> r is None,
{
    transport.write_message(nonce, payload, message).ok()
}

/// Calls `StatelessTransportState::read_message`: opens the sealed `message` with
/// `nonce` into `payload`. Trusted, from the source of the version used: opening
/// fails on a message longer than 65535 bytes, shorter than the 16-byte tag, or
/// whose payload would not fit in `payload`; otherwise it succeeds exactly when
/// the message opens (`noise_opened`), and then the front of `payload` holds the
/// opened payload, the message's length less the tag, whose length it returns.
/// The reserved nonce `u64::MAX` is refused. `None` when it fails.
#[verifier::external_body]
fn noise_read_message(
    transport: &snow::StatelessTransportState,
    nonce: u64,
    message: &[u8],
    payload: &mut [u8],
) -> (r: Option<usize>)
    ensures
        final(payload)@.len() == old(payload)@.len(),
        r matches Some(n) ==> n + NOISE_TAG_LEN == message@.len() && n <= old(payload)@.len()
            && noise_opened(*transport, nonce, message@) == Some(final(payload)@.take(n as int)),
        (message@.len() < NOISE_TAG_LEN || message@.len() > NOISE_MAX_MESSAGE_LEN
            || message@.len() > old(payload)@.len() + NOISE_TAG_LEN) ==> r is None,
        (NOISE_TAG_LEN <= message@.len() <= NOISE_MAX_MESSAGE_LEN && message@.len()
            <= old(payload)@.len() + NOISE_TAG_LEN) ==> (r is Some <==> noise_opened(
            *transport,
            nonce,
            message@,
        ) is Some),
        nonce == u64::MAX ==> r is None,
{
    transport.read_message(nonce, message, payload).ok()
}

/// The sending side of a transport: seals each payload with the next nonce.
pub struct WriteState {
    transport: Arc<snow::StatelessTransportState>,
    nonce: u64,
}

/// The receiving side of a transport: opens each message with the next nonce.
pub struct ReadState {
    transport: Arc<snow::StatelessTransportState>,
    nonce: u64,
}

impl WriteState {
    /// The transport whose keys this side uses.
    pub closed spec fn spec_transport(&self) -> Arc<snow::StatelessTransportState> {
        self.transport
    }

    /// Nonce of the last sealed payload; 0 before the first.
    pub closed spec fn spec_nonce(&self) -> u64 {
        self.nonce
    }

    /// Nonce of the last sealed payload; 0 before the first.
    pub fn nonce(&self) -> (r: u64)
        ensures
            r == self.spec_nonce(),
    {
        self.nonce
    }

    /// The sending side of `transport`, before any payload.
    pub fn new(transport: Arc<snow::StatelessTransportState>) -> (r: Self)
        ensures
            r.spec_transport() == transport,
            r.spec_nonce() == 0,
    {
        WriteState { transport, nonce: 0 }
    }

    /// Seals `payload` into `message` with the next nonce and returns the length of
    /// the sealed message: the payload's plus the 16-byte tag. The nonce moves on
    /// whether or not sealing succeeds, so no nonce is used twice. Fails with
    /// `Unknown` when sealing fails: when the sealed message would not fit in
    /// `message` or be longer than 65535 bytes, or when the transport refuses.
    pub fn encrypt_payload(&mut self, payload: &[u8], message: &mut [u8]) -> (r: Result<usize, Error>)
        requires
            old(self).spec_nonce() < u64::MAX,
        ensures
            final(self).spec_transport() == old(self).spec_transport(),
            final(self).spec_nonce() == old(self).spec_nonce() + 1,
            final(message)@.len() == old(message)@.len(),
            r matches Ok(n) ==> n == payload@.len() + NOISE_TAG_LEN && n <= old(message)@.len()
                && noise_sealed(*old(self).spec_transport(), final(self).spec_nonce(), payload@)
                == Some(final(message)@.take(n as int)),
            r is Ok <==> (payload@.len() + NOISE_TAG_LEN <= old(message)@.len()
                && payload@.len() + NOISE_TAG_LEN <= NOISE_MAX_MESSAGE_LEN && noise_sealed(
                *old(self).spec_transport(),
                final(self).spec_nonce(),
                payload@,
            ) is Some),
            r matches Err(e) ==> e is Unknown,
    {
        self.nonce = self.nonce + 1;
        match noise_write_message(&self.transport, self.nonce, payload, message) {
            Some(n) => Ok(n),
            None => Err(Error::Unknown("Failed to seal the payload.".to_owned())),
        }
    }
}

/// A sending side that seals `k` payloads in a row, from its first one on, uses
/// the nonces 1, 2, ..., k in that order, one per call whether or not sealing
/// succeeds: call `i` (counting from 0) seals under nonce `i + 1`, so no two calls
/// share a nonce, and the side ends at nonce `k`. `states[i]` is the side before
/// call `i`, and `states[k]` the side after the last call.
pub proof fn lemma_write_nonces_count_the_calls(states: Seq<WriteState>)
    requires
        states.len() >= 1,
        states[0].spec_nonce() == 0,
        forall|i: int|
            0 <= i < states.len() - 1 ==> #[trigger] states[i + 1].spec_nonce() == states[i].spec_nonce()
                + 1 && states[i + 1].spec_transport() == states[i].spec_transport(),
    ensures
        forall|i: int| 0 <= i < states.len() ==> #[trigger] states[i].spec_nonce() == i,
        forall|i: int, j: int|
            0 <= i < j < states.len() ==> #[trigger] states[i].spec_nonce() < #[trigger] states[j].spec_nonce(),
        forall|i: int| 0 <= i < states.len() ==> #[trigger] states[i].spec_transport() == states[0].spec_transport(),
    decreases states.len(),
{
    if states.len() > 1 {
        let prefix = states.drop_last();
        assert forall|i: int| 0 <= i < prefix.len() - 1 implies #[trigger] prefix[i + 1].spec_nonce()
            == prefix[i].spec_nonce() + 1 && prefix[i + 1].spec_transport() == prefix[i].spec_transport() by {
            assert(prefix[i + 1] == states[i + 1] && prefix[i] == states[i]);
        }
        lemma_write_nonces_count_the_calls(prefix);
        let last = states.len() - 1;
        assert(prefix[last - 1] == states[last - 1]);
        assert(states[last].spec_nonce() == states[last - 1].spec_nonce() + 1);
        assert forall|i: int| 0 <= i < states.len() implies #[trigger] states[i].spec_nonce() == i by {
            if i < last {
                assert(prefix[i] == states[i]);
            }
        }
        assert forall|i: int| 0 <= i < states.len() implies #[trigger] states[i].spec_transport()
            == states[0].spec_transport() by {
            if i < last {
                assert(prefix[i] == states[i]);
            } else {
                assert(prefix[i - 1] == states[i - 1]);
            }
        }
    }
}

impl ReadState {
    /// The transport whose keys this side uses.
    pub closed spec fn spec_transport(&self) -> Arc<snow::StatelessTransportState> {
        self.transport
    }

    /// Nonce of the last opened message; 0 before the first.
    pub closed spec fn spec_nonce(&self) -> u64 {
        self.nonce
    }

    /// Nonce of the last opened message; 0 before the first.
    pub fn nonce(&self) -> (r: u64)
        ensures
            r == self.spec_nonce(),
    {
        self.nonce
    }

    /// The receiving side of `transport`, before any message.
    pub fn new(transport: Arc<snow::StatelessTransportState>) -> (r: Self)
        ensures
            r.spec_transport() == transport,
            r.spec_nonce() == 0,
    {
        ReadState { transport, nonce: 0 }
    }

    /// Opens `message` into `payload` with the next nonce and returns the length of
    /// the payload: the message's less the 16-byte tag. The nonce moves on whether
    /// or not opening succeeds. Fails with `Unknown` when opening fails: when the
    /// message is shorter than the tag or longer than 65535 bytes, when its payload
    /// would not fit in `payload`, or when it does not open under that nonce.
    pub fn decrypt_message(&mut self, message: &[u8], payload: &mut [u8]) -> (r: Result<usize, Error>)
        requires
            old(self).spec_nonce() < u64::MAX,
        ensures
            final(self).spec_transport() == old(self).spec_transport(),
            final(self).spec_nonce() == old(self).spec_nonce() + 1,
            final(payload)@.len() == old(payload)@.len(),
            r matches Ok(n) ==> n + NOISE_TAG_LEN == message@.len() && n <= old(payload)@.len()
                && noise_opened(*old(self).spec_transport(), final(self).spec_nonce(), message@)
                == Some(final(payload)@.take(n as int)),
            r is Ok <==> (NOISE_TAG_LEN <= message@.len() <= NOISE_MAX_MESSAGE_LEN
                && message@.len() <= old(payload)@.len() + NOISE_TAG_LEN && noise_opened(
                *old(self).spec_transport(),
                final(self).spec_nonce(),
                message@,
            ) is Some),
            r matches Err(e) ==> e is Unknown,
    {
        self.nonce = self.nonce + 1;
        match noise_read_message(&self.transport, self.nonce, message, payload) {
            Some(n) => Ok(n),
            None => Err(Error::Unknown("Failed to open the message.".to_owned())),
        }
    }
}

/// Value of an ASCII hexadecimal digit (either case).
pub open spec fn spec_hex_digit(b: u8) -> Option<u8> {
    if 48 <= b <= 57 {
        Some((b - 48) as u8)
    } else if 97 <= b <= 102 {
        Some((b - 87) as u8)
    } else if 65 <= b <= 70 {
        Some((b - 55) as u8)
    } else {
        None
    }
}

/// Value of a two-byte text read as a base-16 number: two digits, or a `+` sign
/// and one digit; `None` for anything else.
pub open spec fn spec_hex_pair(b0: u8, b1: u8) -> Option<u8> {
    if b0 == 43 {
        spec_hex_digit(b1)
    } else {
        match (spec_hex_digit(b0), spec_hex_digit(b1)) {
            (Some(h), Some(l)) => Some((16 * h + l) as u8),
            _ => None,
        }
    }
}

/// Calls `u8::from_str_radix(pair, 16)` on a two-byte text. Trusted: the standard
/// library documents that the text is an optional `+` sign followed by digits of
/// the radix (`0-9`, `a-f`, `A-F` here), anything else being an error; two
/// hexadecimal digits always fit in a `u8`.
#[verifier::external_body]
fn parse_hex_pair(pair: &str) -> (r: Result<u8, std::num::ParseIntError>)
    requires
        pair.spec_bytes().len() == 2,
    ensures
        match spec_hex_pair(pair.spec_bytes()[0], pair.spec_bytes()[1]) {
            Some(v) => r matches Ok(x) && x == v,
            None => r is Err,
        },
{
    u8::from_str_radix(pair, 16)
}

/// What `decode_hex` gives for the UTF-8 bytes `b` of its text from position `i`
/// on, two bytes at a time: `Some(Some(bytes))` for the decoded bytes,
/// `Some(None)` when a pair is not a base-16 number, and `None` where a pair would
/// reach past the end of the text or end inside a character.
pub open spec fn spec_decode_hex_from(b: Seq<u8>, i: nat) -> Option<Option<Seq<u8>>>
    decreases b.len() - i,
{
    if i >= b.len() {
        Some(Some(Seq::empty()))
    } else if i + 2 > b.len() || (i + 2 < b.len() && is_continuation_byte(b[i + 2int])) {
        None
    } else {
        match spec_hex_pair(b[i as int], b[i + 1int]) {
            None => Some(None),
            Some(v) => match spec_decode_hex_from(b, i + 2) {
                Some(Some(rest)) => Some(Some(seq![v] + rest)),
                other => other,
            },
        }
    }
}

/// Value of a hexadecimal digit byte.
fn hex_digit(b: u8) -> (r: Option<u8>)
    ensures
        r == spec_hex_digit(b),
{
    if 48 <= b && b <= 57 {
        Some(b - 48)
    } else if 97 <= b && b <= 102 {
        Some(b - 87)
    } else if 65 <= b && b <= 70 {
        Some(b - 55)
    } else {
        None
    }
}

/// Value of a two-byte base-16 number, as `spec_hex_pair`.
fn hex_pair(b0: u8, b1: u8) -> (r: Option<u8>)
    ensures
        r == spec_hex_pair(b0, b1),
{
    if b0 == 43 {
        hex_digit(b1)
    } else {
        match (hex_digit(b0), hex_digit(b1)) {
            (Some(h), Some(l)) => Some(16 * h + l),
            _ => None,
        }
    }
}

/// Whether `decode_hex` reads `value` within its bounds: no pair it reads reaches
/// past the end of the text or ends inside a character.
pub fn decode_hex_is_defined(value: &str) -> (r: bool)
    ensures
        r == spec_decode_hex_from(value.spec_bytes(), 0) is Some,
{
    let bytes = value.as_bytes();
    let ghost b = value.spec_bytes();
    let len = bytes.len();
    let mut i: usize = 0;
    while i < len
        invariant
            bytes@ == b,
            b == value.spec_bytes(),
            len == b.len(),
            i <= len,
            (spec_decode_hex_from(b, 0) is Some) == (spec_decode_hex_from(b, i as nat) is Some),
        decreases len - i,
    {
        if len - i < 2 {
            assert(spec_decode_hex_from(b, i as nat) is None);
            return false;
        }
        if i + 2 < len && 0x80 <= bytes[i + 2] && bytes[i + 2] <= 0xbf {
            assert(is_continuation_byte(b[i + 2int]));
            assert(spec_decode_hex_from(b, i as nat) is None);
            return false;
        }
        if hex_pair(bytes[i], bytes[i + 1]).is_none() {
            return true;
        }
        i = i + 2;
    }
    true
}

/// Decodes hexadecimal text, two characters per byte. Fails with the parse error
/// of the first pair that is not a base-16 number.
pub fn decode_hex(value: &str) -> (r: Result<Vec<u8>, std::num::ParseIntError>)
    requires
        spec_decode_hex_from(value.spec_bytes(), 0) is Some,
    ensures
        match spec_decode_hex_from(value.spec_bytes(), 0) {
            Some(Some(bytes)) => r matches Ok(v) && v@ == bytes,
            _ => r is Err,
        },
{
    let ghost b = value.spec_bytes();
    proof {
        encode_utf8_valid_utf8(value@);
        is_char_boundary_start_end_of_seq(b);
    }
    let len = value.as_bytes().len();
    let mut out: Vec<u8> = Vec::new();
    let mut i: usize = 0;
    while i < len
        invariant
            b == value.spec_bytes(),
            valid_utf8(b),
            len == b.len(),
            i <= len,
            i < len ==> is_char_boundary(b, i as int),
            spec_decode_hex_from(b, i as nat) is Some,
            spec_decode_hex_from(b, 0) == match spec_decode_hex_from(b, i as nat) {
                Some(Some(rest)) => Some(Some(out@ + rest)),
                other => other,
            },
        decreases len - i,
    {
        let ghost j = (i + 2) as int;
        proof {
            if j < len {
                is_char_boundary_iff_not_is_continuation_byte(b, j);
            }
            is_char_boundary_start_end_of_seq(b);
        }
        let (head, _) = value.split_at(i + 2);
        let ghost hb = head.spec_bytes();
        proof {
            valid_utf8_split(b, j);
            assert(hb =~= b.subrange(0, j));
            if i > 0 {
                is_char_boundary_iff_not_is_continuation_byte(b, i as int);
                is_char_boundary_iff_not_is_continuation_byte(hb, i as int);
            }
        }
        let (_, pair) = head.split_at(i);
        assert(pair.spec_bytes() =~= seq![b[i as int], b[i + 1]]);
        match parse_hex_pair(pair) {
            Ok(v) => {
                let ghost before = out@;
                out.push(v);
                proof {
                    match spec_decode_hex_from(b, (i + 2) as nat) {
                        Some(Some(rest)) => {
                            assert(before + (seq![v] + rest) =~= out@ + rest);
                        },
                        _ => {},
                    }
                    if j < len {
                        is_char_boundary_iff_not_is_continuation_byte(b, j);
                    }
                }
            },
            Err(e) => {
                return Err(e);
            },
        }
        i = i + 2;
    }
    assert(out@ + Seq::<u8>::empty() =~= out@);
    Ok(out)
}

} // verus!
