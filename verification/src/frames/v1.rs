//! Version 1 of the tunnel wire format: the command frames sent on the first
//! stream of a tunnel, and the header that prefixes every tunnelled UDP datagram.
use vstd::prelude::*;
use vstd::string::*;
use vstd::utf8::encode_utf8;

use crate::error::Error;
use crate::net::{IpAddress, SocketAddress};
use crate::types::text::{is_short_identifier, lemma_utf8_roundtrip, spec_text_of};
use crate::types::{AuthKey, IngressId, ServerId};

verus! {

broadcast use vstd::array::group_array_axioms;

/// ALPN protocol name of version 1
/// (the ASCII text `siffleux/v1`).
pub const VERSION: [u8; 11] = [115u8, 105u8, 102u8, 102u8, 108u8, 101u8, 117u8, 120u8, 47u8, 118u8, 49u8];

pub const AUTH_TYPE: u8 = 0;

pub const AUTHENTICATED_TYPE: u8 = 1;

pub const PING_TYPE: u8 = 3;

pub const PONG_TYPE: u8 = 4;

/// Encoder and decoder of version 1 command frames.
pub struct CodecV1;

/// Identifier that the server gives to a tunnel: the 16 bytes of a UUID.
#[derive(Clone, Copy, Debug, PartialEq, Eq)]
pub struct TunnelId(pub [u8; 16]);

/// Big-endian eight-byte encoding of `n`.
pub open spec fn spec_u64_be(n: u64) -> Seq<u8> {
    seq![
        (n / 0x100_0000_0000_0000) as u8,
        ((n / 0x1_0000_0000_0000) % 256) as u8,
        ((n / 0x100_0000_0000) % 256) as u8,
        ((n / 0x1_0000_0000) % 256) as u8,
        ((n / 0x100_0000) % 256) as u8,
        ((n / 0x1_0000) % 256) as u8,
        ((n / 0x100) % 256) as u8,
        (n % 256) as u8,
    ]
}

impl TunnelId {
    /// The id of the tunnel numbered `n` by a server: eight zero bytes followed by
    /// `n` in big-endian order.
    pub fn from_counter(n: u64) -> (r: TunnelId)
        ensures
            r.0@ == Seq::new(8, |i: int| 0u8) + spec_u64_be(n),
    {
        let r = TunnelId(
            [
                0,
                0,
                0,
                0,
                0,
                0,
                0,
                0,
                (n / 0x100_0000_0000_0000) as u8,
                ((n / 0x1_0000_0000_0000) % 256) as u8,
                ((n / 0x100_0000_0000) % 256) as u8,
                ((n / 0x1_0000_0000) % 256) as u8,
                ((n / 0x100_0000) % 256) as u8,
                ((n / 0x1_0000) % 256) as u8,
                ((n / 0x100) % 256) as u8,
                (n % 256) as u8,
            ],
        );
        assert(r.0@ =~= Seq::new(8, |i: int| 0u8) + spec_u64_be(n));
        r
    }
}

/// A server numbers its tunnels with a counter: different numbers give different
/// tunnel ids.
pub proof fn lemma_tunnel_ids_from_counter_distinct(a: u64, b: u64)
    requires
        a != b,
    ensures
        Seq::new(8, |i: int| 0u8) + spec_u64_be(a) != Seq::new(8, |i: int| 0u8) + spec_u64_be(b),
{
    let za = Seq::new(8, |i: int| 0u8) + spec_u64_be(a);
    let zb = Seq::new(8, |i: int| 0u8) + spec_u64_be(b);
    if za == zb {
        assert(za[8] == zb[8] && za[9] == zb[9] && za[10] == zb[10] && za[11] == zb[11]);
        assert(za[12] == zb[12] && za[13] == zb[13] && za[14] == zb[14] && za[15] == zb[15]);
        // Each byte of the id is below 256, so equal bytes are equal digits.
        assert(a / 0x100_0000_0000_0000u64 == b / 0x100_0000_0000_0000u64);
        assert((a / 0x1_0000_0000_0000u64) % 256u64 == (b / 0x1_0000_0000_0000u64) % 256u64);
        assert((a / 0x100_0000_0000u64) % 256u64 == (b / 0x100_0000_0000u64) % 256u64);
        assert((a / 0x1_0000_0000u64) % 256u64 == (b / 0x1_0000_0000u64) % 256u64);
        assert((a / 0x100_0000u64) % 256u64 == (b / 0x100_0000u64) % 256u64);
        assert((a / 0x1_0000u64) % 256u64 == (b / 0x1_0000u64) % 256u64);
        assert((a / 0x100u64) % 256u64 == (b / 0x100u64) % 256u64);
        assert(a % 256u64 == b % 256u64);
        assert(a == b) by (bit_vector)
            requires
                a / 0x100_0000_0000_0000u64 == b / 0x100_0000_0000_0000u64,
                (a / 0x1_0000_0000_0000u64) % 256u64 == (b / 0x1_0000_0000_0000u64) % 256u64,
                (a / 0x100_0000_0000u64) % 256u64 == (b / 0x100_0000_0000u64) % 256u64,
                (a / 0x1_0000_0000u64) % 256u64 == (b / 0x1_0000_0000u64) % 256u64,
                (a / 0x100_0000u64) % 256u64 == (b / 0x100_0000u64) % 256u64,
                (a / 0x1_0000u64) % 256u64 == (b / 0x1_0000u64) % 256u64,
                (a / 0x100u64) % 256u64 == (b / 0x100u64) % 256u64,
                a % 256u64 == b % 256u64,
        ;
    }
}

/// The id of the tunnel numbered `n`, as `TunnelId::from_counter` makes it.
pub open spec fn spec_counter_id(n: u64) -> Seq<u8> {
    Seq::new(8, |i: int| 0u8) + spec_u64_be(n)
}

/// Numbers the tunnels of a server, one after the other, and hands out their
/// ids. It stops before its counter would wrap around, so that it never hands out
/// the same id twice.
pub struct TunnelIdCounter {
    next: u64,
    issued: Ghost<Set<Seq<u8>>>,
}

impl TunnelIdCounter {
    /// The ids handed out so far.
    pub closed spec fn spec_issued(&self) -> Set<Seq<u8>> {
        self.issued@
    }

    /// The number the next tunnel gets.
    pub closed spec fn spec_next(&self) -> u64 {
        self.next
    }

    /// The ids handed out are those of the numbers below the next one.
    pub closed spec fn well_formed(&self) -> bool {
        self.issued@ == Set::new(|id: Seq<u8>| exists|n: u64| n < self.next && id == #[trigger] spec_counter_id(n))
    }

    /// A counter that has handed out no id.
    pub fn new() -> (r: Self)
        ensures
            r.well_formed(),
            r.spec_next() == 0,
            r.spec_issued() == Set::<Seq<u8>>::empty(),
    {
        let r = TunnelIdCounter { next: 0, issued: Ghost(Set::empty()) };
        assert(r.issued@ =~= Set::new(|id: Seq<u8>| exists|n: u64| n < r.next && id == #[trigger] spec_counter_id(n)));
        r
    }

    /// Hands out the id of the next tunnel: one that was never handed out before.
    /// `None` once the counter is spent, after `u64::MAX` ids.
    pub fn next_id(&mut self) -> (r: Option<TunnelId>)
        requires
            old(self).well_formed(),
        ensures
            final(self).well_formed(),
            r is Some <==> old(self).spec_next() < u64::MAX,
            r matches Some(id) ==> id.0@ == spec_counter_id(old(self).spec_next())
                && !old(self).spec_issued().contains(id.0@)
                && final(self).spec_issued() == old(self).spec_issued().insert(id.0@)
                && final(self).spec_next() == old(self).spec_next() + 1,
            r is None ==> final(self).spec_issued() == old(self).spec_issued()
                && final(self).spec_next() == old(self).spec_next(),
    {
        if self.next == u64::MAX {
            return None;
        }
        let n = self.next;
        let id = TunnelId::from_counter(n);
        proof {
            let old_issued = self.issued@;
            assert(!old_issued.contains(id.0@)) by {
                if old_issued.contains(id.0@) {
                    let m = choose|m: u64| m < n && id.0@ == #[trigger] spec_counter_id(m);
                    lemma_tunnel_ids_from_counter_distinct(m, n);
                }
            }
            let new_issued = old_issued.insert(id.0@);
            assert(new_issued =~= Set::new(|x: Seq<u8>| exists|m: u64| m < n + 1 && x == #[trigger] spec_counter_id(m))) by {
                assert forall|x: Seq<u8>| new_issued.contains(x) implies exists|m: u64| m < n + 1 && x == #[trigger] spec_counter_id(m) by {
                    if x == id.0@ {
                        assert(x == spec_counter_id(n));
                    } else {
                        let m = choose|m: u64| m < n && x == #[trigger] spec_counter_id(m);
                        assert(m < n + 1 && x == spec_counter_id(m));
                    }
                }
                assert forall|x: Seq<u8>| (exists|m: u64| m < n + 1 && x == #[trigger] spec_counter_id(m)) implies new_issued.contains(x) by {
                    let m = choose|m: u64| m < n + 1 && x == #[trigger] spec_counter_id(m);
                    if m < n {
                        assert(old_issued.contains(x));
                    } else {
                        assert(m == n);
                    }
                }
            }
        }
        self.next = n + 1;
        self.issued = Ghost(self.issued@.insert(id.0@));
        Some(id)
    }
}

/// A command frame.
#[derive(Debug)]
pub enum FrameV1 {
    Auth { auth_key: AuthKey, ingress_id: IngressId },
    Authenticated { tunnel_id: TunnelId, server_id: ServerId },
    Ping,
    Pong,
}

/// The content of a command frame.
pub enum FrameModel {
    Auth { auth_key: Seq<char>, ingress_id: Seq<char> },
    Authenticated { tunnel_id: Seq<u8>, server_id: Seq<char> },
    Ping,
    Pong,
}

impl View for FrameV1 {
    type V = FrameModel;

    open spec fn view(&self) -> FrameModel {
        match self {
            FrameV1::Auth { auth_key, ingress_id } => FrameModel::Auth {
                auth_key: auth_key@,
                ingress_id: ingress_id@,
            },
            FrameV1::Authenticated { tunnel_id, server_id } => FrameModel::Authenticated {
                tunnel_id: tunnel_id.0@,
                server_id: server_id@,
            },
            FrameV1::Ping => FrameModel::Ping,
            FrameV1::Pong => FrameModel::Pong,
        }
    }
}

/// A frame whose fields respect the limits of their types.
pub open spec fn spec_frame_well_formed(f: FrameModel) -> bool {
    match f {
        FrameModel::Auth { auth_key, ingress_id } => is_short_identifier(auth_key)
            && is_short_identifier(ingress_id),
        FrameModel::Authenticated { tunnel_id, server_id } => tunnel_id.len() == 16
            && is_short_identifier(server_id),
        _ => true,
    }
}

/// Big-endian two-byte encoding of `n`.
pub open spec fn spec_u16_be(n: nat) -> Seq<u8> {
    seq![(n / 256) as u8, (n % 256) as u8]
}

/// The bytes of a frame: a type byte; for `Auth` and `Authenticated`, a big-endian
/// payload length and a payload made of length-prefixed UTF-8 fields (and the
/// 16 bytes of the tunnel id).
pub open spec fn spec_encode_frame(f: FrameModel) -> Seq<u8> {
    match f {
        FrameModel::Auth { auth_key, ingress_id } => {
            let k = encode_utf8(auth_key);
            let i = encode_utf8(ingress_id);
            seq![AUTH_TYPE] + spec_u16_be(1 + k.len() + 1 + i.len()) + seq![k.len() as u8] + k
                + seq![i.len() as u8] + i
        },
        FrameModel::Authenticated { tunnel_id, server_id } => {
            let s = encode_utf8(server_id);
            seq![AUTHENTICATED_TYPE] + spec_u16_be(1 + s.len() + 16) + seq![s.len() as u8] + s
                + tunnel_id
        },
        FrameModel::Ping => seq![PING_TYPE],
        FrameModel::Pong => seq![PONG_TYPE],
    }
}

/// What decoding a buffer gives.
pub enum DecodeOutcome {
    /// No frame yet: the buffer is empty, holds less than the length it announces,
    /// or starts with an unknown type byte.
    Incomplete,
    /// A frame.
    Frame(FrameModel),
    /// The auth key field of an `Auth` frame is not a valid auth key.
    InvalidAuthKey,
    /// The ingress id field of an `Auth` frame is not a valid ingress id.
    InvalidIngressId,
    /// The server id field of an `Authenticated` frame is not a valid server id.
    InvalidServerId,
    /// Any other error.
    Failed,
}

/// The payload length announced by the header of an `Auth` or `Authenticated` frame.
pub open spec fn spec_announced_len(s: Seq<u8>) -> nat {
    s[1] as nat * 256 + s[2] as nat
}

/// The buffer holds at least as many bytes as its header announces.
pub open spec fn spec_announced_len_reached(s: Seq<u8>) -> bool {
    s.len() >= 3 + spec_announced_len(s)
}

/// The decoder reads its fields without running past the end of the buffer: the
/// header of an `Auth` or `Authenticated` frame is there, and once the announced
/// length is reached, every length-prefixed field lies within the buffer.
pub open spec fn spec_decode_defined(s: Seq<u8>) -> bool {
    if s.len() == 0 {
        true
    } else if s[0] == AUTH_TYPE {
        s.len() >= 3 && (!spec_announced_len_reached(s) || (s.len() >= 5 + s[3] && s.len() >= 5
            + s[3] + s[4 + s[3] as int]))
    } else if s[0] == AUTHENTICATED_TYPE {
        s.len() >= 3 && (!spec_announced_len_reached(s) || (s.len() >= 4 && s.len() >= 20
            + s[3]))
    } else {
        true
    }
}

/// Whether the decoder reads `src` within its bounds (see `spec_decode_defined`).
pub fn decode_is_defined(src: &[u8]) -> (r: bool)
    ensures
        r == spec_decode_defined(src@),
{
    let n = src.len();
    if n == 0 {
        return true;
    }
    let t = src[0];
    if t == AUTH_TYPE {
        if n < 3 {
            return false;
        }
        let announced = (src[1] as usize) * 256 + (src[2] as usize);
        if n < 3 + announced {
            return true;
        }
        if n < 5 || n < 5 + (src[3] as usize) {
            return false;
        }
        let kl = src[3] as usize;
        n >= 5 + kl + (src[4 + kl] as usize)
    } else if t == AUTHENTICATED_TYPE {
        if n < 3 {
            return false;
        }
        let announced = (src[1] as usize) * 256 + (src[2] as usize);
        if n < 3 + announced {
            return true;
        }
        n >= 4 && n >= 20 + (src[3] as usize)
    } else {
        true
    }
}

/// What decoding the buffer `s` gives, and how many bytes of it the decoder consumes.
pub open spec fn spec_decode_frame(s: Seq<u8>) -> (DecodeOutcome, nat) {
    if s.len() == 0 {
        (DecodeOutcome::Incomplete, 0)
    } else if s[0] == AUTH_TYPE {
        if !spec_announced_len_reached(s) {
            (DecodeOutcome::Incomplete, 0)
        } else {
            let kl = s[3] as int;
            let key = spec_text_of(s.subrange(4, 4 + kl));
            let il = s[4 + kl] as int;
            let id = spec_text_of(s.subrange(5 + kl, 5 + kl + il));
            let n = (5 + kl + il) as nat;
            if !(key matches Some(k) && is_short_identifier(k)) {
                (DecodeOutcome::InvalidAuthKey, n)
            } else if !(id matches Some(i) && is_short_identifier(i)) {
                (DecodeOutcome::InvalidIngressId, n)
            } else {
                (
                    DecodeOutcome::Frame(
                        FrameModel::Auth { auth_key: key->Some_0, ingress_id: id->Some_0 },
                    ),
                    n,
                )
            }
        }
    } else if s[0] == AUTHENTICATED_TYPE {
        if !spec_announced_len_reached(s) {
            (DecodeOutcome::Incomplete, 0)
        } else {
            let sl = s[3] as int;
            let sid = spec_text_of(s.subrange(4, 4 + sl));
            let n = (20 + sl) as nat;
            if !(sid matches Some(i) && is_short_identifier(i)) {
                (DecodeOutcome::InvalidServerId, n)
            } else {
                (
                    DecodeOutcome::Frame(
                        FrameModel::Authenticated {
                            tunnel_id: s.subrange(4 + sl, 20 + sl),
                            server_id: sid->Some_0,
                        },
                    ),
                    n,
                )
            }
        }
    } else if s[0] == PING_TYPE {
        (DecodeOutcome::Frame(FrameModel::Ping), 1)
    } else if s[0] == PONG_TYPE {
        (DecodeOutcome::Frame(FrameModel::Pong), 1)
    } else {
        (DecodeOutcome::Incomplete, 0)
    }
}

/// The outcome that a result of the decoder stands for.
pub open spec fn spec_outcome_of(r: Result<Option<FrameV1>, Error>) -> DecodeOutcome {
    match r {
        Ok(None) => DecodeOutcome::Incomplete,
        Ok(Some(f)) => DecodeOutcome::Frame(f@),
        Err(Error::InvalidAuthKey { .. }) => DecodeOutcome::InvalidAuthKey,
        Err(Error::InvalidIngressId { .. }) => DecodeOutcome::InvalidIngressId,
        Err(Error::InvalidServerId { .. }) => DecodeOutcome::InvalidServerId,
        Err(_) => DecodeOutcome::Failed,
    }
}

/// Decodes the frame at the start of `src` and returns how many bytes it took.
/// An incomplete buffer or an unknown type byte gives `Ok(None)` and takes
/// nothing; an invalid field gives its error and takes the whole frame.
pub fn decode_frame(src: &[u8]) -> (r: (Result<Option<FrameV1>, Error>, usize))
    requires
        spec_decode_defined(src@),
    ensures
        spec_outcome_of(r.0) == spec_decode_frame(src@).0,
        r.1 == spec_decode_frame(src@).1,
{
    let src_len = src.len();
    if src_len == 0 {
        return (Ok(None), 0);
    }
    let frame_type = src[0];
    if frame_type == AUTH_TYPE {
        let payload_length = (src[1] as usize) * 256 + (src[2] as usize);
        if src_len < 3 + payload_length {
            return (Ok(None), 0);
        }
        let auth_key_len = src[3] as usize;
        let auth_key_bytes = &src[4..4 + auth_key_len];
        let ingress_id_len = src[4 + auth_key_len] as usize;
        let ingress_id_bytes = &src[5 + auth_key_len..5 + auth_key_len + ingress_id_len];
        let consumed = 5 + auth_key_len + ingress_id_len;
        let auth_key = match AuthKey::from_bytes(auth_key_bytes) {
            Ok(k) => k,
            Err(e) => return (Err(e), consumed),
        };
        let ingress_id = match IngressId::from_bytes(ingress_id_bytes) {
            Ok(i) => i,
            Err(e) => return (Err(e), consumed),
        };
        (Ok(Some(FrameV1::Auth { auth_key, ingress_id })), consumed)
    } else if frame_type == AUTHENTICATED_TYPE {
        let payload_length = (src[1] as usize) * 256 + (src[2] as usize);
        if src_len < 3 + payload_length {
            return (Ok(None), 0);
        }
        let server_id_len = src[3] as usize;
        let server_id_bytes = &src[4..4 + server_id_len];
        let t = 4 + server_id_len;
        let consumed = t + 16;
        let server_id = match ServerId::from_bytes(server_id_bytes) {
            Ok(s) => s,
            Err(e) => return (Err(e), consumed),
        };
        let tunnel_id = TunnelId(
            [
                src[t],
                src[t + 1],
                src[t + 2],
                src[t + 3],
                src[t + 4],
                src[t + 5],
                src[t + 6],
                src[t + 7],
                src[t + 8],
                src[t + 9],
                src[t + 10],
                src[t + 11],
                src[t + 12],
                src[t + 13],
                src[t + 14],
                src[t + 15],
            ],
        );
        assert(tunnel_id.0@ =~= src@.subrange(t as int, t + 16));
        (Ok(Some(FrameV1::Authenticated { tunnel_id, server_id })), consumed)
    } else if frame_type == PING_TYPE {
        (Ok(Some(FrameV1::Ping)), 1)
    } else if frame_type == PONG_TYPE {
        (Ok(Some(FrameV1::Pong)), 1)
    } else {
        (Ok(None), 0)
    }
}

/// Appends the bytes of `item` to `dst`.
pub fn encode_frame(item: &FrameV1, dst: &mut Vec<u8>)
    ensures
        final(dst)@ == old(dst)@ + spec_encode_frame(item@),
        spec_frame_well_formed(item@),
{
    match item {
        FrameV1::Auth { auth_key, ingress_id } => {
            let auth_key_bytes = auth_key.to_str().as_bytes();
            let ingress_id_bytes = ingress_id.value().as_bytes();
            let payload_length = (1 + auth_key_bytes.len()) + (1 + ingress_id_bytes.len());
            dst.push(AUTH_TYPE);
            dst.push((payload_length / 256) as u8);
            dst.push((payload_length % 256) as u8);
            dst.push(auth_key_bytes.len() as u8);
            dst.extend_from_slice(auth_key_bytes);
            dst.push(ingress_id_bytes.len() as u8);
            dst.extend_from_slice(ingress_id_bytes);
        },
        FrameV1::Authenticated { tunnel_id, server_id } => {
            let server_id_bytes = server_id.to_str().as_bytes();
            let payload_length = (1 + server_id_bytes.len()) + 16;
            dst.push(AUTHENTICATED_TYPE);
            dst.push((payload_length / 256) as u8);
            dst.push((payload_length % 256) as u8);
            dst.push(server_id_bytes.len() as u8);
            dst.extend_from_slice(server_id_bytes);
            dst.extend_from_slice(&tunnel_id.0);
        },
        FrameV1::Ping => {
            dst.push(PING_TYPE);
        },
        FrameV1::Pong => {
            dst.push(PONG_TYPE);
        },
    }
    assert(dst@ =~= old(dst)@ + spec_encode_frame(item@));
}

impl CodecV1 {
    /// Appends the bytes of `item` to `dst`. Encoding never fails.
    pub fn encode(&mut self, item: FrameV1, dst: &mut Vec<u8>) -> (r: Result<(), Error>)
        ensures
            r is Ok,
            final(dst)@ == old(dst)@ + spec_encode_frame(item@),
            spec_frame_well_formed(item@),
    {
        encode_frame(&item, dst);
        Ok(())
    }

    /// Decodes the frame at the start of `src` and removes the bytes it took from
    /// `src`.
    pub fn decode(&mut self, src: &mut Vec<u8>) -> (r: Result<Option<FrameV1>, Error>)
        requires
            spec_decode_defined(old(src)@),
        ensures
            spec_outcome_of(r) == spec_decode_frame(old(src)@).0,
            final(src)@ == old(src)@.skip(spec_decode_frame(old(src)@).1 as int),
    {
        let (r, consumed) = decode_frame(src.as_slice());
        let rest = src.split_off(consumed);
        *src = rest;
        r
    }
}

/// Decoding the bytes of a well-formed frame, whatever follows them, gives that
/// frame back and takes exactly its bytes.
pub proof fn lemma_decode_encoded_frame(f: FrameModel, rest: Seq<u8>)
    requires
        spec_frame_well_formed(f),
    ensures
        spec_decode_defined(spec_encode_frame(f) + rest),
        spec_decode_frame(spec_encode_frame(f) + rest) == (
            DecodeOutcome::Frame(f),
            spec_encode_frame(f).len(),
        ),
{
    let e = spec_encode_frame(f);
    let s = e + rest;
    match f {
        FrameModel::Auth { auth_key, ingress_id } => {
            let k = encode_utf8(auth_key);
            let i = encode_utf8(ingress_id);
            lemma_utf8_roundtrip(auth_key);
            lemma_utf8_roundtrip(ingress_id);
            let kl = k.len() as int;
            let il = i.len() as int;
            assert(e.len() == 5 + kl + il);
            assert(s[1] as nat * 256 + s[2] as nat == 2 + kl + il);
            assert(s[3] == kl);
            assert(s.subrange(4, 4 + kl) =~= k);
            assert(s[4 + kl] == il);
            assert(s.subrange(5 + kl, 5 + kl + il) =~= i);
        },
        FrameModel::Authenticated { tunnel_id, server_id } => {
            let sb = encode_utf8(server_id);
            lemma_utf8_roundtrip(server_id);
            let sl = sb.len() as int;
            assert(e.len() == 20 + sl);
            assert(s[1] as nat * 256 + s[2] as nat == 17 + sl);
            assert(s[3] == sl);
            assert(s.subrange(4, 4 + sl) =~= sb);
            assert(s.subrange(4 + sl, 20 + sl) =~= tunnel_id);
        },
        FrameModel::Ping => {},
        FrameModel::Pong => {},
    }
}

/// Origin tag of a datagram that came from an IPv4 address.
pub const UDP_IPV4_ORIGIN: u8 = 0;

/// Origin tag of a datagram that came from an IPv6 address.
pub const UDP_IPV6_ORIGIN: u8 = 1;

/// Origin tag, IPv4 address and port.
pub const UDP_HEADER_IPV4_LEN: usize = 1 + 4 + 2;

/// Origin tag, IPv6 address and port.
pub const UDP_HEADER_IPV6_LEN: usize = 1 + 16 + 2;

/// How much shorter an IPv4 header is than the room kept for an IPv6 one.
pub const HEADER_GAP_IPV4: usize = UDP_HEADER_IPV6_LEN - UDP_HEADER_IPV4_LEN;

/// Largest payload that a `UdpMessage` holds.
pub const UDP_PAYLOAD_CAPACITY: usize = 1200;

/// Size of the buffer of a `UdpMessage`: room for the longest header and the payload.
pub const UDP_DEFAULT_BYTES_CAPACITY: usize = UDP_HEADER_IPV6_LEN + UDP_PAYLOAD_CAPACITY;

/// The header that names the origin of a tunnelled datagram: the origin tag, the
/// address octets and the big-endian port.
pub open spec fn spec_origin_header(origin: SocketAddress) -> Seq<u8> {
    match origin.ip {
        IpAddress::V4(ip) => seq![UDP_IPV4_ORIGIN] + ip@ + spec_u16_be(origin.port as nat),
        IpAddress::V6(ip) => seq![UDP_IPV6_ORIGIN] + ip@ + spec_u16_be(origin.port as nat),
    }
}

/// A tunnelled datagram: the origin header followed by the payload.
pub open spec fn spec_datagram(origin: SocketAddress, payload: Seq<u8>) -> Seq<u8> {
    spec_origin_header(origin) + payload
}

/// Length of the origin header that starts with the tag `tag`, or 1 for an
/// unknown tag, which is skipped alone.
pub open spec fn spec_origin_header_len(tag: u8) -> nat {
    if tag == UDP_IPV4_ORIGIN {
        UDP_HEADER_IPV4_LEN as nat
    } else if tag == UDP_IPV6_ORIGIN {
        UDP_HEADER_IPV6_LEN as nat
    } else {
        1
    }
}

/// The extraction of the origin reads within the datagram: it is not empty, and
/// it holds the whole header that its tag announces.
pub open spec fn spec_extract_defined(d: Seq<u8>) -> bool {
    d.len() >= 1 && d.len() >= spec_origin_header_len(d[0])
}

/// The origin that a datagram names: the address whose header starts the
/// datagram, or `None` for an unknown tag.
pub open spec fn spec_extract_origin(d: Seq<u8>) -> Option<SocketAddress> {
    let n = spec_origin_header_len(d[0]) as int;
    if d[0] == UDP_IPV4_ORIGIN || d[0] == UDP_IPV6_ORIGIN {
        Some(choose|a: SocketAddress| spec_origin_header(a) == d.take(n))
    } else {
        None
    }
}

/// Two origins with the same header are the same origin.
pub proof fn lemma_origin_header_injective(a: SocketAddress, b: SocketAddress)
    requires
        spec_origin_header(a) == spec_origin_header(b),
    ensures
        a == b,
{
    let ha = spec_origin_header(a);
    let hb = spec_origin_header(b);
    assert(ha[0] == hb[0]);
    let n = ha.len() as int;
    assert(ha[n - 2] == (a.port / 256) as u8 && ha[n - 1] == (a.port % 256) as u8);
    assert(hb[n - 2] == (b.port / 256) as u8 && hb[n - 1] == (b.port % 256) as u8);
    assert(a.port == b.port);
    match (a.ip, b.ip) {
        (IpAddress::V4(x), IpAddress::V4(y)) => {
            assert(x@ =~= ha.subrange(1, 5));
            assert(y@ =~= hb.subrange(1, 5));
            assert(x == y);
            assert(ha[5] == hb[5] && ha[6] == hb[6]);
        },
        (IpAddress::V6(x), IpAddress::V6(y)) => {
            assert(x@ =~= ha.subrange(1, 17));
            assert(y@ =~= hb.subrange(1, 17));
            assert(x == y);
            assert(ha[17] == hb[17] && ha[18] == hb[18]);
        },
        _ => {},
    }
}

/// A datagram buffer with room for the longest origin header in front of the
/// payload, so that the header can be written once the origin is known.
pub struct UdpMessage {
    bytes: Option<Vec<u8>>,
}

impl View for UdpMessage {
    type V = Option<Seq<u8>>;

    closed spec fn view(&self) -> Option<Seq<u8>> {
        match self.bytes {
            Some(b) => Some(b@),
            None => None,
        }
    }
}

/// Writes the origin header of `origin` followed by `payload` into a new buffer.
fn datagram_bytes(origin: SocketAddress, payload: &[u8]) -> (r: Vec<u8>)
    ensures
        r@ == spec_datagram(origin, payload@),
{
    let port_high = (origin.port / 256) as u8;
    let port_low = (origin.port % 256) as u8;
    let mut bytes: Vec<u8> = Vec::new();
    match origin.ip {
        IpAddress::V4(ip) => {
            bytes.push(UDP_IPV4_ORIGIN);
            bytes.extend_from_slice(&ip);
        },
        IpAddress::V6(ip) => {
            bytes.push(UDP_IPV6_ORIGIN);
            bytes.extend_from_slice(&ip);
        },
    }
    bytes.push(port_high);
    bytes.push(port_low);
    bytes.extend_from_slice(payload);
    assert(bytes@ =~= spec_datagram(origin, payload@));
    bytes
}

/// The tunnelled datagram of `data_size` bytes of `data` received from `origin`.
pub fn to_datagram(origin: SocketAddress, data: &[u8], data_size: usize) -> (r: Vec<u8>)
    requires
        data_size <= data@.len(),
    ensures
        r@ == spec_datagram(origin, data@.take(data_size as int)),
{
    datagram_bytes(origin, &data[0..data_size])
}

impl UdpMessage {
    /// A message whose buffer is zeroed and has room for a full payload.
    pub fn new() -> (r: Self)
        ensures
            r@ == Some(Seq::new(UDP_DEFAULT_BYTES_CAPACITY as nat, |i: int| 0u8)),
    {
        let bytes = vec![0u8; UDP_DEFAULT_BYTES_CAPACITY];
        UdpMessage { bytes: Some(bytes) }
    }

    /// The payload part of the buffer, to be filled before `to_datagram`.
    pub fn payload_mut(&mut self) -> (r: &mut [u8])
        requires
            old(self)@ matches Some(b) && b.len() >= UDP_HEADER_IPV6_LEN,
        ensures
            r@ == old(self)@->Some_0.skip(UDP_HEADER_IPV6_LEN as int),
            final(self)@ == Some(
                old(self)@->Some_0.take(UDP_HEADER_IPV6_LEN as int) + final(r)@,
            ),
    {
        let bytes = self.bytes.as_mut().unwrap();
        let (_header, payload) = bytes.as_mut_slice().split_at_mut(UDP_HEADER_IPV6_LEN);
        payload
    }

    /// Turns the message into the tunnelled datagram that carries the first
    /// `payload_len` payload bytes (the whole payload when `payload_len` is larger)
    /// and names `origin_addr` as their origin. The buffer is handed over: the
    /// message is empty afterwards.
    pub fn to_datagram(&mut self, origin_addr: SocketAddress, payload_len: usize) -> (r: Vec<u8>)
        requires
            old(self)@ matches Some(b) && b.len() >= UDP_HEADER_IPV6_LEN,
            payload_len <= usize::MAX - UDP_HEADER_IPV6_LEN,
        ensures
            final(self)@ is None,
            r@ == spec_datagram(
                origin_addr,
                spec_payload_prefix(old(self)@->Some_0, payload_len as nat),
            ),
            UDP_HEADER_IPV6_LEN + payload_len <= old(self)@->Some_0.len() ==> r@.len()
                == spec_origin_header(origin_addr).len() + payload_len && r@.take(
                spec_origin_header(origin_addr).len() as int,
            ) == spec_origin_header(origin_addr) && forall|i: int|
                0 <= i < payload_len ==> #[trigger] r@[spec_origin_header(origin_addr).len() + i]
                    == old(self)@->Some_0[UDP_HEADER_IPV6_LEN + i],
    {
        let bytes = self.bytes.take().unwrap();
        let end = if UDP_HEADER_IPV6_LEN + payload_len < bytes.len() {
            UDP_HEADER_IPV6_LEN + payload_len
        } else {
            bytes.len()
        };
        datagram_bytes(origin_addr, &bytes.as_slice()[UDP_HEADER_IPV6_LEN..end])
    }

    /// Reads the origin header at the start of a tunnelled datagram, removes it and
    /// returns the origin it names. An unknown tag gives `None` and only the tag
    /// byte is removed.
    pub fn extract_origin_addr(udp_message_bytes: &mut Vec<u8>) -> (r: Option<SocketAddress>)
        requires
            spec_extract_defined(old(udp_message_bytes)@),
        ensures
            r == spec_extract_origin(old(udp_message_bytes)@),
            final(udp_message_bytes)@ == old(udp_message_bytes)@.skip(
                spec_origin_header_len(old(udp_message_bytes)@[0]) as int,
            ),
    {
        let ghost d = udp_message_bytes@;
        let b: &Vec<u8> = udp_message_bytes;
        let tag = b[0];
        let r = if tag == UDP_IPV4_ORIGIN {
            let ip = IpAddress::V4([b[1], b[2], b[3], b[4]]);
            let port = (b[5] as u16) * 256 + (b[6] as u16);
            Some(SocketAddress { ip, port })
        } else if tag == UDP_IPV6_ORIGIN {
            let ip = IpAddress::V6(
                [
                    b[1],
                    b[2],
                    b[3],
                    b[4],
                    b[5],
                    b[6],
                    b[7],
                    b[8],
                    b[9],
                    b[10],
                    b[11],
                    b[12],
                    b[13],
                    b[14],
                    b[15],
                    b[16],
                ],
            );
            let port = (b[17] as u16) * 256 + (b[18] as u16);
            Some(SocketAddress { ip, port })
        } else {
            None
        };
        proof {
            if let Some(a) = r {
                let n = spec_origin_header_len(d[0]) as int;
                assert(spec_origin_header(a) =~= d.take(n));
                let c = choose|x: SocketAddress| spec_origin_header(x) == d.take(n);
                lemma_origin_header_injective(a, c);
            }
        }
        let n = if tag == UDP_IPV4_ORIGIN {
            UDP_HEADER_IPV4_LEN
        } else if tag == UDP_IPV6_ORIGIN {
            UDP_HEADER_IPV6_LEN
        } else {
            1
        };
        let rest = udp_message_bytes.split_off(n);
        *udp_message_bytes = rest;
        r
    }
}

/// The payload bytes that `to_datagram` sends from the buffer `b` when asked for
/// `n` of them.
pub open spec fn spec_payload_prefix(b: Seq<u8>, n: nat) -> Seq<u8> {
    if UDP_HEADER_IPV6_LEN + n < b.len() {
        b.subrange(UDP_HEADER_IPV6_LEN as int, UDP_HEADER_IPV6_LEN + n)
    } else {
        b.skip(UDP_HEADER_IPV6_LEN as int)
    }
}

/// A datagram built from a message buffer carries every payload byte asked for:
/// when the buffer holds `n` payload bytes after the header room, the payload of
/// the datagram is exactly those `n` bytes, in order.
pub proof fn lemma_payload_prefix_keeps_every_byte(b: Seq<u8>, n: nat)
    requires
        UDP_HEADER_IPV6_LEN + n <= b.len(),
    ensures
        spec_payload_prefix(b, n).len() == n,
        forall|i: int| 0 <= i < n ==> #[trigger] spec_payload_prefix(b, n)[i] == b[UDP_HEADER_IPV6_LEN + i],
{
}

/// Reading the origin of a tunnelled datagram gives back the origin it was built
/// with, and what remains is its payload.
pub proof fn lemma_extract_datagram(origin: SocketAddress, payload: Seq<u8>)
    ensures
        spec_extract_defined(spec_datagram(origin, payload)),
        spec_extract_origin(spec_datagram(origin, payload)) == Some(origin),
        spec_datagram(origin, payload).skip(
            spec_origin_header_len(spec_datagram(origin, payload)[0]) as int,
        ) == payload,
{
    let d = spec_datagram(origin, payload);
    let h = spec_origin_header(origin);
    let n = spec_origin_header_len(d[0]) as int;
    assert(h.len() == n);
    assert(d.take(n) =~= h);
    let c = choose|x: SocketAddress| spec_origin_header(x) == d.take(n);
    lemma_origin_header_injective(origin, c);
    assert(d.skip(n) =~= payload);
}

} // verus!
