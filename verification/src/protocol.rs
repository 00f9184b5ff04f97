//! The framed IPC protocol spoken on `discord-ipc-N`:
//! `[i32le type][i32le length][JSON payload]`.

use vstd::prelude::*;

verus! {

/// Largest JSON payload a peer may announce in a frame header.
pub const MAX_PAYLOAD: usize = 4194304;

/// Close code sent when a peer does something out of order.
pub const CLOSE_UNSUPPORTED: i32 = 1003;

/// Close code for a handshake without a client id.
pub const INVALID_CLIENTID: i32 = 4000;

/// Close code for a handshake with an unsupported protocol version.
pub const INVALID_VERSION: i32 = 4004;

#[derive(Debug, Clone, Copy, PartialEq, Eq, Structural)]
pub enum PacketType {
    Handshake,
    Frame,
    Close,
    Ping,
    Pong,
}

/// The wire number of each packet type.
pub open spec fn packet_code(kind: PacketType) -> int {
    match kind {
        PacketType::Handshake => 0,
        PacketType::Frame => 1,
        PacketType::Close => 2,
        PacketType::Ping => 3,
        PacketType::Pong => 4,
    }
}

/// The packet type that a wire number denotes, if any.
pub open spec fn packet_of_code(v: int) -> Option<PacketType> {
    if v == 0 {
        Some(PacketType::Handshake)
    } else if v == 1 {
        Some(PacketType::Frame)
    } else if v == 2 {
        Some(PacketType::Close)
    } else if v == 3 {
        Some(PacketType::Ping)
    } else if v == 4 {
        Some(PacketType::Pong)
    } else {
        None
    }
}

impl PacketType {
    pub fn from_i32(v: i32) -> (r: Option<PacketType>)
        ensures
            r == packet_of_code(v as int),
    {
        match v {
            0 => Some(PacketType::Handshake),
            1 => Some(PacketType::Frame),
            2 => Some(PacketType::Close),
            3 => Some(PacketType::Ping),
            4 => Some(PacketType::Pong),
            _ => None,
        }
    }

    pub fn as_i32(self) -> (r: i32)
        ensures
            r as int == packet_code(self),
    {
        match self {
            PacketType::Handshake => 0,
            PacketType::Frame => 1,
            PacketType::Close => 2,
            PacketType::Ping => 3,
            PacketType::Pong => 4,
        }
    }
}

/// The four little-endian bytes of a 32-bit word.
pub open spec fn le_bytes(x: u32) -> Seq<u8> {
    seq![
        (x & 0xff) as u8,
        ((x >> 8u32) & 0xff) as u8,
        ((x >> 16u32) & 0xff) as u8,
        ((x >> 24u32) & 0xff) as u8,
    ]
}

/// The 32-bit word whose little-endian bytes are `b0 b1 b2 b3`.
pub open spec fn le_word(b0: u8, b1: u8, b2: u8, b3: u8) -> u32 {
    (b0 as u32) | ((b1 as u32) << 8u32) | ((b2 as u32) << 16u32) | ((b3 as u32) << 24u32)
}

/// A 32-bit word read as a two's-complement `i32`.
pub open spec fn word_as_i32(u: u32) -> int {
    if u < 0x8000_0000 {
        u as int
    } else {
        u as int - 0x1_0000_0000
    }
}

/// The bytes of a frame: type, payload length (its low 32 bits, as the
/// sender's `as i32` keeps them), then the payload itself.
pub open spec fn frame_bytes(kind: PacketType, payload: Seq<u8>) -> Seq<u8> {
    le_bytes(packet_code(kind) as u32) + le_bytes(payload.len() as u32) + payload
}

/// Why a frame header was refused.
#[derive(Debug, Clone, Copy, PartialEq, Eq, Structural)]
pub enum FrameError {
    /// The type field names no packet type.
    InvalidType(i32),
    /// The length field is negative or over [`MAX_PAYLOAD`].
    InvalidLength(i32),
}

/// What a header announces: the packet type and the payload length, or why
/// the header is refused (an unknown type is reported before a bad length).
pub open spec fn header_meaning(h: Seq<u8>) -> Result<(PacketType, usize), FrameError> {
    let raw_type = word_as_i32(le_word(h[0], h[1], h[2], h[3]));
    let len = word_as_i32(le_word(h[4], h[5], h[6], h[7]));
    match packet_of_code(raw_type) {
        None => Err(FrameError::InvalidType(raw_type as i32)),
        Some(kind) => if len < 0 || len > MAX_PAYLOAD {
            Err(FrameError::InvalidLength(len as i32))
        } else {
            Ok((kind, len as usize))
        },
    }
}

fn push_le_word(buf: &mut Vec<u8>, x: u32)
    ensures
        final(buf)@ == old(buf)@ + le_bytes(x),
{
    buf.push((x & 0xff) as u8);
    buf.push(((x >> 8u32) & 0xff) as u8);
    buf.push(((x >> 16u32) & 0xff) as u8);
    buf.push(((x >> 24u32) & 0xff) as u8);
    assert(final(buf)@ =~= old(buf)@ + le_bytes(x));
}

fn read_le_word(b0: u8, b1: u8, b2: u8, b3: u8) -> (r: u32)
    ensures
        r == le_word(b0, b1, b2, b3),
{
    (b0 as u32) | ((b1 as u32) << 8u32) | ((b2 as u32) << 16u32) | ((b3 as u32) << 24u32)
}

fn word_to_i32(u: u32) -> (r: i32)
    ensures
        r as int == word_as_i32(u),
{
    if u < 0x8000_0000 {
        u as i32
    } else {
        ((u as i64) - 0x1_0000_0000i64) as i32
    }
}

/// Frames an already serialised JSON payload.
pub fn encode(kind: PacketType, json: &[u8]) -> (r: Vec<u8>)
    ensures
        r@ == frame_bytes(kind, json@),
{
    let mut buf: Vec<u8> = Vec::new();
    push_le_word(&mut buf, kind.as_i32() as u32);
    let len = json.len();
    let len_word: u32 = len as u32;
    push_le_word(&mut buf, len_word);
    let mut i: usize = 0;
    while i < json.len()
        invariant
            i <= json@.len(),
            buf@ == le_bytes(packet_code(kind) as u32) + le_bytes(json@.len() as u32) + json@.take(
                i as int,
            ),
        decreases json@.len() - i,
    {
        buf.push(json[i]);
        i = i + 1;
        assert(buf@ =~= le_bytes(packet_code(kind) as u32) + le_bytes(json@.len() as u32)
            + json@.take(i as int));
    }
    assert(json@.take(json@.len() as int) =~= json@);
    buf
}

/// Reads the eight header bytes of a frame.
pub fn decode_header(header: [u8; 8]) -> (r: Result<(PacketType, usize), FrameError>)
    ensures
        r == header_meaning(header@),
{
    let raw_type = word_to_i32(read_le_word(header[0], header[1], header[2], header[3]));
    let len = word_to_i32(read_le_word(header[4], header[5], header[6], header[7]));
    match PacketType::from_i32(raw_type) {
        None => Err(FrameError::InvalidType(raw_type)),
        Some(kind) => {
            if len < 0 || len as usize > MAX_PAYLOAD {
                Err(FrameError::InvalidLength(len))
            } else {
                Ok((kind, len as usize))
            }
        },
    }
}

/// A packet type survives the trip through its wire number, and the only
/// wire numbers that name a packet are the ones packets are written with.
pub proof fn lemma_packet_code_roundtrip(kind: PacketType, v: int)
    ensures
        packet_of_code(packet_code(kind)) == Some(kind),
        packet_of_code(v) == Some(kind) ==> packet_code(kind) == v,
{
}

proof fn lemma_le_word_of_bytes(x: u32)
    ensures
        le_word(le_bytes(x)[0], le_bytes(x)[1], le_bytes(x)[2], le_bytes(x)[3]) == x,
{
    let b0 = (x & 0xff) as u8;
    let b1 = ((x >> 8u32) & 0xff) as u8;
    let b2 = ((x >> 16u32) & 0xff) as u8;
    let b3 = ((x >> 24u32) & 0xff) as u8;
    assert((b0 as u32) | ((b1 as u32) << 8u32) | ((b2 as u32) << 16u32) | ((b3 as u32) << 24u32)
        == x) by (bit_vector)
        requires
            b0 == (x & 0xff) as u8,
            b1 == ((x >> 8u32) & 0xff) as u8,
            b2 == ((x >> 16u32) & 0xff) as u8,
            b3 == ((x >> 24u32) & 0xff) as u8,
    ;
}

/// Reading back the header of a frame this module wrote gives the packet
/// type and payload length it was written with, and the payload follows.
pub proof fn lemma_frame_roundtrip(kind: PacketType, payload: Seq<u8>)
    requires
        payload.len() <= MAX_PAYLOAD,
    ensures
        frame_bytes(kind, payload).len() == 8 + payload.len(),
        header_meaning(frame_bytes(kind, payload).take(8)) == Ok::<(PacketType, usize), FrameError>(
            (kind, payload.len() as usize),
        ),
        frame_bytes(kind, payload).skip(8) == payload,
{
    let f = frame_bytes(kind, payload);
    let c = packet_code(kind) as u32;
    let l = payload.len() as u32;
    lemma_le_word_of_bytes(c);
    lemma_le_word_of_bytes(l);
    let h = f.take(8);
    assert(h[0] == le_bytes(c)[0] && h[1] == le_bytes(c)[1] && h[2] == le_bytes(c)[2] && h[3]
        == le_bytes(c)[3]);
    assert(h[4] == le_bytes(l)[0] && h[5] == le_bytes(l)[1] && h[6] == le_bytes(l)[2] && h[7]
        == le_bytes(l)[3]);
    assert(f.skip(8) =~= payload);
}

} // verus!
