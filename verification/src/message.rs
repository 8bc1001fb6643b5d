//! The envelope that peers exchange directly with one another.

use vstd::prelude::*;

verus! {

/// What a peer message carries.
#[derive(Debug)]
pub enum MessageType {
    /// The sender's public identity, as a hex string.
    PublicKey(String),
    /// The sender's public nonce, serialized.
    PublicNonce(Vec<u8>),
    /// The sender's partial signature, serialized.
    PartialSignature(Vec<u8>),
}

/// One peer message: who sent it, and what it carries.
#[derive(Debug)]
pub struct Message {
    pub sender_port: u16,
    pub message_type: MessageType,
}

/// The number of bytes that announce the length of a framed message.
pub const FRAME_HEADER_LEN: usize = 4;

/// The longest message that can be framed.
pub const MAX_FRAME_PAYLOAD: usize = 0xffff_ffff;

/// The four bytes that announce a length, most significant first.
pub open spec fn length_prefix(n: nat) -> Seq<u8> {
    seq![
        ((n / 16777216) % 256) as u8,
        ((n / 65536) % 256) as u8,
        ((n / 256) % 256) as u8,
        (n % 256) as u8,
    ]
}

/// The length that the first four bytes of `bytes` announce.
pub open spec fn announced_length(bytes: Seq<u8>) -> nat {
    (bytes[0] as nat) * 16777216 + (bytes[1] as nat) * 65536 + (bytes[2] as nat) * 256
        + bytes[3] as nat
}

/// A message as it travels on a stream: its length, then its bytes. A read
/// from a stream may end anywhere, so the length says where the message
/// ends.
pub open spec fn framed(payload: Seq<u8>) -> Seq<u8> {
    length_prefix(payload.len()) + payload
}

/// The first message of `buffer` and the number of bytes that it takes up,
/// where `buffer` holds a whole message.
pub open spec fn first_frame(buffer: Seq<u8>) -> Option<(Seq<u8>, nat)> {
    if buffer.len() < FRAME_HEADER_LEN || buffer.len() < FRAME_HEADER_LEN + announced_length(
        buffer,
    ) {
        None
    } else {
        Some(
            (
                buffer.subrange(
                    FRAME_HEADER_LEN as int,
                    FRAME_HEADER_LEN + announced_length(buffer),
                ),
                (FRAME_HEADER_LEN + announced_length(buffer)) as nat,
            ),
        )
    }
}

/// The announced length of a length prefix is the length.
pub proof fn lemma_length_prefix(n: nat)
    requires
        n <= MAX_FRAME_PAYLOAD,
    ensures
        length_prefix(n).len() == FRAME_HEADER_LEN,
        announced_length(length_prefix(n)) == n,
{
}

/// Framing can be undone: whatever follows a framed message on the stream,
/// the first message of the stream is that message, and it takes up its
/// frame and no more.
pub proof fn lemma_frame_round_trip(payload: Seq<u8>, rest: Seq<u8>)
    requires
        payload.len() <= MAX_FRAME_PAYLOAD,
    ensures
        first_frame(framed(payload) + rest) == Some((payload, framed(payload).len())),
{
    lemma_length_prefix(payload.len());
    let buffer = framed(payload) + rest;
    let prefix = length_prefix(payload.len());
    assert(buffer[0] == prefix[0]);
    assert(buffer[1] == prefix[1]);
    assert(buffer[2] == prefix[2]);
    assert(buffer[3] == prefix[3]);
    assert(announced_length(buffer) == announced_length(prefix));
    assert(buffer.subrange(FRAME_HEADER_LEN as int, FRAME_HEADER_LEN + payload.len())
        =~= payload);
}

/// Frames a message; `None` where it is too long to be framed.
pub fn frame(payload: &Vec<u8>) -> (r: Option<Vec<u8>>)
    ensures
        match r {
            Some(bytes) => payload@.len() <= MAX_FRAME_PAYLOAD && bytes@ == framed(payload@),
            None => payload@.len() > MAX_FRAME_PAYLOAD,
        },
{
    let n = payload.len();
    if n > MAX_FRAME_PAYLOAD {
        return None;
    }
    let mut out: Vec<u8> = Vec::new();
    out.push(((n / 16777216) % 256) as u8);
    out.push(((n / 65536) % 256) as u8);
    out.push(((n / 256) % 256) as u8);
    out.push((n % 256) as u8);
    assert(out@ =~= length_prefix(n as nat));
    let mut i: usize = 0;
    while i < n
        invariant
            n == payload@.len(),
            i <= n,
            out@ == length_prefix(n as nat) + payload@.take(i as int),
        decreases n - i,
    {
        out.push(payload[i]);
        assert(payload@.take(i + 1) =~= payload@.take(i as int).push(payload@[i as int]));
        assert(out@ =~= length_prefix(n as nat) + payload@.take(i + 1));
        i += 1;
    }
    assert(payload@.take(n as int) =~= payload@);
    Some(out)
}

/// Takes the first message off what has been read from a stream: the
/// message and the number of bytes that it took up; `None` while the buffer
/// does not hold a whole message yet.
pub fn unframe(buffer: &Vec<u8>) -> (r: Option<(Vec<u8>, usize)>)
    ensures
        match r {
            Some((payload, consumed)) => first_frame(buffer@) == Some((payload@, consumed as nat)),
            None => first_frame(buffer@) is None,
        },
{
    if buffer.len() < FRAME_HEADER_LEN {
        return None;
    }
    let length: u64 = (buffer[0] as u64) * 16777216 + (buffer[1] as u64) * 65536 + (
    buffer[2] as u64) * 256 + (buffer[3] as u64);
    let available: u64 = (buffer.len() - FRAME_HEADER_LEN) as u64;
    if available < length {
        return None;
    }
    let end: usize = FRAME_HEADER_LEN + length as usize;
    let mut payload: Vec<u8> = Vec::new();
    let mut i: usize = FRAME_HEADER_LEN;
    while i < end
        invariant
            FRAME_HEADER_LEN <= i <= end,
            end <= buffer@.len(),
            payload@ == buffer@.subrange(FRAME_HEADER_LEN as int, i as int),
        decreases end - i,
    {
        payload.push(buffer[i]);
        assert(buffer@.subrange(FRAME_HEADER_LEN as int, i + 1) =~= buffer@.subrange(
            FRAME_HEADER_LEN as int,
            i as int,
        ).push(buffer@[i as int]));
        i += 1;
    }
    Some((payload, end))
}

} // verus!
