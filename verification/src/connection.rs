//! What two participants of the peer-to-peer topology say to one another
//! when a link is made, and what a participant makes of what arrives on a
//! link. A link counts only once the peer has announced its identity.

use vstd::prelude::*;
use vstd::string::{StrSliceExecFns, StringExecFns};
use crate::crypto::{hex_encode, public_key_of_text};
use crate::hexcode::hex_encoding;
use crate::identity::Identity;
use crate::node::PeerTable;

verus! {

/// What arrived on a link.
pub enum Frame {
    /// A text message.
    Text(String),
    /// The peer closed the link.
    Close,
    /// Anything else.
    Other,
}

/// The text by which a participant announces its identity: `KEY:` and the
/// identity in hexadecimal.
pub open spec fn key_message_text(identity: Seq<u8>) -> Seq<char> {
    seq!['K', 'E', 'Y', ':'] + hex_encoding(identity)
}

/// Whether `text` begins with `KEY:`.
pub open spec fn has_key_prefix(text: Seq<char>) -> bool {
    text.len() >= 4 && text[0] == 'K' && text[1] == 'E' && text[2] == 'Y' && text[3] == ':'
}

/// The identity that `text` announces, if it announces one.
pub open spec fn announced_identity(text: Seq<char>) -> Option<Seq<u8>> {
    if has_key_prefix(text) {
        public_key_of_text(text.subrange(4, text.len() as int))
    } else {
        None
    }
}

/// The announcement of a participant's identity.
pub fn send_key_message(public_key: &Identity) -> (r: String)
    ensures
        r@ == key_message_text(public_key@),
{
    proof {
        reveal_strlit("KEY:");
    }
    let encoded = hex_encode(public_key.as_bytes());
    let r = "KEY:".to_owned().concat(encoded.as_str());
    assert(r@ =~= key_message_text(public_key@));
    r
}

/// The identity that `text` announces, if it announces one.
pub fn parse_key_message(text: &str) -> (r: Option<Identity>)
    ensures
        match r {
            Some(identity) => announced_identity(text@) == Some(identity@),
            None => announced_identity(text@) is None,
        },
{
    let len = text.unicode_len();
    if len < 4 {
        return None;
    }
    if text.get_char(0) != 'K' || text.get_char(1) != 'E' || text.get_char(2) != 'Y'
        || text.get_char(3) != ':' {
        return None;
    }
    Identity::from_text(text.substring_char(4, len))
}

/// The seconds that pass between two attempts to link to a peer.
pub const LINK_RETRY_DELAY_SECONDS: u64 = 2;

/// What follows an attempt to link to a peer.
pub enum LinkStep {
    /// The link to `peer` stands: record it and read it.
    Linked { peer: Identity },
    /// The peer could not be reached, or has not announced an identity:
    /// wait, then try again.
    RetryAfter { seconds: u64 },
}

/// Decides what follows an attempt to link to a peer at one of the
/// configured ports, from whether the peer was reached and from the first
/// thing that arrived on the link. An attempt that fails is no failure of
/// the participant: it is repeated after a fixed delay, for as long as it
/// takes.
pub fn link_attempt(reached: bool, first: Option<Frame>) -> (r: LinkStep)
    ensures
        match r {
            LinkStep::Linked { peer } => {
                &&& reached
                &&& first matches Some(Frame::Text(text))
                &&& announced_identity(text@) == Some(peer@)
            },
            LinkStep::RetryAfter { seconds } => {
                &&& seconds == LINK_RETRY_DELAY_SECONDS
                &&& reached ==> !(first matches Some(Frame::Text(text)) && announced_identity(
                    text@,
                ) is Some)
            },
        },
{
    if !reached {
        return LinkStep::RetryAfter { seconds: LINK_RETRY_DELAY_SECONDS };
    }
    match handle_reply(first) {
        Some(peer) => LinkStep::Linked { peer },
        None => LinkStep::RetryAfter { seconds: LINK_RETRY_DELAY_SECONDS },
    }
}

/// What a participant does about a link that a peer has opened.
pub enum HandshakeStep {
    /// Send `reply`; once it is sent, the link to `peer` stands.
    Reply { peer: Identity, reply: String },
    /// Give the link up: the peer has not announced an identity.
    Reject,
}

/// Decides about a link that a peer has opened, from the first thing that
/// arrived on it. A peer that announces its identity is answered with the
/// participant's own announcement; anything else, or nothing, ends the link.
pub fn handle_connection(first: Option<Frame>, our_public_key: &Identity) -> (r: HandshakeStep)
    ensures
        match r {
            HandshakeStep::Reply { peer, reply } => {
                &&& first matches Some(Frame::Text(text))
                &&& announced_identity(text@) == Some(peer@)
                &&& reply@ == key_message_text(our_public_key@)
            },
            HandshakeStep::Reject => !(first matches Some(Frame::Text(text)) && announced_identity(
                text@,
            ) is Some),
        },
{
    match first {
        Some(Frame::Text(text)) => match parse_key_message(text.as_str()) {
            Some(peer) => HandshakeStep::Reply { peer, reply: send_key_message(our_public_key) },
            None => HandshakeStep::Reject,
        },
        _ => HandshakeStep::Reject,
    }
}

/// The identity of the peer that answered the participant's announcement on
/// a link that the participant has opened, from the first thing that arrived
/// on it; `None` where the peer has not announced an identity, and the link
/// is given up.
pub fn handle_reply(first: Option<Frame>) -> (r: Option<Identity>)
    ensures
        match r {
            Some(peer) => first matches Some(Frame::Text(text)) && announced_identity(text@)
                == Some(peer@),
            None => !(first matches Some(Frame::Text(text)) && announced_identity(text@) is Some),
        },
{
    match first {
        Some(Frame::Text(text)) => parse_key_message(text.as_str()),
        _ => None,
    }
}

/// What a participant does next about a link.
pub enum MessageStep {
    /// Hand the text on, and go on reading.
    Deliver(String),
    /// Go on reading.
    Continue,
    /// Stop reading: the link is gone.
    Stop,
}

/// Decides about what arrived on the link to `peer_key`, or about its end
/// where nothing did. A link that the table does not hold is not read. A
/// closed or ended link removes the peer; a text is handed on; anything else
/// is passed over.
pub fn handle_messages(peers: &mut PeerTable, peer_key: &Identity, arrived: Option<Frame>) -> (r:
    MessageStep)
    requires
        old(peers).wf(),
    ensures
        final(peers).wf(),
        if !old(peers)@.contains_key(peer_key@) {
            &&& r is Stop
            &&& final(peers)@ == old(peers)@
        } else {
            match arrived {
                Some(Frame::Text(text)) => {
                    &&& r matches MessageStep::Deliver(handed)
                    &&& handed == text
                    &&& final(peers)@ == old(peers)@
                },
                Some(Frame::Other) => {
                    &&& r is Continue
                    &&& final(peers)@ == old(peers)@
                },
                _ => {
                    &&& r is Stop
                    &&& final(peers)@ == old(peers)@.remove(peer_key@)
                },
            }
        },
{
    if !peers.contains(peer_key) {
        return MessageStep::Stop;
    }
    match arrived {
        Some(Frame::Text(text)) => MessageStep::Deliver(text),
        Some(Frame::Other) => MessageStep::Continue,
        _ => {
            let _ = peers.remove(peer_key);
            MessageStep::Stop
        },
    }
}

} // verus!
