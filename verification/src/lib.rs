//! Round coordination for multi-party signing: participants register their
//! public identities, a session binds a message to the aggregation context of
//! the ordered identity list, and two full barriers (public nonces, then
//! partial signatures) lead every participant to the same final signature.
//!
//! Two topologies drive the same rounds. With a hub ([`operator`], [`hub`],
//! [`signer`]), one party forwards every contribution; without one
//! ([`node`], [`connection`], [`handler`]), participants exchange them
//! directly and agree on the order of identities by sorting them.
//!
//! The curve arithmetic is done by the `musig2` and `secp256k1` crates, which
//! are reached through the functions of [`crypto`]; everything else here is
//! verified.

pub mod barrier;
pub mod bytes;
pub mod connection;
pub mod consistency;
pub mod crypto;
pub mod error;
pub mod handler;
pub mod hexcode;
pub mod hub;
pub mod identity;
pub mod message;
pub mod node;
pub mod operator;
pub mod order;
pub mod registry;
pub mod round;
pub mod serde_utils;
pub mod session;
pub mod signer;
pub mod state;
pub mod table;
pub mod text;
pub mod types;
