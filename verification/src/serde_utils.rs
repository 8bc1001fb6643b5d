//! The forms in which keys, contexts and signatures cross the network, and
//! the checks on what comes in. Public keys and final signatures travel as
//! hexadecimal text; contexts, nonces and partial signatures as bytes.

use vstd::prelude::*;
use std::collections::HashMap;
use crate::bytes::bytes_copy;
use crate::crypto::{
    aggregated_identity,
    aggregated_pubkey,
    check_partial_signature,
    check_compact_signature,
    hex_decode,
    hex_encode,
    is_compact_signature,
    is_partial_signature,
    public_key_encoding,
};
use crate::hexcode::{hex_decoding, hex_encoding};
use crate::identity::Identity;

verus! {

broadcast use vstd::std_specs::hash::group_hash_axioms;

/// Why a value that came in was refused.
#[derive(Debug, Clone, Copy, PartialEq, Eq, Structural)]
pub enum DecodeError {
    /// The text is not an even number of hexadecimal digits.
    InvalidHex,
    /// The bytes encode no public key.
    InvalidPublicKey,
    /// The bytes encode no key aggregation context.
    InvalidKeyAggContext,
    /// The bytes encode no partial signature.
    InvalidPartialSignature,
    /// The bytes encode no signature.
    InvalidSignature,
}

/// A public key as hexadecimal text.
pub fn serialize_public_key(key: &Identity) -> (r: String)
    ensures
        r@ == hex_encoding(key@),
{
    hex_encode(key.as_bytes())
}

/// The identity that a hexadecimal text encodes, or why there is none.
pub open spec fn decoded_public_key(text: Seq<char>) -> Result<Seq<u8>, DecodeError> {
    match hex_decoding(text) {
        None => Err(DecodeError::InvalidHex),
        Some(bytes) => match public_key_encoding(bytes) {
            None => Err(DecodeError::InvalidPublicKey),
            Some(key) => Ok(key),
        },
    }
}

/// Reads a public key from hexadecimal text.
pub fn deserialize_public_key(text: &str) -> (r: Result<Identity, DecodeError>)
    ensures
        match r {
            Ok(key) => decoded_public_key(text@) == Ok::<Seq<u8>, DecodeError>(key@),
            Err(e) => decoded_public_key(text@) == Err::<Seq<u8>, DecodeError>(e),
        },
{
    match hex_decode(text) {
        None => Err(DecodeError::InvalidHex),
        Some(bytes) => match Identity::from_slice(bytes.as_slice()) {
            None => Err(DecodeError::InvalidPublicKey),
            Some(key) => Ok(key),
        },
    }
}

/// Values by public key, with each key as hexadecimal text, in the same
/// order.
pub fn serialize_pubkey_map(map: &Vec<(Identity, Vec<u8>)>) -> (r: Vec<(String, Vec<u8>)>)
    ensures
        r@.len() == map@.len(),
        forall|i: int|
            0 <= i < r@.len() ==> (#[trigger] r@[i]).0@ == hex_encoding(map@[i].0@) && r@[i].1@
                == map@[i].1@,
{
    let mut out: Vec<(String, Vec<u8>)> = Vec::new();
    let mut i: usize = 0;
    while i < map.len()
        invariant
            i <= map@.len(),
            out@.len() == i,
            forall|k: int|
                0 <= k < i ==> (#[trigger] out@[k]).0@ == hex_encoding(map@[k].0@) && out@[k].1@
                    == map@[k].1@,
        decreases map@.len() - i,
    {
        out.push((serialize_public_key(&map[i].0), bytes_copy(&map[i].1)));
        i += 1;
    }
    out
}

/// Reads values by public key, where each key is hexadecimal text. The
/// first key that cannot be read is the error.
pub fn deserialize_pubkey_map(map: &Vec<(String, Vec<u8>)>) -> (r: Result<
    Vec<(Identity, Vec<u8>)>,
    DecodeError,
>)
    ensures
        match r {
            Ok(entries) => {
                &&& entries@.len() == map@.len()
                &&& forall|i: int|
                    0 <= i < entries@.len() ==> decoded_public_key(map@[i].0@) == Ok::<
                        Seq<u8>,
                        DecodeError,
                    >((#[trigger] entries@[i]).0@) && entries@[i].1@ == map@[i].1@
            },
            Err(e) => exists|i: int|
                {
                    &&& 0 <= i < map@.len()
                    &&& #[trigger] decoded_public_key(map@[i].0@) == Err::<Seq<u8>, DecodeError>(e)
                    &&& forall|k: int| 0 <= k < i ==> decoded_public_key(#[trigger] map@[k].0@) is Ok
                },
        },
{
    let mut out: Vec<(Identity, Vec<u8>)> = Vec::new();
    let mut i: usize = 0;
    while i < map.len()
        invariant
            i <= map@.len(),
            out@.len() == i,
            forall|k: int|
                0 <= k < i ==> decoded_public_key(map@[k].0@) == Ok::<Seq<u8>, DecodeError>(
                    (#[trigger] out@[k]).0@,
                ) && out@[k].1@ == map@[k].1@,
        decreases map@.len() - i,
    {
        match deserialize_public_key(map[i].0.as_str()) {
            Err(e) => {
                assert(decoded_public_key(map@[i as int].0@) == Err::<Seq<u8>, DecodeError>(e));
                assert forall|k: int| 0 <= k < i implies decoded_public_key(
                    #[trigger] map@[k].0@,
                ) is Ok by {
                    assert(decoded_public_key(map@[k].0@) == Ok::<Seq<u8>, DecodeError>(
                        out@[k].0@,
                    ));
                }
                return Err(e);
            },
            Ok(key) => {
                out.push((key, bytes_copy(&map[i].1)));
            },
        }
        i += 1;
    }
    Ok(out)
}

/// A key aggregation context as bytes.
pub fn serialize_key_agg_ctx(ctx: &Vec<u8>) -> (r: Vec<u8>)
    ensures
        r@ == ctx@,
{
    bytes_copy(ctx)
}

/// Reads a key aggregation context: the bytes must decode to one.
pub fn deserialize_key_agg_ctx(bytes: &Vec<u8>) -> (r: Result<Vec<u8>, DecodeError>)
    ensures
        match r {
            Ok(ctx) => ctx@ == bytes@ && aggregated_identity(bytes@) is Some,
            Err(e) => e == DecodeError::InvalidKeyAggContext && aggregated_identity(bytes@) is None,
        },
{
    match aggregated_pubkey(bytes) {
        Some(_) => Ok(bytes_copy(bytes)),
        None => Err(DecodeError::InvalidKeyAggContext),
    }
}

/// A partial signature as bytes.
pub fn serialize_partial_signature(sig: &Vec<u8>) -> (r: Vec<u8>)
    ensures
        r@ == sig@,
{
    bytes_copy(sig)
}

/// Reads a partial signature: the bytes must encode one.
pub fn deserialize_partial_signature(bytes: &Vec<u8>) -> (r: Result<Vec<u8>, DecodeError>)
    ensures
        match r {
            Ok(sig) => sig@ == bytes@ && is_partial_signature(bytes@),
            Err(e) => e == DecodeError::InvalidPartialSignature && !is_partial_signature(bytes@),
        },
{
    if check_partial_signature(bytes) {
        Ok(bytes_copy(bytes))
    } else {
        Err(DecodeError::InvalidPartialSignature)
    }
}

/// A final signature as hexadecimal text.
pub fn serialize_compact_signature(sig: &Vec<u8>) -> (r: String)
    ensures
        r@ == hex_encoding(sig@),
{
    hex_encode(sig)
}

/// The signature that a hexadecimal text encodes, or why there is none.
pub open spec fn decoded_signature(text: Seq<char>) -> Result<Seq<u8>, DecodeError> {
    match hex_decoding(text) {
        None => Err(DecodeError::InvalidHex),
        Some(bytes) => if is_compact_signature(bytes) {
            Ok(bytes)
        } else {
            Err(DecodeError::InvalidSignature)
        },
    }
}

/// Reads a final signature from hexadecimal text.
pub fn deserialize_compact_signature(text: &str) -> (r: Result<Vec<u8>, DecodeError>)
    ensures
        match r {
            Ok(sig) => decoded_signature(text@) == Ok::<Seq<u8>, DecodeError>(sig@),
            Err(e) => decoded_signature(text@) == Err::<Seq<u8>, DecodeError>(e),
        },
{
    match hex_decode(text) {
        None => Err(DecodeError::InvalidHex),
        Some(bytes) => if check_compact_signature(&bytes) {
            Ok(bytes)
        } else {
            Err(DecodeError::InvalidSignature)
        },
    }
}

/// Partial signatures by signer index, as bytes.
pub fn serialize_partial_sig_map(map: &HashMap<usize, Vec<u8>>) -> (r: HashMap<usize, Vec<u8>>)
    ensures
        r@ == map@,
{
    map.clone()
}

/// Reads partial signatures by signer index: every value must encode a
/// partial signature. Where an index occurs twice, the later entry stands.
pub fn deserialize_partial_sig_map(map: &Vec<(usize, Vec<u8>)>) -> (r: Result<
    HashMap<usize, Vec<u8>>,
    DecodeError,
>)
    ensures
        match r {
            Ok(sigs) => {
                &&& forall|i: int| 0 <= i < map@.len() ==> is_partial_signature(#[trigger] map@[i].1@)
                &&& forall|k: usize| #[trigger]
                    sigs@.contains_key(k) <==> exists|i: int| 0 <= i < map@.len() && map@[i].0 == k
                &&& forall|i: int|
                    0 <= i < map@.len() && (forall|j: int| i < j < map@.len() ==> map@[j].0
                        != map@[i].0) ==> sigs@[(#[trigger] map@[i]).0]@ == map@[i].1@
            },
            Err(e) => e == DecodeError::InvalidPartialSignature && exists|i: int|
                0 <= i < map@.len() && !is_partial_signature(#[trigger] map@[i].1@),
        },
{
    let mut out: HashMap<usize, Vec<u8>> = HashMap::new();
    let mut i: usize = 0;
    while i < map.len()
        invariant
            i <= map@.len(),
            forall|k: int| 0 <= k < i ==> is_partial_signature(#[trigger] map@[k].1@),
            forall|k: usize| #[trigger]
                out@.contains_key(k) <==> exists|j: int| 0 <= j < i && map@[j].0 == k,
            forall|a: int|
                0 <= a < i && (forall|j: int| a < j < i ==> map@[j].0 != map@[a].0) ==> out@[(
                #[trigger] map@[a]).0]@ == map@[a].1@,
        decreases map@.len() - i,
    {
        if !check_partial_signature(&map[i].1) {
            return Err(DecodeError::InvalidPartialSignature);
        }
        let ghost before = out@;
        out.insert(map[i].0, bytes_copy(&map[i].1));
        proof {
            assert forall|k: usize| #[trigger] out@.contains_key(k) <==> exists|j: int|
                0 <= j < i + 1 && map@[j].0 == k by {
                if out@.contains_key(k) {
                    if k == map@[i as int].0 {
                        assert(map@[i as int].0 == k);
                    } else {
                        assert(before.contains_key(k));
                        let j = choose|j: int| 0 <= j < i && map@[j].0 == k;
                        assert(0 <= j < i + 1 && map@[j].0 == k);
                    }
                }
                if exists|j: int| 0 <= j < i + 1 && map@[j].0 == k {
                    let j = choose|j: int| 0 <= j < i + 1 && map@[j].0 == k;
                    if j < i {
                        assert(before.contains_key(k));
                    }
                }
            }
            assert forall|a: int|
                0 <= a < i + 1 && (forall|j: int| a < j < i + 1 ==> map@[j].0
                    != map@[a].0) implies out@[(#[trigger] map@[a]).0]@ == map@[a].1@ by {
                if a < i {
                    assert(map@[i as int].0 != map@[a].0);
                    assert(forall|j: int| a < j < i ==> map@[j].0 != map@[a].0);
                }
            }
        }
        i += 1;
    }
    Ok(out)
}

} // verus!
