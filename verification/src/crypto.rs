//! The calls into `secp256k1`, `musig2`, `hex`, `rand` and `uuid`.
//!
//! Nothing in this file is proved: each function states what the crate it
//! calls is relied on to do, and the rest of the library is verified against
//! these statements.

use vstd::prelude::*;
use crate::bytes::byte_views;
use crate::hexcode::{hex_decoding, hex_encoding};
use crate::identity::{identity_views, Identity};

verus! {

/// The compressed encoding of the public key that `bytes` encodes, as
/// `secp256k1::PublicKey::from_slice` reads it and `PublicKey::serialize`
/// writes it back; `None` where `from_slice` refuses `bytes`.
pub uninterp spec fn public_key_encoding(bytes: Seq<u8>) -> Option<Seq<u8>>;

/// Calls `secp256k1::PublicKey::from_slice` and, on success,
/// `PublicKey::serialize`, which returns an array of 33 bytes.
#[verifier::external_body]
pub(crate) fn parse_public_key(bytes: &[u8]) -> (r: Option<Vec<u8>>)
    ensures
        match r {
            Some(key) => public_key_encoding(bytes@) == Some(key@) && key@.len() == 33,
            None => public_key_encoding(bytes@) is None,
        },
{
    match secp256k1::PublicKey::from_slice(bytes) {
        Ok(key) => Some(key.serialize().to_vec()),
        Err(_) => None,
    }
}

/// The compressed encoding of the public key that `text` spells in
/// hexadecimal, as the `FromStr` of `secp256k1::PublicKey` reads it; `None`
/// where it refuses `text`.
pub uninterp spec fn public_key_of_text(text: Seq<char>) -> Option<Seq<u8>>;

/// Parses `text` as a `secp256k1::PublicKey` and, on success, calls
/// `PublicKey::serialize`, which returns an array of 33 bytes.
#[verifier::external_body]
pub(crate) fn parse_public_key_text(text: &str) -> (r: Option<Vec<u8>>)
    ensures
        match r {
            Some(key) => public_key_of_text(text@) == Some(key@) && key@.len() == 33,
            None => public_key_of_text(text@) is None,
        },
{
    match text.parse::<secp256k1::PublicKey>() {
        Ok(key) => Some(key.serialize().to_vec()),
        Err(_) => None,
    }
}

/// The serialized `musig2::KeyAggContext` of an ordered list of identities;
/// `None` where one of them is no public key or where `KeyAggContext::new`
/// reports that the keys do not aggregate.
pub uninterp spec fn aggregation_context(identities: Seq<Seq<u8>>) -> Option<Seq<u8>>;

/// Calls `musig2::KeyAggContext::new` on the keys that the identities encode,
/// in their order, and serializes the context. `KeyAggContext::new` panics on
/// an empty list and on more than `u32::MAX` keys. The serialized context
/// holds the number of keys and the keys themselves, and
/// `KeyAggContext::from_bytes` rebuilds the same context from it: so the
/// bytes decode, and to as many keys as there are identities.
#[verifier::external_body]
pub(crate) fn aggregate_keys(identities: &Vec<Identity>) -> (r: Option<Vec<u8>>)
    requires
        0 < identities@.len() <= u32::MAX,
    ensures
        match r {
            Some(context) => aggregation_context(identity_views(identities@)) == Some(context@),
            None => aggregation_context(identity_views(identities@)) is None,
        },
        r matches Some(context) ==> context_size_of(context@) == Some(identities@.len())
            && aggregated_identity(context@) is Some,
{
    let mut keys: Vec<secp256k1::PublicKey> = Vec::new();
    for identity in identities.iter() {
        match secp256k1::PublicKey::from_slice(identity.as_bytes()) {
            Ok(key) => keys.push(key),
            Err(_) => return None,
        }
    }
    match musig2::KeyAggContext::new(keys) {
        Ok(context) => Some(context.serialize()),
        Err(_) => None,
    }
}

/// The compressed encoding of the aggregated public key of a serialized
/// `musig2::KeyAggContext`; `None` where `KeyAggContext::from_bytes` refuses
/// the bytes.
pub uninterp spec fn aggregated_identity(context: Seq<u8>) -> Option<Seq<u8>>;

/// Calls `musig2::KeyAggContext::from_bytes` and, on success,
/// `KeyAggContext::aggregated_pubkey`, serialized to its 33 bytes.
#[verifier::external_body]
pub(crate) fn aggregated_pubkey(context: &Vec<u8>) -> (r: Option<Vec<u8>>)
    ensures
        match r {
            Some(key) => aggregated_identity(context@) == Some(key@) && key@.len() == 33,
            None => aggregated_identity(context@) is None,
        },
{
    match musig2::KeyAggContext::from_bytes(context) {
        Ok(ctx) => Some(ctx.aggregated_pubkey::<secp256k1::PublicKey>().serialize().to_vec()),
        Err(_) => None,
    }
}

/// Whether `musig2::verify_single` accepts `signature` as a signature on
/// `message` under the public key that `identity` encodes. False where
/// `identity` is no public key.
pub uninterp spec fn signature_verifies(
    identity: Seq<u8>,
    signature: Seq<u8>,
    message: Seq<u8>,
) -> bool;

/// Calls `musig2::verify_single`, which parses `signature` itself and
/// returns an error for any signature that it does not accept.
#[verifier::external_body]
pub(crate) fn verify_signature(identity: &Vec<u8>, signature: &Vec<u8>, message: &Vec<u8>) -> (r:
    bool)
    ensures
        r == signature_verifies(identity@, signature@, message@),
{
    match secp256k1::PublicKey::from_slice(identity) {
        Ok(key) => musig2::verify_single(key, signature.as_slice(), message).is_ok(),
        Err(_) => false,
    }
}

/// Whether `secp256k1::SecretKey::from_byte_array` takes `bytes` as a secret
/// key.
pub uninterp spec fn is_secret_key(bytes: Seq<u8>) -> bool;

/// Calls `secp256k1::SecretKey::from_byte_array`, which takes 32 bytes.
#[verifier::external_body]
pub(crate) fn check_secret_key(bytes: &[u8]) -> (r: bool)
    ensures
        r == is_secret_key(bytes@),
        r ==> bytes@.len() == 32,
{
    match <[u8; 32]>::try_from(bytes) {
        Ok(array) => secp256k1::SecretKey::from_byte_array(array).is_ok(),
        Err(_) => false,
    }
}

/// Calls `secp256k1::SecretKey::new` with the thread's random number
/// generator and takes the 32 bytes of the key, which are a secret key.
/// Nothing else is stated of the outcome.
#[verifier::external_body]
pub(crate) fn generate_secret_key() -> (r: Vec<u8>)
    ensures
        is_secret_key(r@),
        r@.len() == 32,
{
    secp256k1::SecretKey::new(&mut rand::rng()).secret_bytes().to_vec()
}

/// The compressed encoding of the public key of a secret key, as
/// `secp256k1::PublicKey::from_secret_key` derives it.
pub uninterp spec fn public_key_of_secret(secret: Seq<u8>) -> Seq<u8>;

/// Calls `secp256k1::PublicKey::from_secret_key` and `PublicKey::serialize`,
/// which returns an array of 33 bytes. What `serialize` writes,
/// `PublicKey::from_slice` reads back as the same key, so the bytes are the
/// compressed encoding of a public key.
#[verifier::external_body]
pub(crate) fn public_key_of(secret: &Vec<u8>) -> (r: Vec<u8>)
    requires
        is_secret_key(secret@),
    ensures
        r@ == public_key_of_secret(secret@),
        r@.len() == 33,
        public_key_encoding(r@) == Some(r@),
{
    let key = secp256k1::SecretKey::from_byte_array(secret.as_slice().try_into().unwrap()).unwrap();
    let secp = secp256k1::Secp256k1::new();
    secp256k1::PublicKey::from_secret_key(&secp, &key).serialize().to_vec()
}

/// Draws 32 random bytes from `rand::rng()`. Nothing is stated of the
/// outcome.
#[verifier::external_body]
pub(crate) fn fresh_nonce_seed() -> [u8; 32] {
    rand::Rng::random::<[u8; 32]>(&mut rand::rng())
}

/// The number of keys in a serialized `musig2::KeyAggContext`; `None` where
/// `KeyAggContext::from_bytes` refuses the bytes.
pub uninterp spec fn context_size_of(context: Seq<u8>) -> Option<nat>;

/// Calls `musig2::KeyAggContext::from_bytes` and, on success, takes the
/// length of `KeyAggContext::pubkeys`. The bytes have a size exactly where
/// they have an aggregated identity: both are had by decoding them.
#[verifier::external_body]
pub(crate) fn context_size(context: &Vec<u8>) -> (r: Option<usize>)
    ensures
        match r {
            Some(size) => context_size_of(context@) == Some(size as nat),
            None => context_size_of(context@) is None,
        },
        r is Some == aggregated_identity(context@) is Some,
{
    match musig2::KeyAggContext::from_bytes(context) {
        Ok(ctx) => Some(ctx.pubkeys().len()),
        Err(_) => None,
    }
}

/// The public nonce of the signer at `index` of a context, as
/// `musig2::FirstRound::new` makes it from the seed, with the secret key and
/// the message as spices; `None` where the context or the secret key cannot
/// be read, the index is out of range, or the secret key is not that of the
/// signer at the index.
pub uninterp spec fn round_nonce(
    context: Seq<u8>,
    seed: Seq<u8>,
    index: nat,
    secret: Seq<u8>,
    message: Seq<u8>,
) -> Option<Seq<u8>>;

/// Calls `musig2::FirstRound::new` on the decoded context and
/// `FirstRound::our_public_nonce`, serialized to its 66 bytes.
#[verifier::external_body]
pub(crate) fn first_round_nonce(
    context: &Vec<u8>,
    seed: [u8; 32],
    index: usize,
    secret: &Vec<u8>,
    message: &Vec<u8>,
) -> (r: Option<Vec<u8>>)
    ensures
        match r {
            Some(nonce) => round_nonce(context@, seed@, index as nat, secret@, message@) == Some(
                nonce@,
            ) && nonce@.len() == 66,
            None => round_nonce(context@, seed@, index as nat, secret@, message@) is None,
        },
{
    let ctx = musig2::KeyAggContext::from_bytes(context).ok()?;
    let key = secp256k1::SecretKey::from_byte_array(secret.as_slice().try_into().ok()?).ok()?;
    let spices = musig2::SecNonceSpices::new().with_seckey(key).with_message(message);
    let round = musig2::FirstRound::new(ctx, seed, index, spices).ok()?;
    Some(round.our_public_nonce().serialize().to_vec())
}

/// The partial signature of the signer at `index`, as
/// `musig2::FirstRound::finalize` makes it once the round that
/// `FirstRound::new` sets up has received the public nonces of all signers,
/// in the order of their indices; `None` where the round cannot be set up, a
/// nonce is refused or missing, or signing fails.
pub uninterp spec fn round_partial_signature(
    context: Seq<u8>,
    seed: Seq<u8>,
    index: nat,
    secret: Seq<u8>,
    message: Seq<u8>,
    nonces: Seq<Seq<u8>>,
) -> Option<Seq<u8>>;

/// Calls `musig2::FirstRound::new`, `FirstRound::receive_nonce` for each
/// nonce at its index, `FirstRound::finalize`, and
/// `SecondRound::our_signature`, serialized to its 32 bytes.
#[verifier::external_body]
pub(crate) fn first_round_sign(
    context: &Vec<u8>,
    seed: [u8; 32],
    index: usize,
    secret: &Vec<u8>,
    message: &Vec<u8>,
    nonces: &Vec<Vec<u8>>,
) -> (r: Option<Vec<u8>>)
    ensures
        match r {
            Some(signature) => round_partial_signature(
                context@,
                seed@,
                index as nat,
                secret@,
                message@,
                byte_views(nonces@),
            ) == Some(signature@) && signature@.len() == 32,
            None => round_partial_signature(
                context@,
                seed@,
                index as nat,
                secret@,
                message@,
                byte_views(nonces@),
            ) is None,
        },
{
    let ctx = musig2::KeyAggContext::from_bytes(context).ok()?;
    let key = secp256k1::SecretKey::from_byte_array(secret.as_slice().try_into().ok()?).ok()?;
    let spices = musig2::SecNonceSpices::new().with_seckey(key).with_message(message);
    let mut round = musig2::FirstRound::new(ctx, seed, index, spices).ok()?;
    for (i, nonce) in nonces.iter().enumerate() {
        round.receive_nonce(i, musig2::PubNonce::from_bytes(nonce).ok()?).ok()?;
    }
    let second = round.finalize(key, message.clone()).ok()?;
    Some(second.our_signature::<musig2::PartialSignature>().serialize().to_vec())
}

/// Whether `musig2::PubNonce::from_bytes` reads `bytes` as a public nonce.
pub uninterp spec fn is_public_nonce(bytes: Seq<u8>) -> bool;

/// Calls `musig2::PubNonce::from_bytes`, which refuses whatever is not 66
/// bytes long.
#[verifier::external_body]
pub(crate) fn check_public_nonce(bytes: &Vec<u8>) -> (r: bool)
    ensures
        r == is_public_nonce(bytes@),
        r ==> bytes@.len() == 66,
{
    musig2::PubNonce::from_bytes(bytes).is_ok()
}

/// Whether `musig2::PartialSignature::from_slice` reads `bytes` as a partial
/// signature.
pub uninterp spec fn is_partial_signature(bytes: Seq<u8>) -> bool;

/// Calls `musig2::PartialSignature::from_slice`, which refuses whatever is
/// not 32 bytes long.
#[verifier::external_body]
pub(crate) fn check_partial_signature(bytes: &Vec<u8>) -> (r: bool)
    ensures
        r == is_partial_signature(bytes@),
        r ==> bytes@.len() == 32,
{
    musig2::PartialSignature::from_slice(bytes).is_ok()
}

/// Whether `musig2::verify_partial` accepts `signature` as the partial
/// signature of the signer at `index` of the context on `message`, under the
/// sum of the public nonces of all signers. False where the context, a
/// nonce or the signature cannot be read, or the index is out of range.
pub uninterp spec fn partial_signature_verifies(
    context: Seq<u8>,
    nonces: Seq<Seq<u8>>,
    message: Seq<u8>,
    index: nat,
    signature: Seq<u8>,
) -> bool;

/// Calls `musig2::verify_partial` with the decoded context, the
/// `AggNonce::sum` of the decoded nonces, and the key and the nonce of the
/// signer at `index`.
#[verifier::external_body]
pub(crate) fn verify_partial_signature(
    context: &Vec<u8>,
    nonces: &Vec<Vec<u8>>,
    message: &Vec<u8>,
    index: usize,
    signature: &Vec<u8>,
) -> (r: bool)
    ensures
        r == partial_signature_verifies(
            context@,
            byte_views(nonces@),
            message@,
            index as nat,
            signature@,
        ),
{
    let Ok(ctx) = musig2::KeyAggContext::from_bytes(context) else { return false };
    let parsed: Result<Vec<_>, _> = nonces.iter().map(|n| musig2::PubNonce::from_bytes(n)).collect();
    let (Ok(parsed), Ok(sig)) = (parsed, musig2::PartialSignature::from_slice(signature)) else {
        return false
    };
    let (Some(key), Some(nonce)) = (ctx.get_pubkey::<musig2::secp::Point>(index), parsed.get(index))
    else { return false };
    musig2::verify_partial(&ctx, sig, &musig2::AggNonce::sum(&parsed), key, nonce, message).is_ok()
}

/// The signature that `musig2::aggregate_partial_signatures` makes of the
/// partial signatures of all signers on `message`, under the sum of their
/// public nonces; `None` where the context, a nonce or a partial signature
/// cannot be read, or the aggregated signature does not verify.
pub uninterp spec fn final_signature_of(
    context: Seq<u8>,
    nonces: Seq<Seq<u8>>,
    message: Seq<u8>,
    partial_signatures: Seq<Seq<u8>>,
) -> Option<Seq<u8>>;

/// Calls `musig2::aggregate_partial_signatures` with the decoded context,
/// the `AggNonce::sum` of the decoded nonces and the decoded partial
/// signatures, and serializes the signature to its 64 bytes.
#[verifier::external_body]
pub(crate) fn aggregate_signatures(
    context: &Vec<u8>,
    nonces: &Vec<Vec<u8>>,
    message: &Vec<u8>,
    partial_signatures: &Vec<Vec<u8>>,
) -> (r: Option<Vec<u8>>)
    ensures
        match r {
            Some(signature) => final_signature_of(
                context@,
                byte_views(nonces@),
                message@,
                byte_views(partial_signatures@),
            ) == Some(signature@) && signature@.len() == 64,
            None => final_signature_of(
                context@,
                byte_views(nonces@),
                message@,
                byte_views(partial_signatures@),
            ) is None,
        },
{
    let ctx = musig2::KeyAggContext::from_bytes(context).ok()?;
    let parsed: Result<Vec<_>, _> = nonces.iter().map(|n| musig2::PubNonce::from_bytes(n)).collect();
    let sigs: Result<Vec<_>, _> =
        partial_signatures.iter().map(|s| musig2::PartialSignature::from_slice(s)).collect();
    let sum = musig2::AggNonce::sum(&parsed.ok()?);
    let signature: musig2::CompactSignature =
        musig2::aggregate_partial_signatures(&ctx, &sum, sigs.ok()?, message).ok()?;
    Some(signature.serialize().to_vec())
}

/// Calls `hex::encode`, which writes two lower-case hexadecimal digits for
/// each byte.
#[verifier::external_body]
pub(crate) fn hex_encode(bytes: &Vec<u8>) -> (r: String)
    ensures
        r@ == hex_encoding(bytes@),
{
    hex::encode(bytes)
}

/// Calls `hex::decode`, which takes an even number of hexadecimal digits of
/// either case and refuses anything else.
#[verifier::external_body]
pub(crate) fn hex_decode(text: &str) -> (r: Option<Vec<u8>>)
    ensures
        match r {
            Some(bytes) => hex_decoding(text@) == Some(bytes@),
            None => hex_decoding(text@) is None,
        },
{
    hex::decode(text).ok()
}

/// Whether `musig2::CompactSignature::from_bytes` reads `bytes` as a
/// signature.
pub uninterp spec fn is_compact_signature(bytes: Seq<u8>) -> bool;

/// Calls `musig2::CompactSignature::from_bytes`, which refuses whatever is
/// not 64 bytes long.
#[verifier::external_body]
pub(crate) fn check_compact_signature(bytes: &Vec<u8>) -> (r: bool)
    ensures
        r == is_compact_signature(bytes@),
        r ==> bytes@.len() == 64,
{
    musig2::CompactSignature::from_bytes(bytes).is_ok()
}

/// Calls `uuid::Uuid::new_v4`, which draws 122 random bits, and formats the
/// identifier as a string. Nothing is stated of the outcome.
#[verifier::external_body]
pub(crate) fn fresh_session_id() -> String {
    uuid::Uuid::new_v4().to_string()
}

} // verus!
