//! Public identities: the compressed encoding of a participant's public key.

use vstd::prelude::*;
use crate::bytes::{bytes_copy, bytes_eq, bytes_le, lex_le};
use crate::crypto::{
    check_secret_key,
    generate_secret_key,
    is_secret_key,
    parse_public_key,
    parse_public_key_text,
    public_key_encoding,
    public_key_of,
    public_key_of_secret,
    public_key_of_text,
};

verus! {

/// Length in bytes of an identity.
pub const IDENTITY_LEN: usize = 33;

/// A participant's secret key. Its view is the 32 bytes of the key, which
/// leave the key only towards the signing functions.
pub struct SigningKey {
    bytes: Vec<u8>,
}

impl View for SigningKey {
    type V = Seq<u8>;

    closed spec fn view(&self) -> Seq<u8> {
        self.bytes@
    }
}

impl SigningKey {
    #[verifier::type_invariant]
    spec fn well_formed(&self) -> bool {
        is_secret_key(self.bytes@)
    }

    /// A freshly drawn secret key.
    pub fn generate() -> (r: SigningKey)
        ensures
            is_secret_key(r@),
    {
        SigningKey { bytes: generate_secret_key() }
    }

    /// The secret key of the given 32 bytes; `None` where they are no
    /// secret key.
    pub fn from_bytes(bytes: &[u8]) -> (r: Option<SigningKey>)
        ensures
            match r {
                Some(key) => key@ == bytes@ && is_secret_key(bytes@),
                None => !is_secret_key(bytes@),
            },
    {
        if check_secret_key(bytes) {
            Some(SigningKey { bytes: vstd::slice::slice_to_vec(bytes) })
        } else {
            None
        }
    }

    /// The bytes of the key.
    pub fn as_bytes(&self) -> (r: &Vec<u8>)
        ensures
            r@ == self@,
            is_secret_key(r@),
    {
        proof {
            use_type_invariant(self);
        }
        &self.bytes
    }
}

/// A participant's public identity. Its view is the 33-byte compressed
/// encoding of the public key.
pub struct Identity {
    bytes: Vec<u8>,
}

impl View for Identity {
    type V = Seq<u8>;

    closed spec fn view(&self) -> Seq<u8> {
        self.bytes@
    }
}

/// The encodings of a sequence of identities, in the same order.
pub open spec fn identity_views(s: Seq<Identity>) -> Seq<Seq<u8>> {
    s.map_values(|i: Identity| i@)
}

impl Identity {
    #[verifier::type_invariant]
    spec fn well_formed(&self) -> bool {
        self.bytes@.len() == IDENTITY_LEN
    }

    /// The identity that `bytes` encodes (compressed or uncompressed), in its
    /// compressed encoding; `None` where `bytes` encodes no public key.
    pub fn from_slice(bytes: &[u8]) -> (r: Option<Identity>)
        ensures
            match r {
                Some(id) => public_key_encoding(bytes@) == Some(id@),
                None => public_key_encoding(bytes@) is None,
            },
    {
        match parse_public_key(bytes) {
            Some(key) => Some(Identity { bytes: key }),
            None => None,
        }
    }

    /// The identity that `text` spells in hexadecimal; `None` where `text`
    /// spells no public key.
    pub fn from_text(text: &str) -> (r: Option<Identity>)
        ensures
            match r {
                Some(id) => public_key_of_text(text@) == Some(id@),
                None => public_key_of_text(text@) is None,
            },
    {
        match parse_public_key_text(text) {
            Some(key) => Some(Identity { bytes: key }),
            None => None,
        }
    }

    /// The public identity that belongs to a secret key: the compressed
    /// encoding of its public key, which reads back as itself.
    pub fn of_secret_key(secret_key: &SigningKey) -> (r: Identity)
        ensures
            r@ == public_key_of_secret(secret_key@),
            r@.len() == IDENTITY_LEN,
            public_key_encoding(r@) == Some(r@),
    {
        proof {
            use_type_invariant(secret_key);
        }
        Identity { bytes: public_key_of(&secret_key.bytes) }
    }

    /// The encoding of this identity.
    pub fn as_bytes(&self) -> (r: &Vec<u8>)
        ensures
            r@ == self@,
            r@.len() == IDENTITY_LEN,
    {
        proof {
            use_type_invariant(self);
        }
        &self.bytes
    }

    /// A copy of the encoding of this identity.
    pub fn to_bytes(&self) -> (r: Vec<u8>)
        ensures
            r@ == self@,
            r@.len() == IDENTITY_LEN,
    {
        proof {
            use_type_invariant(self);
        }
        bytes_copy(&self.bytes)
    }

    /// Whether two identities are the same key.
    pub fn same_as(&self, other: &Identity) -> (r: bool)
        ensures
            r == (self@ == other@),
    {
        bytes_eq(&self.bytes, &other.bytes)
    }

    /// Whether this identity comes before or equals `other` in the canonical
    /// order, which is the lexicographic order of the encodings.
    pub fn precedes(&self, other: &Identity) -> (r: bool)
        ensures
            r == lex_le(self@, other@),
    {
        bytes_le(&self.bytes, &other.bytes)
    }
}

impl Clone for Identity {
    fn clone(&self) -> (r: Self)
        ensures
            r@ == self@,
    {
        proof {
            use_type_invariant(self);
        }
        Identity { bytes: bytes_copy(&self.bytes) }
    }
}

} // verus!
