//! The consistency check at the end of a session: all participants must have
//! arrived at the same signature, and that signature must verify under the
//! aggregated identity.

use vstd::prelude::*;
use crate::bytes::{byte_views, bytes_copy, bytes_eq};
use crate::crypto::{signature_verifies, verify_signature};

verus! {

/// Why the outcome of a session was not accepted.
#[derive(Debug, Clone, Copy, PartialEq, Eq, Structural)]
pub enum ConsistencyError {
    /// There is no signature to check.
    NoSignatures,
    /// Two participants arrived at different signatures.
    InconsistentSignatures,
    /// The signature does not verify under the aggregated identity.
    InvalidSignature,
}

/// Whether all the signatures are the same bytes.
pub open spec fn all_identical(signatures: Seq<Seq<u8>>) -> bool {
    forall|i: int, j: int|
        0 <= i < signatures.len() && 0 <= j < signatures.len() ==> signatures[i] == signatures[j]
}

/// The outcome of the check, given whether the first signature verified.
pub open spec fn verdict(signatures: Seq<Seq<u8>>, verified: bool) -> Result<
    Seq<u8>,
    ConsistencyError,
> {
    if signatures.len() == 0 {
        Err(ConsistencyError::NoSignatures)
    } else if !all_identical(signatures) {
        Err(ConsistencyError::InconsistentSignatures)
    } else if !verified {
        Err(ConsistencyError::InvalidSignature)
    } else {
        Ok(signatures[0])
    }
}

/// Whether all the signatures are the same bytes.
pub fn signatures_agree(signatures: &Vec<Vec<u8>>) -> (r: bool)
    ensures
        r == all_identical(byte_views(signatures@)),
{
    let ghost views = byte_views(signatures@);
    let mut i: usize = 1;
    while i < signatures.len()
        invariant
            1 <= i,
            views == byte_views(signatures@),
            forall|k: int| 0 <= k < i && k < views.len() ==> (#[trigger] views[k]) == views[0],
        decreases signatures@.len() - i,
    {
        if !bytes_eq(&signatures[i], &signatures[0]) {
            assert(views[i as int] != views[0]);
            return false;
        }
        i += 1;
    }
    true
}

/// The outcome of the check on the signatures that the participants
/// returned, where `verified` says whether the first of them verifies under
/// the aggregated identity.
pub fn consistency_verdict(signatures: &Vec<Vec<u8>>, verified: bool) -> (r: Result<
    Vec<u8>,
    ConsistencyError,
>)
    ensures
        match r {
            Ok(signature) => verdict(byte_views(signatures@), verified) == Ok::<
                Seq<u8>,
                ConsistencyError,
            >(signature@),
            Err(e) => verdict(byte_views(signatures@), verified) == Err::<
                Seq<u8>,
                ConsistencyError,
            >(e),
        },
{
    if signatures.len() == 0 {
        return Err(ConsistencyError::NoSignatures);
    }
    if !signatures_agree(signatures) {
        return Err(ConsistencyError::InconsistentSignatures);
    }
    if !verified {
        return Err(ConsistencyError::InvalidSignature);
    }
    Ok(bytes_copy(&signatures[0]))
}

/// Checks the signatures that the participants returned: they must all be
/// the same bytes, and must verify on `message` under `aggregated_identity`.
/// Returns the accepted signature.
pub fn check_signatures(
    signatures: &Vec<Vec<u8>>,
    aggregated_identity: &Vec<u8>,
    message: &Vec<u8>,
) -> (r: Result<Vec<u8>, ConsistencyError>)
    ensures
        match r {
            Ok(signature) => {
                &&& signatures@.len() > 0
                &&& verdict(
                    byte_views(signatures@),
                    signature_verifies(aggregated_identity@, signatures@[0]@, message@),
                ) == Ok::<Seq<u8>, ConsistencyError>(signature@)
            },
            Err(e) => verdict(
                byte_views(signatures@),
                signatures@.len() > 0 && signature_verifies(
                    aggregated_identity@,
                    signatures@[0]@,
                    message@,
                ),
            ) == Err::<Seq<u8>, ConsistencyError>(e),
        },
{
    if signatures.len() == 0 {
        return Err(ConsistencyError::NoSignatures);
    }
    let verified = verify_signature(aggregated_identity, &signatures[0], message);
    consistency_verdict(signatures, verified)
}

/// Checks one locally finalized signature: it must verify on `message` under
/// `aggregated_identity`.
pub fn check_signature(signature: &Vec<u8>, aggregated_identity: &Vec<u8>, message: &Vec<u8>) -> (r:
    Result<(), ConsistencyError>)
    ensures
        match r {
            Ok(()) => signature_verifies(aggregated_identity@, signature@, message@),
            Err(e) => e == ConsistencyError::InvalidSignature && !signature_verifies(
                aggregated_identity@,
                signature@,
                message@,
            ),
        },
{
    if verify_signature(aggregated_identity, signature, message) {
        Ok(())
    } else {
        Err(ConsistencyError::InvalidSignature)
    }
}

} // verus!
