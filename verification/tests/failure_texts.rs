use musig2_example::barrier::ContributionError;
use musig2_example::consistency::ConsistencyError;
use musig2_example::error::registration_outcome;
use musig2_example::hub::{HubError, HubPhase};
use musig2_example::round::{RoundError, RoundPhase};
use musig2_example::signer::SignerError;
use musig2_example::text::{number_to_string, numbered};

#[test]
fn numbers_in_words() {
    assert_eq!(number_to_string(0), "0");
    assert_eq!(number_to_string(42), "42");
    assert_eq!(number_to_string(1000000), "1000000");
    assert_eq!(number_to_string(usize::MAX), format!("{}", usize::MAX));
    assert_eq!(numbered("index ", 12), "index 12");
}

#[test]
fn a_refused_registration_carries_the_hub_s_words() {
    assert!(registration_outcome(true, "ignored".to_string()).is_ok());
    let refused = registration_outcome(false, "duplicate identity".to_string());
    assert_eq!(refused.err().unwrap().0, "duplicate identity");
}

#[test]
fn a_signer_describes_its_failures() {
    assert_eq!(SignerError::RoundNotFound.describe_generate_nonce().0, "Failed to generate nonce");
    assert_eq!(
        SignerError::NoActiveSession.describe_receive_nonces().0,
        "No active session found"
    );
    assert_eq!(SignerError::RoundNotFound.describe_receive_nonces().0, "First round not found");
    assert_eq!(
        SignerError::Round(RoundError::InvalidNonceFormat { index: 2 }).describe_receive_nonces().0,
        "Invalid nonce format"
    );
    assert_eq!(
        SignerError::Round(RoundError::Rejected { index: 17 })
            .describe_receive_nonces()
            .0,
        "Failed to receive nonce from index 17"
    );
    assert_eq!(
        SignerError::MissingContribution { index: 3 }.describe_receive_nonces().0,
        "Missing nonce from index 3"
    );
    assert_eq!(
        SignerError::Round(RoundError::FinalizeFailed).describe_receive_nonces().0,
        "Failed to finalize first round"
    );
    assert_eq!(
        SignerError::WrongCount { expected: 2, found: 1 }.describe_receive_nonces().0,
        "Failed to finalize first round"
    );
    assert_eq!(
        SignerError::RoundNotFound.describe_receive_partial_signatures().0,
        "Second round not found"
    );
    assert_eq!(
        SignerError::Round(RoundError::InvalidPartialSignatureFormat { index: 0 })
            .describe_receive_partial_signatures()
            .0,
        "Failed to receive partial signature from index 0"
    );
    assert_eq!(
        SignerError::Round(RoundError::Rejected { index: 4 })
        .describe_receive_partial_signatures()
        .0,
        "Failed to receive partial signature from index 4"
    );
    assert_eq!(
        SignerError::MissingContribution { index: 1 }.describe_receive_partial_signatures().0,
        "Missing partial signature from index 1"
    );
    assert_eq!(
        SignerError::Round(RoundError::InvalidTransition { phase: RoundPhase::Fresh })
            .describe_receive_partial_signatures()
            .0,
        "Failed to finalize signature"
    );
}

#[test]
fn the_hub_describes_its_failures_with_phase_and_index() {
    assert_eq!(
        HubError::Transport { phase: HubPhase::CollectingNonces, index: 1 }.describe().0,
        "Failed to request nonce from signer 1"
    );
    assert_eq!(
        HubError::Transport { phase: HubPhase::CollectingPartialSignatures, index: 0 }.describe().0,
        "Failed to distribute nonces to signer 0"
    );
    assert_eq!(
        HubError::Transport { phase: HubPhase::CollectingFinalSignatures, index: 12 }.describe().0,
        "Failed to send partial signatures to signer 12"
    );
    assert_eq!(
        HubError::Consistency(ConsistencyError::InconsistentSignatures).describe().0,
        "Inconsistent final signatures"
    );
    assert_eq!(
        HubError::Consistency(ConsistencyError::InvalidSignature).describe().0,
        "Invalid final signature"
    );
    assert_eq!(
        HubError::Consistency(ConsistencyError::NoSignatures).describe().0,
        "No final signatures"
    );
    assert_eq!(
        HubError::Contribution {
            phase: HubPhase::CollectingNonces,
            index: 5,
            reason: ContributionError::OutOfRange
        }
        .describe()
        .0,
        "Nonce refused from signer 5"
    );
    assert_eq!(
        HubError::Contribution {
            phase: HubPhase::CollectingPartialSignatures,
            index: 6,
            reason: ContributionError::Inconsistent
        }
        .describe()
        .0,
        "Partial signature refused from signer 6"
    );
    assert_eq!(
        HubError::Contribution {
            phase: HubPhase::CollectingFinalSignatures,
            index: 7,
            reason: ContributionError::Inconsistent
        }
        .describe()
        .0,
        "Final signature refused from signer 7"
    );
    assert_eq!(
        HubError::UnexpectedPhase { current: HubPhase::Completed }.describe().0,
        "Answer out of phase"
    );
}
