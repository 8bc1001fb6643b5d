use std::collections::HashMap;

use musig2_example::identity::{Identity, SigningKey};
use musig2_example::round::{RoundError, RoundPhase, RoundTable, SignerRound};
use musig2_example::session::{aggregated_public_key, build_context};
use musig2_example::signer::{collect_nonces, collect_partial_signatures, Signer, SignerError};
use musig2_example::types::{
    GenerateNonceRequest,
    ReceiveNoncesRequest,
    ReceivePartialSignaturesRequest,
};

fn secret(byte: u8) -> SigningKey {
    SigningKey::from_bytes(&[byte; 32]).unwrap()
}

fn group(n: u8) -> (Vec<SigningKey>, Vec<Identity>, Vec<u8>) {
    let secrets: Vec<_> = (1..=n).map(secret).collect();
    let ids: Vec<Identity> = secrets.iter().map(Identity::of_secret_key).collect();
    let context = build_context(&ids).unwrap();
    (secrets, ids, context)
}

fn started(n: u8, message: &[u8]) -> (Vec<SigningKey>, Vec<u8>, Vec<SignerRound>) {
    let (secrets, _, context) = group(n);
    let mut rounds = Vec::new();
    for i in 0..n as usize {
        let round = SignerRound::fresh([i as u8 + 1; 32])
            .generate(&context, i, &secrets[i], message.to_vec())
            .unwrap();
        rounds.push(round);
    }
    (secrets, context, rounds)
}

#[test]
fn identity_of_a_secret_key() {
    let secp = musig2::secp256k1::Secp256k1::new();
    let key = musig2::secp256k1::SecretKey::from_byte_array([9; 32]).unwrap();
    let expected = musig2::secp256k1::PublicKey::from_secret_key(&secp, &key);
    assert_eq!(Identity::of_secret_key(&secret(9)).to_bytes(), expected.serialize().to_vec());
}

#[test]
fn identity_of_a_secret_key_reads_back_as_itself() {
    for byte in [1u8, 2, 9, 200] {
        let id = Identity::of_secret_key(&secret(byte));
        assert_eq!(id.as_bytes().len(), 33);
        let again = Identity::from_slice(id.as_bytes()).unwrap();
        assert_eq!(again.to_bytes(), id.to_bytes());
        assert!(again.same_as(&id));
    }
    assert!(!Identity::of_secret_key(&secret(1)).same_as(&Identity::of_secret_key(&secret(2))));
}

#[test]
fn a_round_moves_forward_only() {
    let message = b"forward".to_vec();
    let (secrets, context, _) = started(2, &message);
    let fresh = SignerRound::fresh([9; 32]);
    assert_eq!(fresh.current_phase(), RoundPhase::Fresh);
    assert!(fresh.public_nonce().is_none());
    assert!(fresh.partial_signature().is_none());
    assert!(fresh.signature().is_none());
    assert!(!fresh.is_complete());
    assert!(matches!(
        SignerRound::fresh([9; 32]).deliver_nonce(1, vec![0; 66]),
        Err(RoundError::InvalidTransition { phase: RoundPhase::Fresh })
    ));
    assert!(matches!(
        SignerRound::fresh([9; 32]).sign(&secrets[0]),
        Err(RoundError::InvalidTransition { phase: RoundPhase::Fresh })
    ));
    assert!(matches!(
        SignerRound::fresh([9; 32]).finalize(),
        Err(RoundError::InvalidTransition { phase: RoundPhase::Fresh })
    ));
    let ready = fresh.generate(&context, 0, &secrets[0], message.clone()).unwrap();
    assert_eq!(ready.current_phase(), RoundPhase::NonceReady);
    assert_eq!(ready.own_index(), 0);
    assert_eq!(ready.signers(), 2);
    assert_eq!(ready.message_bytes(), &message);
    assert_eq!(ready.holdouts(), vec![1]);
    assert_eq!(ready.public_nonce().unwrap().len(), 66);
    assert!(matches!(
        ready.generate(&context, 0, &secrets[0], message.clone()),
        Err(RoundError::InvalidTransition { phase: RoundPhase::NonceReady })
    ));
    let ready = SignerRound::fresh([9; 32]).generate(&context, 0, &secrets[0], message.clone()).unwrap();
    assert!(matches!(
        ready.sign(&secrets[0]),
        Err(RoundError::InvalidTransition { phase: RoundPhase::NonceReady })
    ));
    let ready = SignerRound::fresh([9; 32]).generate(&context, 0, &secrets[0], message.clone()).unwrap();
    assert!(matches!(
        ready.deliver_partial_signature(1, vec![0; 32]),
        Err(RoundError::InvalidTransition { phase: RoundPhase::NonceReady })
    ));
}

#[test]
fn setting_up_a_round_checks_context_index_and_key() {
    let (secrets, _, context) = group(3);
    let message = b"setup".to_vec();
    assert!(matches!(
        SignerRound::fresh([1; 32]).generate(&vec![1, 2, 3], 0, &secrets[0], message.clone()),
        Err(RoundError::InvalidContext)
    ));
    assert!(matches!(
        SignerRound::fresh([1; 32]).generate(&context, 3, &secrets[0], message.clone()),
        Err(RoundError::InvalidSignerIndex { index: 3, size: 3 })
    ));
    assert!(matches!(
        SignerRound::fresh([1; 32]).generate(&context, 1, &secrets[0], message.clone()),
        Err(RoundError::SetupFailed)
    ));
    let a = SignerRound::fresh([1; 32]).generate(&context, 1, &secrets[1], message.clone()).unwrap();
    let b = SignerRound::fresh([1; 32]).generate(&context, 1, &secrets[1], message.clone()).unwrap();
    let c = SignerRound::fresh([2; 32]).generate(&context, 1, &secrets[1], message.clone()).unwrap();
    assert_eq!(a.public_nonce(), b.public_nonce());
    assert_ne!(a.public_nonce(), c.public_nonce());
}

#[test]
fn the_gate_opens_only_with_all_peer_nonces() {
    let message = b"gate".to_vec();
    let (secrets, context, mut rounds) = started(3, &message);
    let nonces: Vec<Vec<u8>> = rounds.iter().map(|r| r.public_nonce().unwrap().clone()).collect();
    let round = rounds.remove(0);
    let round = round.deliver_nonce(1, nonces[1].clone()).unwrap();
    assert_eq!(round.current_phase(), RoundPhase::NonceReady);
    assert_eq!(round.holdouts(), vec![2]);
    assert!(round.partial_signature().is_none());
    let round = round.deliver_nonce(1, nonces[1].clone()).unwrap();
    assert_eq!(round.current_phase(), RoundPhase::NonceReady);
    let round = round.deliver_nonce(2, nonces[2].clone()).unwrap();
    assert_eq!(round.current_phase(), RoundPhase::NoncesCollected);
    assert!(round.is_complete());
    assert!(round.partial_signature().is_none());
    let round = round.sign(&secrets[0]).unwrap();
    assert_eq!(round.current_phase(), RoundPhase::PartialSigReady);
    assert_eq!(round.partial_signature().unwrap().len(), 32);
    assert_eq!(round.holdouts(), vec![1, 2]);
    assert!(!round.is_complete());
    assert!(matches!(
        round.finalize(),
        Err(RoundError::InvalidTransition { phase: RoundPhase::PartialSigReady })
    ));
    let again = SignerRound::fresh([1; 32]).generate(&context, 0, &secrets[0], message).unwrap();
    let again = again.deliver_nonce(2, nonces[2].clone()).unwrap();
    assert!(matches!(
        again.deliver_nonce(2, nonces[1].clone()),
        Err(RoundError::Inconsistent { index: 2 })
    ));
}

#[test]
fn a_round_names_the_peer_whose_contribution_is_bad() {
    let message = b"blame".to_vec();
    let (_, _, mut rounds) = started(3, &message);
    let nonces: Vec<Vec<u8>> = rounds.iter().map(|r| r.public_nonce().unwrap().clone()).collect();
    assert!(matches!(
        rounds.remove(0).deliver_nonce(0, nonces[0].clone()),
        Err(RoundError::NotAPeer { index: 0 })
    ));
    assert!(matches!(
        rounds.remove(0).deliver_nonce(3, nonces[0].clone()),
        Err(RoundError::NotAPeer { index: 3 })
    ));
    assert!(matches!(
        rounds.remove(0).deliver_nonce(1, vec![2; 65]),
        Err(RoundError::InvalidNonceFormat { index: 1 })
    ));
}

#[test]
fn the_whole_exchange_by_maps() {
    let message = b"maps".to_vec();
    let (secrets, context, rounds) = started(3, &message);
    let nonces: Vec<Vec<u8>> = rounds.iter().map(|r| r.public_nonce().unwrap().clone()).collect();
    let mut signed = Vec::new();
    for (i, round) in rounds.into_iter().enumerate() {
        let mut others = HashMap::new();
        for j in 0..3 {
            if j != i {
                others.insert(j, nonces[j].clone());
            }
        }
        let next = collect_nonces(round, &others, &secrets[i]).unwrap();
        assert_eq!(next.current_phase(), RoundPhase::PartialSigReady);
        signed.push(next);
    }
    let partials: Vec<Vec<u8>> =
        signed.iter().map(|r| r.partial_signature().unwrap().clone()).collect();
    let mut finals = Vec::new();
    for (i, round) in signed.into_iter().enumerate() {
        let mut others = HashMap::new();
        for j in 0..3 {
            if j != i {
                others.insert(j, partials[j].clone());
            }
        }
        let done = collect_partial_signatures(round, &others).unwrap();
        assert_eq!(done.current_phase(), RoundPhase::Finalized);
        assert!(done.is_complete());
        assert!(done.holdouts().is_empty());
        finals.push(done.signature().unwrap().clone());
    }
    assert_eq!(finals[0], finals[1]);
    assert_eq!(finals[0], finals[2]);
    let key = musig2::secp256k1::PublicKey::from_slice(&aggregated_public_key(&context).unwrap())
        .unwrap();
    assert!(musig2::verify_single(key, finals[0].as_slice(), &message).is_ok());
}

#[test]
fn collecting_wants_exactly_one_contribution_per_peer() {
    let message = b"count".to_vec();
    let (secrets, _, mut rounds) = started(3, &message);
    let nonces: Vec<Vec<u8>> = rounds.iter().map(|r| r.public_nonce().unwrap().clone()).collect();
    let mut one = HashMap::new();
    one.insert(1, nonces[1].clone());
    assert_eq!(
        collect_nonces(rounds.remove(0), &one, &secrets[0]).err(),
        Some(SignerError::WrongCount { expected: 2, found: 1 })
    );
    let mut misplaced = HashMap::new();
    misplaced.insert(1, nonces[1].clone());
    misplaced.insert(2, nonces[2].clone());
    assert_eq!(
        collect_nonces(rounds.remove(0), &misplaced, &secrets[1]).err(),
        Some(SignerError::MissingContribution { index: 0 })
    );
    let mut three = HashMap::new();
    three.insert(0, nonces[0].clone());
    three.insert(1, nonces[1].clone());
    three.insert(2, nonces[2].clone());
    assert_eq!(
        collect_nonces(rounds.remove(0), &three, &secrets[2]).err(),
        Some(SignerError::WrongCount { expected: 2, found: 3 })
    );
}

#[test]
fn collecting_names_the_first_missing_or_malformed_peer() {
    let message = b"first".to_vec();
    let (secrets, _, mut rounds) = started(4, &message);
    let nonces: Vec<Vec<u8>> = rounds.iter().map(|r| r.public_nonce().unwrap().clone()).collect();
    let mut bad = HashMap::new();
    bad.insert(0, nonces[0].clone());
    bad.insert(2, vec![1; 66]);
    bad.insert(3, vec![1; 3]);
    assert_eq!(
        collect_nonces(rounds.remove(1), &bad, &secrets[1]).err(),
        Some(SignerError::Round(RoundError::InvalidNonceFormat { index: 2 }))
    );
    let mut missing = HashMap::new();
    missing.insert(0, nonces[0].clone());
    missing.insert(3, nonces[3].clone());
    missing.insert(7, nonces[3].clone());
    assert_eq!(
        collect_nonces(rounds.remove(1), &missing, &secrets[2]).err(),
        Some(SignerError::MissingContribution { index: 1 })
    );
}

#[test]
fn a_wrong_partial_signature_is_rejected_with_its_index() {
    let message = b"partial".to_vec();
    let (secrets, _, rounds) = started(2, &message);
    let nonces: Vec<Vec<u8>> = rounds.iter().map(|r| r.public_nonce().unwrap().clone()).collect();
    let mut signed = Vec::new();
    for (i, round) in rounds.into_iter().enumerate() {
        let mut others = HashMap::new();
        others.insert(1 - i, nonces[1 - i].clone());
        signed.push(collect_nonces(round, &others, &secrets[i]).unwrap());
    }
    let mut wrong = signed[1].partial_signature().unwrap().clone();
    wrong[0] ^= 0x01;
    let round = signed.remove(0);
    assert!(matches!(
        round.deliver_partial_signature(1, wrong),
        Err(RoundError::Rejected { index: 1 })
    ));
    let round = signed.remove(0);
    let mut malformed = HashMap::new();
    malformed.insert(0, vec![0xff; 32]);
    assert_eq!(
        collect_partial_signatures(round, &malformed).err(),
        Some(SignerError::Round(RoundError::InvalidPartialSignatureFormat { index: 0 }))
    );
}

#[test]
fn round_table_keeps_rounds_by_session() {
    let message = b"table".to_vec();
    let (_, _, mut rounds) = started(3, &message);
    let mut table = RoundTable::new();
    assert_eq!(table.len(), 0);
    table.insert("a".to_string(), rounds.remove(0));
    table.insert("b".to_string(), rounds.remove(0));
    assert_eq!(table.len(), 2);
    assert_eq!(table.get(&"a".to_string()).unwrap().own_index(), 0);
    assert_eq!(table.get(&"b".to_string()).unwrap().own_index(), 1);
    assert!(table.get(&"c".to_string()).is_none());
    table.insert("a".to_string(), rounds.remove(0));
    assert_eq!(table.len(), 2);
    assert_eq!(table.get(&"a".to_string()).unwrap().own_index(), 2);
    assert!(table.contains(&"b".to_string()));
    assert_eq!(table.remove(&"b".to_string()).unwrap().own_index(), 1);
    assert!(table.remove(&"b".to_string()).is_none());
    assert!(!table.contains(&"b".to_string()));
    assert_eq!(table.len(), 1);
}

#[test]
fn a_signer_answers_only_for_sessions_it_knows() {
    let mut signer = Signer::new("http://127.0.0.1:3030".to_string(), 4001);
    let registration = signer.register();
    assert_eq!(registration.address, "http://127.0.0.1:4001");
    assert!(registration.public_key.same_as(signer.identity()));
    assert_eq!(signer.operator_address(), "http://127.0.0.1:3030");
    let request =
        ReceiveNoncesRequest { session_id: "s".to_string(), nonces: HashMap::new() };
    assert_eq!(signer.handle_receive_nonces(request).err(), Some(SignerError::NoActiveSession));
    let request = ReceivePartialSignaturesRequest {
        session_id: "s".to_string(),
        partial_signatures: HashMap::new(),
    };
    assert_eq!(
        signer.handle_receive_partial_signatures(request).err(),
        Some(SignerError::RoundNotFound)
    );
    let context = build_context(&vec![signer.identity().clone()]).unwrap();
    let request = GenerateNonceRequest {
        session_id: "s".to_string(),
        message: "m".to_string(),
        key_agg_ctx: vec![9, 9],
        signer_index: 0,
    };
    assert_eq!(
        signer.handle_generate_nonce(request).err(),
        Some(SignerError::Round(RoundError::InvalidContext))
    );
    let request = GenerateNonceRequest {
        session_id: "s".to_string(),
        message: "m".to_string(),
        key_agg_ctx: context.clone(),
        signer_index: 1,
    };
    assert_eq!(
        signer.handle_generate_nonce(request).err(),
        Some(SignerError::Round(RoundError::InvalidSignerIndex { index: 1, size: 1 }))
    );
    let request = GenerateNonceRequest {
        session_id: "s".to_string(),
        message: "m".to_string(),
        key_agg_ctx: context.clone(),
        signer_index: 0,
    };
    let nonce = signer.generate_nonce(request, [7; 32]).unwrap();
    assert_eq!(nonce.len(), 66);
    let request =
        ReceiveNoncesRequest { session_id: "other".to_string(), nonces: HashMap::new() };
    assert_eq!(signer.handle_receive_nonces(request).err(), Some(SignerError::RoundNotFound));
    let request = ReceivePartialSignaturesRequest {
        session_id: "s".to_string(),
        partial_signatures: HashMap::new(),
    };
    assert_eq!(
        signer.handle_receive_partial_signatures(request).err(),
        Some(SignerError::RoundNotFound)
    );
    let mut extra = HashMap::new();
    extra.insert(1, vec![0; 66]);
    let request = ReceiveNoncesRequest { session_id: "s".to_string(), nonces: extra };
    assert_eq!(
        signer.handle_receive_nonces(request).err(),
        Some(SignerError::WrongCount { expected: 0, found: 1 })
    );
    let request = ReceiveNoncesRequest { session_id: "s".to_string(), nonces: HashMap::new() };
    assert_eq!(signer.handle_receive_nonces(request).err(), Some(SignerError::RoundNotFound));
}

#[test]
fn a_signer_keeps_two_sessions_apart() {
    let mut signer = Signer::new("hub".to_string(), 4002);
    let context = build_context(&vec![signer.identity().clone()]).unwrap();
    for id in ["one", "two"] {
        let request = GenerateNonceRequest {
            session_id: id.to_string(),
            message: id.to_string(),
            key_agg_ctx: context.clone(),
            signer_index: 0,
        };
        signer.handle_generate_nonce(request).unwrap();
    }
    let mut finals = Vec::new();
    for id in ["two", "one"] {
        let request = ReceiveNoncesRequest { session_id: id.to_string(), nonces: HashMap::new() };
        let partial = signer.handle_receive_nonces(request).unwrap();
        assert_eq!(partial.partial_signature.len(), 32);
        let request = ReceiveNoncesRequest { session_id: id.to_string(), nonces: HashMap::new() };
        assert_eq!(signer.handle_receive_nonces(request).err(), Some(SignerError::RoundNotFound));
        let request = ReceivePartialSignaturesRequest {
            session_id: id.to_string(),
            partial_signatures: HashMap::new(),
        };
        finals.push((id, signer.handle_receive_partial_signatures(request).unwrap().final_signature));
    }
    let key =
        musig2::secp256k1::PublicKey::from_slice(&aggregated_public_key(&context).unwrap()).unwrap();
    for (id, signature) in finals {
        assert!(musig2::verify_single(key, signature.as_slice(), id).is_ok());
    }
}

#[test]
fn signing_with_another_key_fails() {
    let message = b"wrong key".to_vec();
    let (secrets, _, mut rounds) = started(2, &message);
    let nonces: Vec<Vec<u8>> = rounds.iter().map(|r| r.public_nonce().unwrap().clone()).collect();
    let round = rounds.remove(0).deliver_nonce(1, nonces[1].clone()).unwrap();
    assert!(matches!(round.sign(&secrets[1]), Err(RoundError::FinalizeFailed)));
    let mut others = HashMap::new();
    others.insert(0, nonces[0].clone());
    assert_eq!(
        collect_nonces(rounds.remove(0), &others, &secrets[0]).err(),
        Some(SignerError::Round(RoundError::FinalizeFailed))
    );
}

#[test]
fn secret_keys_are_checked() {
    assert!(SigningKey::from_bytes(&[0; 32]).is_none());
    assert!(SigningKey::from_bytes(&[0xff; 32]).is_none());
    assert!(SigningKey::from_bytes(&[1; 31]).is_none());
    assert!(SigningKey::from_bytes(&[]).is_none());
    assert_eq!(SigningKey::from_bytes(&[7; 32]).unwrap().as_bytes(), &vec![7u8; 32]);
    let drawn = SigningKey::generate();
    assert_eq!(drawn.as_bytes().len(), 32);
    assert!(SigningKey::from_bytes(drawn.as_bytes()).is_some());
    assert_ne!(drawn.as_bytes(), SigningKey::generate().as_bytes());
}

#[test]
fn a_second_nonce_request_for_a_session_is_refused() {
    let mut signer = Signer::with_key("hub".to_string(), 4003, secret(5));
    assert!(signer.identity().same_as(&Identity::of_secret_key(&secret(5))));
    let context = build_context(&vec![signer.identity().clone(), Identity::of_secret_key(&secret(6))])
        .unwrap();
    let request = |message: &str| GenerateNonceRequest {
        session_id: "s".to_string(),
        message: message.to_string(),
        key_agg_ctx: context.clone(),
        signer_index: 0,
    };
    let nonce = signer.generate_nonce(request("m"), [1; 32]).unwrap();
    assert_eq!(
        signer.generate_nonce(request("m"), [2; 32]).err(),
        Some(SignerError::Round(RoundError::InvalidTransition { phase: RoundPhase::NonceReady }))
    );
    assert_eq!(
        signer.handle_generate_nonce(request("other")).err(),
        Some(SignerError::Round(RoundError::InvalidTransition { phase: RoundPhase::NonceReady }))
    );
    let peer = SignerRound::fresh([3; 32]).generate(&context, 1, &secret(6), b"m".to_vec()).unwrap();
    let mut nonces = HashMap::new();
    nonces.insert(1, peer.public_nonce().unwrap().clone());
    let partial = signer
        .handle_receive_nonces(ReceiveNoncesRequest { session_id: "s".to_string(), nonces })
        .unwrap();
    let again = SignerRound::fresh([1; 32]).generate(&context, 0, &secret(5), b"m".to_vec()).unwrap();
    assert_eq!(again.public_nonce(), Some(&nonce));
    let again = again.deliver_nonce(1, peer.public_nonce().unwrap().clone()).unwrap();
    let again = again.sign(&secret(5)).unwrap();
    assert_eq!(again.partial_signature(), Some(&partial.partial_signature));
    assert_eq!(
        signer.handle_generate_nonce(request("m")).err(),
        Some(SignerError::Round(RoundError::InvalidTransition {
            phase: RoundPhase::PartialSigReady
        }))
    );
    assert_eq!(again.context_bytes(), &context);
}

#[test]
fn a_round_takes_contributions_and_moves_on_by_itself() {
    let message = b"take".to_vec();
    let (secrets, _, mut rounds) = started(2, &message);
    let nonces: Vec<Vec<u8>> = rounds.iter().map(|r| r.public_nonce().unwrap().clone()).collect();
    let zero = rounds.remove(0).take_nonce(1, nonces[1].clone(), &secrets[0]).unwrap();
    let one = rounds.remove(0).take_nonce(0, nonces[0].clone(), &secrets[1]).unwrap();
    assert_eq!(zero.current_phase(), RoundPhase::PartialSigReady);
    let partial_zero = zero.partial_signature().unwrap().clone();
    let partial_one = one.partial_signature().unwrap().clone();
    let zero = zero.take_partial_signature(1, partial_one).unwrap();
    let one = one.take_partial_signature(0, partial_zero).unwrap();
    assert_eq!(zero.current_phase(), RoundPhase::Finalized);
    assert_eq!(zero.signature(), one.signature());
    assert_eq!(zero.signature().unwrap().len(), 64);
}
