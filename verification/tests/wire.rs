use std::collections::HashMap;

use musig2_example::error::{
    handle_rejection,
    CustomError,
    Rejection,
    STATUS_BAD_REQUEST,
    STATUS_INTERNAL_SERVER_ERROR,
    STATUS_NOT_FOUND,
};
use musig2_example::handler::{
    announce,
    gather_participants,
    handle_public_key,
    handle_stream,
    sender_place,
    try_connect_to_peer,
    ConnectStep,
    StreamError,
    RETRY_DELAY_SECONDS,
};
use musig2_example::hub::message_to_bytes;
use musig2_example::identity::{Identity, SigningKey};
use musig2_example::message::{frame, unframe, Message, MessageType};
use musig2_example::round::{RoundError, RoundPhase};
use musig2_example::serde_utils::{
    deserialize_compact_signature,
    deserialize_key_agg_ctx,
    deserialize_partial_sig_map,
    deserialize_partial_signature,
    deserialize_pubkey_map,
    deserialize_public_key,
    serialize_compact_signature,
    serialize_key_agg_ctx,
    serialize_partial_sig_map,
    serialize_partial_signature,
    serialize_pubkey_map,
    serialize_public_key,
    DecodeError,
};
use musig2_example::session::{build_context, AggregationError};
use musig2_example::state::SharedState;
use musig2_example::text::{local_address, port_to_string};

const KEY_1: &str = "02f9308a019258c31049344f85f89d5229b531c845836f99b08601f113bce036f9";
const KEY_2: &str = "03dff1d77f2a671c5f36183726db2341be58feae1da2deced843240f7b502ba659";
const KEY_3: &str = "023590a94e768f8e1815c2f24b4d80a8e3149316c3518ce7b7ad338368d038ca66";

fn key(text: &str) -> Identity {
    Identity::from_text(text).unwrap()
}

fn secret(byte: u8) -> SigningKey {
    SigningKey::from_bytes(&[byte; 32]).unwrap()
}

#[test]
fn public_keys_travel_as_lower_case_hex() {
    assert_eq!(serialize_public_key(&key(KEY_1)), KEY_1);
    assert!(deserialize_public_key(KEY_1).unwrap().same_as(&key(KEY_1)));
    assert!(deserialize_public_key(&KEY_2.to_uppercase()).unwrap().same_as(&key(KEY_2)));
    assert_eq!(deserialize_public_key("02f").err(), Some(DecodeError::InvalidHex));
    assert_eq!(deserialize_public_key("zz").err(), Some(DecodeError::InvalidHex));
    assert_eq!(deserialize_public_key("\u{e9}").err(), Some(DecodeError::InvalidHex));
    assert_eq!(deserialize_public_key("").err(), Some(DecodeError::InvalidPublicKey));
    assert_eq!(deserialize_public_key("02f9").err(), Some(DecodeError::InvalidPublicKey));
    assert_eq!(
        deserialize_public_key(&"05".repeat(33)).err(),
        Some(DecodeError::InvalidPublicKey)
    );
}

#[test]
fn key_maps_keep_their_order_and_values() {
    let map = vec![(key(KEY_2), vec![1, 2]), (key(KEY_1), vec![])];
    let out = serialize_pubkey_map(&map);
    assert_eq!(out, vec![(KEY_2.to_string(), vec![1, 2]), (KEY_1.to_string(), vec![])]);
    let back = deserialize_pubkey_map(&out).unwrap();
    assert_eq!(back.len(), 2);
    assert!(back[0].0.same_as(&key(KEY_2)));
    assert_eq!(back[0].1, vec![1, 2]);
    assert!(back[1].0.same_as(&key(KEY_1)));
    let bad = vec![
        (KEY_3.to_string(), vec![]),
        ("00".to_string(), vec![]),
        ("x".to_string(), vec![]),
    ];
    assert_eq!(deserialize_pubkey_map(&bad).err(), Some(DecodeError::InvalidPublicKey));
    let worse = vec![("x".to_string(), vec![]), ("00".to_string(), vec![])];
    assert_eq!(deserialize_pubkey_map(&worse).err(), Some(DecodeError::InvalidHex));
    assert!(deserialize_pubkey_map(&vec![]).unwrap().is_empty());
}

#[test]
fn contexts_and_partial_signatures_travel_as_bytes() {
    let context = build_context(&vec![key(KEY_1), key(KEY_2)]).unwrap();
    assert_eq!(serialize_key_agg_ctx(&context), context);
    assert_eq!(deserialize_key_agg_ctx(&context), Ok(context.clone()));
    assert_eq!(deserialize_key_agg_ctx(&vec![]), Err(DecodeError::InvalidKeyAggContext));
    let mut cut = context.clone();
    cut.pop();
    assert_eq!(deserialize_key_agg_ctx(&cut), Err(DecodeError::InvalidKeyAggContext));
    let one = {
        let mut bytes = vec![0u8; 32];
        bytes[31] = 1;
        bytes
    };
    assert_eq!(serialize_partial_signature(&one), one);
    assert_eq!(deserialize_partial_signature(&one), Ok(one.clone()));
    assert_eq!(deserialize_partial_signature(&vec![0; 32]), Ok(vec![0; 32]));
    assert_eq!(
        deserialize_partial_signature(&vec![0xff; 32]),
        Err(DecodeError::InvalidPartialSignature)
    );
    assert_eq!(
        deserialize_partial_signature(&vec![1; 31]),
        Err(DecodeError::InvalidPartialSignature)
    );
}

#[test]
fn final_signatures_travel_as_hex() {
    let signature: Vec<u8> = (0u8..64).collect();
    let text = serialize_compact_signature(&signature);
    assert_eq!(
        text,
        "000102030405060708090a0b0c0d0e0f101112131415161718191a1b1c1d1e1f\
         202122232425262728292a2b2c2d2e2f303132333435363738393a3b3c3d3e3f"
    );
    assert_eq!(deserialize_compact_signature(&text), Ok(signature.clone()));
    assert_eq!(deserialize_compact_signature(&text.to_uppercase()), Ok(signature));
    assert_eq!(deserialize_compact_signature("0g"), Err(DecodeError::InvalidHex));
    assert_eq!(deserialize_compact_signature("abc"), Err(DecodeError::InvalidHex));
    assert_eq!(deserialize_compact_signature("abcd"), Err(DecodeError::InvalidSignature));
    assert_eq!(
        deserialize_compact_signature(&"ff".repeat(64)),
        Err(DecodeError::InvalidSignature)
    );
    assert_eq!(serialize_compact_signature(&vec![]), "");
    assert_eq!(serialize_compact_signature(&vec![0xab, 0x0c, 0xf0]), "ab0cf0");
}

#[test]
fn partial_signature_maps_are_checked_entry_by_entry() {
    let one = {
        let mut bytes = vec![0u8; 32];
        bytes[31] = 1;
        bytes
    };
    let two = {
        let mut bytes = vec![0u8; 32];
        bytes[31] = 2;
        bytes
    };
    let map = deserialize_partial_sig_map(&vec![(0, one.clone()), (2, two.clone())]).unwrap();
    assert_eq!(map.len(), 2);
    assert_eq!(map.get(&0), Some(&one));
    assert_eq!(map.get(&2), Some(&two));
    let replaced = deserialize_partial_sig_map(&vec![(5, one.clone()), (5, two.clone())]).unwrap();
    assert_eq!(replaced.len(), 1);
    assert_eq!(replaced.get(&5), Some(&two));
    let replaced =
        deserialize_partial_sig_map(&vec![(5, two.clone()), (6, two.clone()), (5, one.clone())])
            .unwrap();
    assert_eq!(replaced.len(), 2);
    assert_eq!(replaced.get(&5), Some(&one));
    assert_eq!(
        deserialize_partial_sig_map(&vec![(0, one.clone()), (1, vec![1; 33])]).err(),
        Some(DecodeError::InvalidPartialSignature)
    );
    assert!(deserialize_partial_sig_map(&vec![]).unwrap().is_empty());
    let mut source = HashMap::new();
    source.insert(3usize, one);
    source.insert(9usize, two);
    assert_eq!(serialize_partial_sig_map(&source), source);
}

#[test]
fn frames_carry_their_length() {
    assert_eq!(frame(&vec![]), Some(vec![0, 0, 0, 0]));
    assert_eq!(frame(&vec![7, 8, 9]), Some(vec![0, 0, 0, 3, 7, 8, 9]));
    let long = vec![5u8; 70000];
    let framed = frame(&long).unwrap();
    assert_eq!(&framed[..4], &[0, 1, 0x11, 0x70]);
    assert_eq!(framed.len(), 70004);
    assert_eq!(unframe(&framed), Some((long, 70004)));
    assert_eq!(unframe(&vec![]), None);
    assert_eq!(unframe(&vec![0, 0, 0]), None);
    assert_eq!(unframe(&vec![0, 0, 0, 0]), Some((vec![], 4)));
    assert_eq!(unframe(&vec![0, 0, 0, 2, 1]), None);
    assert_eq!(unframe(&vec![0, 0, 0, 2, 1, 2]), Some((vec![1, 2], 6)));
    assert_eq!(unframe(&vec![0, 0, 0, 2, 1, 2, 0, 0, 0, 1, 9]), Some((vec![1, 2], 6)));
    assert_eq!(unframe(&vec![0xff, 0xff, 0xff, 0xff, 1, 2]), None);
    let mut stream = frame(&vec![1]).unwrap();
    stream.extend(frame(&vec![2, 3]).unwrap());
    let (first, used) = unframe(&stream).unwrap();
    assert_eq!(first, vec![1]);
    let rest = stream[used..].to_vec();
    assert_eq!(unframe(&rest), Some((vec![2, 3], 6)));
}

#[test]
fn numbers_and_addresses_in_decimal() {
    assert_eq!(port_to_string(0), "0");
    assert_eq!(port_to_string(7), "7");
    assert_eq!(port_to_string(10), "10");
    assert_eq!(port_to_string(3030), "3030");
    assert_eq!(port_to_string(40100), "40100");
    assert_eq!(port_to_string(65535), "65535");
    assert_eq!(local_address("http://127.0.0.1:", 3030), "http://127.0.0.1:3030");
    assert_eq!(local_address("ws://127.0.0.1:", 9), "ws://127.0.0.1:9");
    assert_eq!(local_address("", 100), "100");
}

#[test]
fn message_bytes_are_utf8() {
    assert_eq!(message_to_bytes(&"Hello, MuSig2!".to_string()), b"Hello, MuSig2!".to_vec());
    assert_eq!(message_to_bytes(&"\u{e9}".to_string()), vec![0xc3, 0xa9]);
    assert_eq!(message_to_bytes(&String::new()), Vec::<u8>::new());
}

#[test]
fn rejections_map_to_status_and_message() {
    let (status, body) = handle_rejection(&Rejection::NotFound);
    assert_eq!((status, body.error.as_str()), (404, "Not Found"));
    assert_eq!(status, STATUS_NOT_FOUND);
    let (status, body) =
        handle_rejection(&Rejection::Custom(CustomError("Invalid nonce format".to_string())));
    assert_eq!((status, body.error.as_str()), (400, "Invalid nonce format"));
    assert_eq!(status, STATUS_BAD_REQUEST);
    let (status, body) = handle_rejection(&Rejection::Unhandled);
    assert_eq!((status, body.error.as_str()), (500, "Internal Server Error"));
    assert_eq!(status, STATUS_INTERNAL_SERVER_ERROR);
}

#[test]
fn shared_state_counts_what_is_gathered() {
    let mut state = SharedState::new(key(KEY_1), 3);
    assert!(!state.public_keys_received());
    assert!(!state.nonces_received());
    assert!(!state.partial_signatures_received());
    state.add_public_key(key(KEY_2));
    assert!(!state.public_keys_received());
    state.add_public_key(key(KEY_3));
    assert!(state.public_keys_received());
    state.add_nonce(vec![1]);
    state.add_nonce(vec![2]);
    assert!(state.nonces_received());
    state.add_nonce(vec![3]);
    assert!(!state.nonces_received());
    state.add_partial_signature(vec![1]);
    assert!(!state.partial_signatures_received());
    state.add_partial_signature(vec![2]);
    assert!(state.partial_signatures_received());
    assert_eq!(state.nonces, vec![vec![1], vec![2], vec![3]]);
    assert!(state.add_connection("127.0.0.1:1".to_string()));
    assert!(state.add_connection("127.0.0.1:2".to_string()));
    assert!(!state.add_connection("127.0.0.1:1".to_string()));
    assert_eq!(state.active_connections, vec!["127.0.0.1:1".to_string(), "127.0.0.1:2".to_string()]);
    let none = SharedState::new(key(KEY_1), 0);
    assert!(!none.public_keys_received());
    let alone = SharedState::new(key(KEY_1), 1);
    assert!(alone.public_keys_received());
    assert!(alone.first_round.is_none());
}

#[test]
fn the_last_distinct_identity_sets_up_the_round() {
    let secrets = [secret(1), secret(2), secret(3)];
    let ids: Vec<Identity> = secrets.iter().map(Identity::of_secret_key).collect();
    let texts: Vec<String> = ids.iter().map(serialize_public_key).collect();
    let message = b"stream".to_vec();
    let mut state = SharedState::new(ids[0].clone(), 3);
    let hello = announce(&ids[0], 7000);
    assert_eq!(hello.sender_port, 7000);
    match &hello.message_type {
        MessageType::PublicKey(text) => assert_eq!(text, &texts[0]),
        _ => panic!("expected an identity"),
    }
    assert_eq!(
        handle_public_key("nothing", 7001, &mut state, 7000, &secrets[0], &message, [1; 32]).err(),
        Some(StreamError::InvalidPublicKey)
    );
    assert!(state.public_keys.is_empty());
    let first =
        handle_public_key(&texts[1], 7001, &mut state, 7000, &secrets[0], &message, [1; 32])
            .unwrap();
    assert!(first.is_none());
    assert_eq!(state.public_keys.len(), 1);
    assert_eq!(state.senders, vec![7001]);
    for (text, port) in [(&texts[1], 7001), (&texts[1], 7005), (&texts[0], 7006)] {
        let again =
            handle_public_key(text, port, &mut state, 7000, &secrets[0], &message, [1; 32]).unwrap();
        assert!(again.is_none());
        assert_eq!(state.public_keys.len(), 1);
        assert_eq!(state.senders, vec![7001]);
        assert!(state.first_round.is_none());
    }
    let second =
        handle_public_key(&texts[2], 7002, &mut state, 7000, &secrets[0], &message, [1; 32])
            .unwrap();
    let sent = second.unwrap();
    assert_eq!(sent.sender_port, 7000);
    let nonce = match sent.message_type {
        MessageType::PublicNonce(nonce) => nonce,
        _ => panic!("expected a nonce"),
    };
    assert_eq!(nonce.len(), 66);
    assert_eq!(state.nonces, vec![nonce.clone()]);
    assert_eq!(state.senders, vec![7001, 7002]);
    let round = state.first_round.as_ref().unwrap();
    assert_eq!(round.current_phase(), RoundPhase::NonceReady);
    assert_eq!(round.signers(), 3);
    assert_eq!(round.public_nonce(), Some(&nonce));
    let mut sorted: Vec<Vec<u8>> = ids.iter().map(|i| i.to_bytes()).collect();
    sorted.sort();
    assert_eq!(sorted[round.own_index()], ids[0].to_bytes());
    let ordered: Vec<Identity> = sorted.iter().map(|b| Identity::from_slice(b).unwrap()).collect();
    assert_eq!(round.context_bytes(), &build_context(&ordered).unwrap());
    assert_eq!(gather_participants(&state).iter().map(|i| i.to_bytes()).collect::<Vec<_>>(), sorted);
    assert_eq!(sender_place(&state, 7001), sorted.iter().position(|b| b == &ids[1].to_bytes()));
    assert_eq!(sender_place(&state, 7002), sorted.iter().position(|b| b == &ids[2].to_bytes()));
    assert_eq!(sender_place(&state, 7009), None);
}

#[test]
fn a_mismatched_key_or_a_list_with_a_duplicate_sets_up_nothing() {
    let secrets = [secret(1), secret(2), secret(3)];
    let ids: Vec<Identity> = secrets.iter().map(Identity::of_secret_key).collect();
    let message = b"stream".to_vec();
    let mut state = SharedState::new(ids[0].clone(), 2);
    assert_eq!(
        handle_public_key(
            &serialize_public_key(&ids[1]),
            2,
            &mut state,
            1,
            &secrets[1],
            &message,
            [1; 32]
        )
        .err(),
        Some(StreamError::Round(RoundError::SetupFailed))
    );
    assert!(state.first_round.is_none());
    assert!(state.nonces.is_empty());
    let mut state = SharedState::new(ids[0].clone(), 4);
    state.add_public_key(ids[1].clone());
    state.add_public_key(ids[1].clone());
    assert_eq!(
        handle_public_key(
            &serialize_public_key(&ids[2]),
            3,
            &mut state,
            1,
            &secrets[0],
            &message,
            [1; 32]
        )
        .err(),
        Some(StreamError::Aggregation(AggregationError::DuplicateIdentity))
    );
    assert!(state.first_round.is_none());
}

#[test]
fn contributions_are_taken_by_sender_until_all_are_in() {
    let secrets = [secret(1), secret(2), secret(3)];
    let ids: Vec<Identity> = secrets.iter().map(Identity::of_secret_key).collect();
    let ports = [7000u16, 7001, 7002];
    let message = b"by sender".to_vec();
    let mut states: Vec<SharedState> = ids.iter().map(|id| SharedState::new(id.clone(), 3)).collect();
    let stray = Message { sender_port: 7001, message_type: MessageType::PublicNonce(vec![1; 66]) };
    assert_eq!(
        handle_stream(stray, &mut states[0], ports[0], &secrets[0], &message).err(),
        Some(StreamError::NoRound)
    );
    let mut nonces = Vec::new();
    for i in 0..3 {
        let mut own = None;
        for j in 0..3 {
            if i != j {
                let hello = announce(&ids[j], ports[j]);
                own = handle_stream(hello, &mut states[i], ports[i], &secrets[i], &message).unwrap();
            }
        }
        match own.unwrap().message_type {
            MessageType::PublicNonce(nonce) => nonces.push(nonce),
            _ => panic!("expected a nonce"),
        }
    }
    let from = |j: usize, kind: MessageType| Message { sender_port: ports[j], message_type: kind };
    assert_eq!(
        handle_stream(
            Message { sender_port: 9999, message_type: MessageType::PublicNonce(nonces[1].clone()) },
            &mut states[0],
            ports[0],
            &secrets[0],
            &message
        )
        .err(),
        Some(StreamError::UnknownSender)
    );
    assert!(states[0].first_round.is_some());
    let mut partials = Vec::new();
    for i in 0..3 {
        let mut own = None;
        for j in 0..3 {
            if i != j {
                for _ in 0..2 {
                    if own.is_none() {
                        own = handle_stream(
                            from(j, MessageType::PublicNonce(nonces[j].clone())),
                            &mut states[i],
                            ports[i],
                            &secrets[i],
                            &message,
                        )
                        .unwrap();
                    }
                }
            }
        }
        let round = states[i].first_round.as_ref().unwrap();
        assert_eq!(round.current_phase(), RoundPhase::PartialSigReady);
        assert_eq!(states[i].nonces.len(), 1);
        match own.unwrap().message_type {
            MessageType::PartialSignature(signature) => partials.push(signature),
            _ => panic!("expected a partial signature"),
        }
    }
    let mut finals = Vec::new();
    for i in 0..3 {
        for j in 0..3 {
            if i != j {
                let reply = handle_stream(
                    from(j, MessageType::PartialSignature(partials[j].clone())),
                    &mut states[i],
                    ports[i],
                    &secrets[i],
                    &message,
                )
                .unwrap();
                assert!(reply.is_none());
            }
        }
        let round = states[i].first_round.as_ref().unwrap();
        assert_eq!(round.current_phase(), RoundPhase::Finalized);
        finals.push(round.signature().unwrap().clone());
    }
    assert_eq!(finals[0], finals[1]);
    assert_eq!(finals[1], finals[2]);
    let context = states[0].first_round.as_ref().unwrap().context_bytes().clone();
    let key = musig2::secp256k1::PublicKey::from_slice(
        &musig2_example::session::aggregated_public_key(&context).unwrap(),
    )
    .unwrap();
    assert!(musig2::verify_single(key, finals[0].as_slice(), &message).is_ok());
}

#[test]
fn a_bad_contribution_ends_the_round_and_names_the_sender() {
    let secrets = [secret(1), secret(2)];
    let ids: Vec<Identity> = secrets.iter().map(Identity::of_secret_key).collect();
    let message = b"bad".to_vec();
    let mut state = SharedState::new(ids[0].clone(), 2);
    handle_stream(announce(&ids[1], 2), &mut state, 1, &secrets[0], &message).unwrap().unwrap();
    let place = sender_place(&state, 2).unwrap();
    assert_eq!(
        handle_stream(
            Message { sender_port: 2, message_type: MessageType::PublicNonce(vec![1; 66]) },
            &mut state,
            1,
            &secrets[0],
            &message
        )
        .err(),
        Some(StreamError::Round(RoundError::InvalidNonceFormat { index: place }))
    );
    assert!(state.first_round.is_none());
    assert_eq!(
        handle_stream(
            Message { sender_port: 2, message_type: MessageType::PartialSignature(vec![1; 32]) },
            &mut state,
            1,
            &secrets[0],
            &message
        )
        .err(),
        Some(StreamError::NoRound)
    );
    assert_eq!(
        handle_stream(
            Message { sender_port: 2, message_type: MessageType::PublicKey("KEY".to_string()) },
            &mut state,
            1,
            &secrets[0],
            &message
        )
        .err(),
        Some(StreamError::InvalidPublicKey)
    );
}

#[test]
fn an_unreachable_peer_is_tried_again_after_two_seconds() {
    assert_eq!(try_connect_to_peer(true), ConnectStep::Proceed);
    assert_eq!(try_connect_to_peer(false), ConnectStep::RetryAfter { seconds: 2 });
    assert_eq!(RETRY_DELAY_SECONDS, 2);
}
