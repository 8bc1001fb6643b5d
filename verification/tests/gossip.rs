use musig2_example::connection::{
    handle_connection,
    handle_messages,
    handle_reply,
    link_attempt,
    parse_key_message,
    send_key_message,
    Frame,
    HandshakeStep,
    LinkStep,
    MessageStep,
    LINK_RETRY_DELAY_SECONDS,
};
use musig2_example::consistency::check_signature;
use musig2_example::identity::Identity;
use musig2_example::node::{position_of, NodeError, PeerConnection, PeerTable, SignerNode};
use musig2_example::order::sort_identities;
use musig2_example::round::{RoundError, RoundPhase};
use musig2_example::session::{
    aggregated_public_key,
    build_context,
    initialize_signing_session,
    participant_identities,
    AggregationError,
    SessionInit,
};

const KEY_1: &str = "02f9308a019258c31049344f85f89d5229b531c845836f99b08601f113bce036f9";
const KEY_2: &str = "03dff1d77f2a671c5f36183726db2341be58feae1da2deced843240f7b502ba659";
const KEY_3: &str = "023590a94e768f8e1815c2f24b4d80a8e3149316c3518ce7b7ad338368d038ca66";

fn key(text: &str) -> Identity {
    Identity::from_text(text).unwrap()
}

fn views(ids: &Vec<Identity>) -> Vec<Vec<u8>> {
    ids.iter().map(|i| i.to_bytes()).collect()
}

fn link(nodes: &mut Vec<SignerNode>, from: usize, to: usize) -> (SessionInit, SessionInit) {
    let hello = send_key_message(nodes[from].public_key());
    let step = handle_connection(Some(Frame::Text(hello)), nodes[to].public_key());
    let (peer, reply) = match step {
        HandshakeStep::Reply { peer, reply } => (peer, reply),
        HandshakeStep::Reject => panic!("the announcement was refused"),
    };
    assert!(peer.same_as(nodes[from].public_key()));
    let at_acceptor = nodes[to].peer_joined(peer, PeerConnection::Server);
    let answered = handle_reply(Some(Frame::Text(reply))).unwrap();
    assert!(answered.same_as(nodes[to].public_key()));
    let at_opener = nodes[from].peer_joined(answered, PeerConnection::Client);
    (at_opener, at_acceptor)
}

fn mesh(n: usize) -> Vec<SignerNode> {
    let ports: Vec<u16> = (0..n as u16).map(|i| 9000 + i).collect();
    let mut nodes: Vec<SignerNode> =
        ports.iter().map(|p| SignerNode::new(*p, ports.clone())).collect();
    for from in 0..n {
        for to in (from + 1)..n {
            link(&mut nodes, from, to);
        }
    }
    nodes
}

#[test]
fn key_message_spells_the_identity() {
    let text = send_key_message(&key(KEY_1));
    assert_eq!(text, format!("KEY:{}", KEY_1));
    assert!(parse_key_message(&text).unwrap().same_as(&key(KEY_1)));
    assert!(parse_key_message(&format!("KEY:{}", KEY_2.to_uppercase())).unwrap().same_as(&key(KEY_2)));
    assert!(parse_key_message(KEY_1).is_none());
    assert!(parse_key_message("KEY:").is_none());
    assert!(parse_key_message("KEY").is_none());
    assert!(parse_key_message("").is_none());
    assert!(parse_key_message(&format!("key:{}", KEY_1)).is_none());
    assert!(parse_key_message(&format!("KEY:{}00", KEY_1)).is_none());
    assert!(parse_key_message("KEY:\u{e9}\u{e9}").is_none());
}

#[test]
fn a_link_counts_only_after_an_announcement() {
    let own = key(KEY_1);
    assert!(matches!(handle_connection(None, &own), HandshakeStep::Reject));
    assert!(matches!(handle_connection(Some(Frame::Close), &own), HandshakeStep::Reject));
    assert!(matches!(handle_connection(Some(Frame::Other), &own), HandshakeStep::Reject));
    assert!(matches!(
        handle_connection(Some(Frame::Text("hello".to_string())), &own),
        HandshakeStep::Reject
    ));
    match handle_connection(Some(Frame::Text(format!("KEY:{}", KEY_2))), &own) {
        HandshakeStep::Reply { peer, reply } => {
            assert!(peer.same_as(&key(KEY_2)));
            assert_eq!(reply, format!("KEY:{}", KEY_1));
        },
        HandshakeStep::Reject => panic!("the announcement was refused"),
    }
    assert!(handle_reply(None).is_none());
    assert!(handle_reply(Some(Frame::Close)).is_none());
    assert!(handle_reply(Some(Frame::Text("KEY:nothing".to_string()))).is_none());
    assert!(handle_reply(Some(Frame::Text(format!("KEY:{}", KEY_3)))).unwrap().same_as(&key(KEY_3)));
}

#[test]
fn peer_table_maps_identities_to_links() {
    let mut peers = PeerTable::new();
    assert_eq!(peers.len(), 0);
    peers.insert(key(KEY_1), PeerConnection::Server);
    peers.insert(key(KEY_2), PeerConnection::Client);
    peers.insert(key(KEY_1), PeerConnection::Client);
    assert_eq!(peers.len(), 2);
    assert!(peers.contains(&key(KEY_1)));
    assert!(!peers.contains(&key(KEY_3)));
    assert_eq!(peers.get(&key(KEY_1)), Some(&PeerConnection::Client));
    assert_eq!(peers.get(&key(KEY_3)), None);
    let mut listed = views(&peers.keys());
    listed.sort();
    assert_eq!(listed, vec![key(KEY_1).to_bytes(), key(KEY_2).to_bytes()]);
    assert_eq!(peers.remove(&key(KEY_1)), Some(PeerConnection::Client));
    assert_eq!(peers.remove(&key(KEY_1)), None);
    assert_eq!(peers.len(), 1);
    assert!(peers.contains(&key(KEY_2)));
}

#[test]
fn reading_a_link_ends_when_the_peer_is_gone() {
    let mut peers = PeerTable::new();
    peers.insert(key(KEY_1), PeerConnection::Server);
    peers.insert(key(KEY_2), PeerConnection::Server);
    assert!(matches!(
        handle_messages(&mut peers, &key(KEY_3), Some(Frame::Text("x".to_string()))),
        MessageStep::Stop
    ));
    match handle_messages(&mut peers, &key(KEY_1), Some(Frame::Text("x".to_string()))) {
        MessageStep::Deliver(text) => assert_eq!(text, "x"),
        _ => panic!("the text was not handed on"),
    }
    assert!(matches!(
        handle_messages(&mut peers, &key(KEY_1), Some(Frame::Other)),
        MessageStep::Continue
    ));
    assert_eq!(peers.len(), 2);
    assert!(matches!(
        handle_messages(&mut peers, &key(KEY_1), Some(Frame::Close)),
        MessageStep::Stop
    ));
    assert!(!peers.contains(&key(KEY_1)));
    assert!(matches!(handle_messages(&mut peers, &key(KEY_2), None), MessageStep::Stop));
    assert_eq!(peers.len(), 0);
}

#[test]
fn the_context_is_built_once_all_peers_are_linked_and_only_once() {
    let mut peers = PeerTable::new();
    let own = key(KEY_1);
    let mut session: Option<Vec<u8>> = None;
    assert_eq!(initialize_signing_session(&peers, &own, 3, &mut session), SessionInit::Waiting);
    peers.insert(key(KEY_2), PeerConnection::Server);
    assert_eq!(initialize_signing_session(&peers, &own, 3, &mut session), SessionInit::Waiting);
    assert_eq!(initialize_signing_session(&peers, &own, 0, &mut session), SessionInit::Waiting);
    assert!(session.is_none());
    peers.insert(key(KEY_3), PeerConnection::Client);
    assert_eq!(
        initialize_signing_session(&peers, &own, 3, &mut session),
        SessionInit::Initialized
    );
    let expected = build_context(&vec![key(KEY_3), key(KEY_1), key(KEY_2)]).unwrap();
    assert_eq!(session, Some(expected.clone()));
    assert_eq!(
        views(&participant_identities(&peers, &own)),
        vec![key(KEY_3).to_bytes(), key(KEY_1).to_bytes(), key(KEY_2).to_bytes()]
    );
    assert_eq!(
        initialize_signing_session(&peers, &own, 3, &mut session),
        SessionInit::AlreadyInitialized
    );
    peers.remove(&key(KEY_2));
    assert_eq!(
        initialize_signing_session(&peers, &own, 2, &mut session),
        SessionInit::AlreadyInitialized
    );
    assert_eq!(session, Some(expected));
}

#[test]
fn a_peer_with_the_own_identity_establishes_nothing() {
    let mut peers = PeerTable::new();
    peers.insert(key(KEY_1), PeerConnection::Server);
    let mut session: Option<Vec<u8>> = None;
    assert_eq!(
        initialize_signing_session(&peers, &key(KEY_1), 2, &mut session),
        SessionInit::Failed(AggregationError::DuplicateIdentity)
    );
    assert!(session.is_none());
}

#[test]
fn contexts_converge_whatever_the_order_of_arrival() {
    let ids = [KEY_1, KEY_2, KEY_3];
    let mut contexts = Vec::new();
    for own in 0..3 {
        for first in 0..3 {
            if first == own {
                continue;
            }
            let second = 3 - own - first;
            let mut peers = PeerTable::new();
            peers.insert(key(ids[first]), PeerConnection::Server);
            peers.insert(key(ids[second]), PeerConnection::Client);
            let mut session = None;
            assert_eq!(
                initialize_signing_session(&peers, &key(ids[own]), 3, &mut session),
                SessionInit::Initialized
            );
            contexts.push(session.unwrap());
        }
    }
    assert_eq!(contexts.len(), 6);
    for context in &contexts {
        assert_eq!(context, &contexts[0]);
    }
}

#[test]
fn nodes_skip_their_own_port() {
    let node = SignerNode::new(9001, vec![9000, 9001, 9002, 9001, 9003]);
    assert_eq!(node.port(), 9001);
    assert_eq!(node.discover_peers(), vec![9000, 9002, 9003]);
    assert_eq!(SignerNode::new(1, vec![]).discover_peers(), Vec::<u16>::new());
    assert_eq!(SignerNode::new(1, vec![1, 1]).discover_peers(), Vec::<u16>::new());
    assert_eq!(node.peer_count(), 0);
    assert!(node.signing_session().is_none());
    assert!(node.current_round().is_none());
    assert_eq!(node.public_key().as_bytes().len(), 33);
}

#[test]
fn three_nodes_sign_without_a_hub() {
    let mut nodes = mesh(3);
    let context = nodes[0].signing_session().unwrap().clone();
    let mut all: Vec<Identity> = nodes.iter().map(|n| n.public_key().clone()).collect();
    all = sort_identities(&all);
    for node in &nodes {
        assert_eq!(node.signing_session(), Some(&context));
        assert_eq!(views(node.participant_identities()), views(&all));
        assert_eq!(node.peer_count(), 2);
    }
    assert_eq!(context, build_context(&all).unwrap());
    let message = "no hub here".as_bytes().to_vec();
    let ids: Vec<Identity> = nodes.iter().map(|n| n.public_key().clone()).collect();
    let mut nonces = Vec::new();
    for node in nodes.iter_mut() {
        let nonce = node.start_round(message.clone()).unwrap();
        assert_eq!(nonce.len(), 66);
        let round = node.current_round().unwrap();
        assert_eq!(round.current_phase(), RoundPhase::NonceReady);
        assert_eq!(round.holdouts().len(), 2);
        nonces.push(nonce);
    }
    let mut partials: Vec<Option<Vec<u8>>> = vec![None, None, None];
    for to in 0..3 {
        let mut seen = 0;
        for from in 0..3 {
            if from == to {
                continue;
            }
            let reply = nodes[to].receive_nonce(&ids[from], nonces[from].clone()).unwrap();
            seen += 1;
            assert_eq!(reply.is_some(), seen == 2);
            if let Some(partial) = reply {
                assert_eq!(partial.len(), 32);
                partials[to] = Some(partial);
            }
        }
        assert_eq!(nodes[to].current_round().unwrap().current_phase(), RoundPhase::PartialSigReady);
    }
    let mut finals = Vec::new();
    for to in 0..3 {
        let mut seen = 0;
        for from in 0..3 {
            if from == to {
                continue;
            }
            let reply = nodes[to]
                .receive_partial_signature(&ids[from], partials[from].clone().unwrap())
                .unwrap();
            seen += 1;
            assert_eq!(reply.is_some(), seen == 2);
            if let Some(signature) = reply {
                finals.push(signature);
            }
        }
        assert_eq!(nodes[to].current_round().unwrap().current_phase(), RoundPhase::Finalized);
    }
    assert_eq!(finals.len(), 3);
    assert_eq!(finals[0], finals[1]);
    assert_eq!(finals[1], finals[2]);
    let aggregated = aggregated_public_key(&context).unwrap();
    assert_eq!(check_signature(&finals[0], &aggregated, &message), Ok(()));
}

#[test]
fn a_node_turns_strangers_and_bad_contributions_away() {
    let mut nodes = mesh(2);
    let ids: Vec<Identity> = nodes.iter().map(|n| n.public_key().clone()).collect();
    let message = vec![1, 2, 3];
    assert_eq!(nodes[0].receive_nonce(&ids[1], vec![0; 66]), Err(NodeError::NoRound));
    assert_eq!(nodes[0].receive_partial_signature(&ids[1], vec![0; 32]), Err(NodeError::NoRound));
    let nonce_0 = nodes[0].begin_round(message.clone(), [3; 32]).unwrap();
    let nonce_1 = nodes[1].begin_round(message.clone(), [4; 32]).unwrap();
    assert_eq!(nodes[0].receive_nonce(&key(KEY_1), nonce_1.clone()), Err(NodeError::UnknownSender));
    assert!(nodes[0].current_round().is_some());
    let own_place = position_of(nodes[0].participant_identities(), &ids[0]).unwrap();
    assert_eq!(
        nodes[0].receive_nonce(&ids[0], nonce_0.clone()),
        Err(NodeError::Round(RoundError::NotAPeer { index: own_place }))
    );
    assert!(nodes[0].current_round().is_none());
    nodes[0].begin_round(message.clone(), [5; 32]).unwrap();
    let peer_place = position_of(nodes[0].participant_identities(), &ids[1]).unwrap();
    assert_eq!(
        nodes[0].receive_nonce(&ids[1], vec![0; 66]),
        Err(NodeError::Round(RoundError::InvalidNonceFormat { index: peer_place }))
    );
    assert_eq!(nodes[0].receive_nonce(&ids[1], nonce_1.clone()), Err(NodeError::NoRound));
    let nonce_0 = nodes[0].begin_round(message.clone(), [6; 32]).unwrap();
    assert_eq!(
        nodes[0].receive_partial_signature(&ids[1], vec![0; 32]),
        Err(NodeError::Round(RoundError::InvalidTransition { phase: RoundPhase::NonceReady }))
    );
    let nonce_0b = nodes[0].begin_round(message.clone(), [6; 32]).unwrap();
    assert_eq!(nonce_0, nonce_0b);
    let partial_0 = nodes[0].receive_nonce(&ids[1], nonce_1.clone()).unwrap().unwrap();
    let partial_1 = nodes[1].receive_nonce(&ids[0], nonce_0b).unwrap().unwrap();
    assert!(matches!(
        nodes[1].receive_partial_signature(&ids[0], vec![0xff; 32]),
        Err(NodeError::Round(RoundError::InvalidPartialSignatureFormat { .. }))
    ));
    let mut wrong = partial_1.clone();
    wrong[31] ^= 0x01;
    assert!(matches!(
        nodes[0].receive_partial_signature(&ids[1], wrong),
        Err(NodeError::Round(RoundError::Rejected { .. }))
    ));
    assert!(nodes[0].current_round().is_none());
    assert_eq!(partial_0.len(), 32);
}

#[test]
fn a_node_without_context_starts_no_round() {
    let mut node = SignerNode::new(9000, vec![9000, 9001]);
    assert_eq!(node.start_round(vec![1]), Err(NodeError::NotInitialized));
    assert_eq!(node.begin_round(vec![1], [0; 32]), Err(NodeError::NotInitialized));
    let mut alone = SignerNode::new(9000, vec![9000, 9001, 9002]);
    assert_eq!(alone.peer_joined(key(KEY_1), PeerConnection::Server), SessionInit::Waiting);
    assert_eq!(alone.peer_joined(key(KEY_1), PeerConnection::Client), SessionInit::Waiting);
    assert_eq!(alone.peer_count(), 1);
    assert_eq!(alone.peer_joined(key(KEY_2), PeerConnection::Client), SessionInit::Initialized);
    assert_eq!(
        alone.peer_joined(key(KEY_3), PeerConnection::Client),
        SessionInit::AlreadyInitialized
    );
    assert_eq!(alone.participant_identities().len(), 3);
    alone.peer_left(&key(KEY_3));
    alone.peer_left(&key(KEY_2));
    assert_eq!(alone.peer_count(), 1);
    assert_eq!(alone.participant_identities().len(), 3);
}

#[test]
fn a_failed_link_attempt_is_repeated_after_two_seconds() {
    assert!(matches!(link_attempt(false, None), LinkStep::RetryAfter { seconds: 2 }));
    assert!(matches!(
        link_attempt(false, Some(Frame::Text(format!("KEY:{}", KEY_1)))),
        LinkStep::RetryAfter { seconds: 2 }
    ));
    assert!(matches!(link_attempt(true, None), LinkStep::RetryAfter { seconds: 2 }));
    assert!(matches!(link_attempt(true, Some(Frame::Close)), LinkStep::RetryAfter { seconds: 2 }));
    assert!(matches!(
        link_attempt(true, Some(Frame::Text("hello".to_string()))),
        LinkStep::RetryAfter { seconds: 2 }
    ));
    match link_attempt(true, Some(Frame::Text(format!("KEY:{}", KEY_2)))) {
        LinkStep::Linked { peer } => assert!(peer.same_as(&key(KEY_2))),
        LinkStep::RetryAfter { .. } => panic!("the peer had announced its identity"),
    }
    assert_eq!(LINK_RETRY_DELAY_SECONDS, 2);
}

#[test]
fn a_node_reads_links_on_its_own_peer_table() {
    let mut node = SignerNode::new(9000, vec![9000, 9001, 9002]);
    node.peer_joined(key(KEY_1), PeerConnection::Server);
    assert!(matches!(
        node.message_arrived(&key(KEY_2), Some(Frame::Text("x".to_string()))),
        MessageStep::Stop
    ));
    match node.message_arrived(&key(KEY_1), Some(Frame::Text("x".to_string()))) {
        MessageStep::Deliver(text) => assert_eq!(text, "x"),
        _ => panic!("the text was not handed on"),
    }
    assert!(matches!(node.message_arrived(&key(KEY_1), Some(Frame::Other)), MessageStep::Continue));
    assert_eq!(node.peer_count(), 1);
    assert!(matches!(node.message_arrived(&key(KEY_1), None), MessageStep::Stop));
    assert_eq!(node.peer_count(), 0);
}
