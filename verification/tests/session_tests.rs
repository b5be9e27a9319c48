use mls_chat::commands::parse_cmd;
use mls_chat::crypto::SessionError;
use mls_chat::dispatch::DisplayEvent;
use mls_chat::dispatch::HandleOutcome;
use mls_chat::dispatch::handle_wire_message;
use mls_chat::node::Node;
use mls_chat::wire::WireMessage;
use mls_chat::wire::classify;

fn fresh_node(id: u8) -> Node {
    Node::new(vec![id; 4]).expect("identity setup should succeed")
}

fn deliver(node: &mut Node, from: u8, bytes: &[u8]) -> HandleOutcome {
    handle_wire_message(node, vec![from; 4], bytes.to_vec())
}

/// Admit `joiner` into the group `leader` leads, returning the commit
/// frame that the other members are to process.
fn enroll(leader: &mut Node, joiner: &mut Node, joiner_id: u8) -> Vec<u8> {
    let join_msg = parse_cmd(joiner, "join".as_bytes()).msg;
    assert!(!join_msg.is_empty());
    let out = deliver(leader, joiner_id, &join_msg);
    assert!(matches!(out.display, Some(DisplayEvent::AddedMember { .. })));
    assert_eq!(out.outbound.len(), 2);
    let welcome_frame = &out.outbound[0];
    let commit_frame = &out.outbound[1];
    assert!(matches!(classify(welcome_frame.clone()), WireMessage::Welcome(_)));
    assert!(matches!(classify(commit_frame.clone()), WireMessage::GroupControl(_)));
    let joined = deliver(joiner, 1, welcome_frame);
    assert!(matches!(joined.display, Some(DisplayEvent::JoinedGroup { .. })));
    assert!(joiner.has_group());
    assert!(!joiner.is_group_leader());
    commit_frame.clone()
}

#[test]
fn create_twice_discards_the_previous_group() {
    let mut node = fresh_node(1);
    node.create_group().expect("first create should succeed");
    assert!(node.has_group() && node.is_group_leader());
    node.create_group().expect("a second create should succeed as well");
    assert!(node.has_group() && node.is_group_leader());
}

#[test]
fn process_without_group_is_a_no_op() {
    let mut alice = fresh_node(1);
    alice.create_group().unwrap();
    let control = parse_cmd(&mut alice, "send lost words".as_bytes()).msg;

    let mut bob = fresh_node(2);
    let out = deliver(&mut bob, 1, &control);
    assert!(out.display.is_none());
    assert!(out.outbound.is_empty());
    assert!(!bob.has_group());

    let message = alice.create_message("direct".as_bytes()).unwrap();
    assert_eq!(bob.parse_message(message), Ok(None));
    assert!(!bob.has_group());
}

#[test]
fn create_message_without_group_is_refused() {
    let mut node = fresh_node(3);
    assert_eq!(node.create_message("hi".as_bytes()).err(), Some(SessionError::NoActiveGroup));
}

#[test]
fn non_leader_ignores_join_credentials() {
    let mut alice = fresh_node(1);
    let mut bob = fresh_node(2);
    let join_msg = parse_cmd(&mut bob, "join".as_bytes()).msg;
    let out = deliver(&mut alice, 2, &join_msg);
    assert!(out.display.is_none());
    assert!(out.outbound.is_empty());
    assert!(!alice.has_group());
}

#[test]
fn garbage_bytes_are_reported_raw_and_change_nothing() {
    let mut alice = fresh_node(1);
    alice.create_group().unwrap();
    let out = deliver(&mut alice, 2, &[99, 1, 2, 3]);
    assert!(matches!(out.display, Some(DisplayEvent::RawMessage { .. })));
    assert!(out.outbound.is_empty());
    assert!(alice.has_group() && alice.is_group_leader());
}

#[test]
fn two_members_exchange_text_both_ways() {
    let mut alice = fresh_node(1);
    let mut bob = fresh_node(2);
    alice.create_group().unwrap();
    enroll(&mut alice, &mut bob, 2);

    let hello = parse_cmd(&mut bob, "send hello".as_bytes()).msg;
    let out = deliver(&mut alice, 2, &hello);
    match out.display {
        Some(DisplayEvent::ChatMessage { text, .. }) => assert_eq!(text, "hello"),
        other => panic!("expected decrypted text, got {:?}", other),
    }

    let reply = parse_cmd(&mut alice, "send hi back".as_bytes()).msg;
    let out = deliver(&mut bob, 1, &reply);
    match out.display {
        Some(DisplayEvent::ChatMessage { text, .. }) => assert_eq!(text, "hi back"),
        other => panic!("expected decrypted text, got {:?}", other),
    }
}

#[test]
fn replayed_commit_is_rejected_not_reapplied() {
    let mut alice = fresh_node(1);
    let mut bob = fresh_node(2);
    let mut carol = fresh_node(3);
    alice.create_group().unwrap();
    enroll(&mut alice, &mut bob, 2);

    // Carol joins; Bob must process the resulting commit exactly once.
    let commit_frame = enroll(&mut alice, &mut carol, 3);
    let first = deliver(&mut bob, 1, &commit_frame);
    assert!(first.display.is_none(), "a fresh commit merges silently");

    let second = deliver(&mut bob, 1, &commit_frame);
    assert!(
        matches!(second.display, Some(DisplayEvent::UnknownMessage)),
        "a replayed commit must be reported as rejected"
    );
    assert!(bob.has_group(), "a replay must not corrupt the session");

    // The group still works for everyone after the replay attempt.
    let word = parse_cmd(&mut bob, "send post".as_bytes()).msg;
    let at_alice = deliver(&mut alice, 2, &word);
    match at_alice.display {
        Some(DisplayEvent::ChatMessage { text, .. }) => assert_eq!(text, "post"),
        other => panic!("expected decrypted text, got {:?}", other),
    }
    let at_carol = deliver(&mut carol, 2, &word);
    match at_carol.display {
        Some(DisplayEvent::ChatMessage { text, .. }) => assert_eq!(text, "post"),
        other => panic!("expected decrypted text, got {:?}", other),
    }
}

#[test]
fn misdirected_welcome_fails_recoverably() {
    let mut alice = fresh_node(1);
    let mut bob = fresh_node(2);
    let mut carol = fresh_node(3);
    alice.create_group().unwrap();
    enroll(&mut alice, &mut bob, 2);

    // Build a welcome meant for Carol and hand it to Bob instead.
    let join_msg = parse_cmd(&mut carol, "join".as_bytes()).msg;
    let out = deliver(&mut alice, 3, &join_msg);
    let welcome_frame = &out.outbound[0];
    let at_bob = deliver(&mut bob, 1, welcome_frame);
    assert!(matches!(at_bob.display, Some(DisplayEvent::JoinFailed)));
    assert!(bob.has_group(), "a failed join must leave the session as it was");
}

#[test]
fn short_init_key_join_credential_is_refused_without_abort() {
    let mut alice = fresh_node(1);
    let mut bob = fresh_node(2);
    alice.create_group().unwrap();

    // Start from a genuine framed join credential and shrink its HPKE
    // init key: the key package's wire form is one protocol-version
    // byte, two ciphersuite bytes, then the u16 length of the init key.
    let join_msg = parse_cmd(&mut bob, "join".as_bytes()).msg;
    let payload = &join_msg[1..];
    assert_eq!(&payload[3..5], &[0, 32], "expected a 32-byte X25519 init key");
    let mut forged = Vec::new();
    forged.push(join_msg[0]);
    forged.extend_from_slice(&payload[..4]);
    forged.push(5); // claim a five-byte init key
    forged.extend_from_slice(&payload[5..10]); // keep five key bytes
    forged.extend_from_slice(&payload[5 + 32..]); // the rest still lines up

    // The leader must refuse the credential recoverably, not abort while
    // sealing welcome secrets to an unusable key.
    let out = deliver(&mut alice, 9, &forged);
    assert!(matches!(out.display, Some(DisplayEvent::RawMessage { .. })));
    assert!(out.outbound.is_empty());
    assert!(alice.has_group() && alice.is_group_leader());

    // The leader still works: a genuine credential is admitted.
    let mut carol = fresh_node(3);
    enroll(&mut alice, &mut carol, 3);
}
