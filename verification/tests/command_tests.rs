use mls_chat::commands::CmdEffect;
use mls_chat::commands::parse_cmd;
use mls_chat::commands::tokenize;
use mls_chat::node::Node;
use mls_chat::wire::WireMessage;
use mls_chat::wire::classify;

fn fresh_node(id: u8) -> Node {
    Node::new(vec![id, id, id]).expect("identity setup should succeed")
}

#[test]
fn tokenize_splits_on_whitespace() {
    let toks = tokenize("  send  hi there\t".as_bytes());
    assert_eq!(toks.len(), 3);
    assert_eq!(toks[0], "send".as_bytes().to_vec());
    assert_eq!(toks[1], "hi".as_bytes().to_vec());
    assert_eq!(toks[2], "there".as_bytes().to_vec());
}

#[test]
fn empty_line_does_nothing() {
    let mut node = fresh_node(1);
    let out = parse_cmd(&mut node, "   ".as_bytes());
    assert!(out.msg.is_empty());
    assert!(out.effects.is_empty());
    assert!(!node.has_group());
}

#[test]
fn send_without_group_warns_and_enqueues_nothing() {
    let mut node = fresh_node(2);
    let out = parse_cmd(&mut node, "send hi".as_bytes());
    assert!(out.msg.is_empty());
    assert_eq!(out.effects.len(), 1);
    assert!(matches!(out.effects[0], CmdEffect::NoGroupWarning));
    assert!(!node.has_group());
}

#[test]
fn create_makes_a_led_group() {
    let mut node = fresh_node(3);
    let out = parse_cmd(&mut node, "create".as_bytes());
    assert!(matches!(out.effects[0], CmdEffect::Creating));
    assert!(out.msg.is_empty());
    assert!(node.has_group());
    assert!(node.is_group_leader());
}

#[test]
fn join_broadcasts_a_framed_join_credential() {
    let mut node = fresh_node(4);
    let out = parse_cmd(&mut node, "join".as_bytes());
    assert!(matches!(out.effects[0], CmdEffect::SendingKeys));
    assert!(!out.msg.is_empty());
    assert!(matches!(classify(out.msg.clone()), WireMessage::JoinCredential(_)));

    // A leader recognizes the broadcast bytes as a usable join credential.
    let mut leader = fresh_node(40);
    parse_cmd(&mut leader, "create".as_bytes());
    let outcome = mls_chat::dispatch::handle_wire_message(&mut leader, vec![4], out.msg);
    assert!(matches!(
        outcome.display,
        Some(mls_chat::dispatch::DisplayEvent::AddedMember { .. })
    ));
}

#[test]
fn send_with_group_broadcasts_a_control_frame_and_echoes() {
    let mut node = fresh_node(5);
    parse_cmd(&mut node, "create".as_bytes());
    let out = parse_cmd(&mut node, "send hi there".as_bytes());
    assert_eq!(out.effects.len(), 1);
    match &out.effects[0] {
        CmdEffect::Echo(text) => assert_eq!(text, &"hi there".as_bytes().to_vec()),
        _ => panic!("a successful send must echo the text"),
    }
    assert!(matches!(classify(out.msg), WireMessage::GroupControl(_)));
}

#[test]
fn unknown_token_reports_and_stops_the_line() {
    let mut node = fresh_node(6);
    let out = parse_cmd(&mut node, "frobnicate create".as_bytes());
    assert_eq!(out.effects.len(), 1);
    match &out.effects[0] {
        CmdEffect::Unknown(tok) => assert_eq!(tok, &"frobnicate".as_bytes().to_vec()),
        _ => panic!("an unknown token must be reported"),
    }
    assert!(out.msg.is_empty());
    assert!(!node.has_group());
}

#[test]
fn clear_stops_the_line() {
    let mut node = fresh_node(7);
    let out = parse_cmd(&mut node, "clear create".as_bytes());
    assert_eq!(out.effects.len(), 1);
    assert!(matches!(out.effects[0], CmdEffect::ClearScreen));
    assert!(!node.has_group());
}

#[test]
fn exit_is_reported_to_the_caller() {
    let mut node = fresh_node(8);
    let out = parse_cmd(&mut node, "exit".as_bytes());
    assert_eq!(out.effects.len(), 1);
    assert!(matches!(out.effects[0], CmdEffect::Exit));
}

#[test]
fn help_continues_the_line() {
    let mut node = fresh_node(9);
    let out = parse_cmd(&mut node, "help create".as_bytes());
    assert!(matches!(out.effects[0], CmdEffect::Help));
    assert!(matches!(out.effects[1], CmdEffect::Creating));
    assert!(node.has_group());
}
