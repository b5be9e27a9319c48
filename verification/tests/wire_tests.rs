use mls_chat::wire::TAG_CONTROL;
use mls_chat::wire::TAG_JOIN;
use mls_chat::wire::TAG_WELCOME;
use mls_chat::wire::WireMessage;
use mls_chat::wire::bytes_eq;
use mls_chat::wire::classify;
use mls_chat::wire::frame;

#[test]
fn frame_prepends_one_tag_byte() {
    let framed = frame(TAG_JOIN, vec![7, 8, 9]);
    assert_eq!(framed, vec![TAG_JOIN, 7, 8, 9]);
}

#[test]
fn classify_framed_join_credential() {
    let framed = frame(TAG_JOIN, vec![0, 255, 42]);
    match classify(framed) {
        WireMessage::JoinCredential(p) => assert_eq!(p, vec![0, 255, 42]),
        _ => panic!("a join-credential frame must classify as a join credential"),
    }
}

#[test]
fn classify_framed_control_message() {
    let framed = frame(TAG_CONTROL, vec![1, 2, 3]);
    match classify(framed) {
        WireMessage::GroupControl(p) => assert_eq!(p, vec![1, 2, 3]),
        _ => panic!("a control frame must classify as a control message"),
    }
}

#[test]
fn classify_framed_welcome_message() {
    let framed = frame(TAG_WELCOME, Vec::new());
    match classify(framed) {
        WireMessage::Welcome(p) => assert!(p.is_empty()),
        _ => panic!("a welcome frame must classify as a welcome message"),
    }
}

#[test]
fn classify_unknown_tag_is_unrecognized() {
    let bytes = vec![9, 1, 2];
    match classify(bytes.clone()) {
        WireMessage::Unrecognized(p) => assert_eq!(p, bytes),
        _ => panic!("an unknown tag must stay unrecognized"),
    }
}

#[test]
fn classify_empty_payload_is_unrecognized() {
    match classify(Vec::new()) {
        WireMessage::Unrecognized(p) => assert!(p.is_empty()),
        _ => panic!("empty bytes must stay unrecognized"),
    }
}

#[test]
fn bytes_eq_compares_contents() {
    assert!(bytes_eq(&[1, 2, 3], &[1, 2, 3]));
    assert!(!bytes_eq(&[1, 2, 3], &[1, 2]));
    assert!(!bytes_eq(&[1, 2, 3], &[1, 2, 4]));
    assert!(bytes_eq(&[], &[]));
}
