use mls_chat::netview::NetAction;
use mls_chat::netview::NetEvent;
use mls_chat::netview::PeerView;
use mls_chat::netview::chat_topic;
use mls_chat::netview::net_step;

#[test]
fn discovered_peer_enters_view_and_broadcast() {
    let mut view = PeerView::new();
    let action = net_step(&mut view, NetEvent::PeerDiscovered { peer: vec![1] });
    assert!(matches!(action, NetAction::AddToBroadcast { .. }));
    assert!(view.contains(&[1]));
    assert_eq!(view.len(), 1);
}

#[test]
fn rediscovered_peer_is_not_listed_twice() {
    let mut view = PeerView::new();
    net_step(&mut view, NetEvent::PeerDiscovered { peer: vec![1] });
    net_step(&mut view, NetEvent::PeerDiscovered { peer: vec![1] });
    assert_eq!(view.len(), 1);
}

#[test]
fn expired_unreachable_peer_leaves_the_view() {
    let mut view = PeerView::new();
    net_step(&mut view, NetEvent::PeerDiscovered { peer: vec![1] });
    net_step(&mut view, NetEvent::PeerDiscovered { peer: vec![2] });
    let action = net_step(
        &mut view,
        NetEvent::PeerExpired { peer: vec![1], still_reachable: false },
    );
    assert!(matches!(action, NetAction::RemoveFromBroadcast { .. }));
    assert!(!view.contains(&[1]));
    assert!(view.contains(&[2]));
}

#[test]
fn expired_but_reachable_peer_stays() {
    let mut view = PeerView::new();
    net_step(&mut view, NetEvent::PeerDiscovered { peer: vec![1] });
    let action = net_step(
        &mut view,
        NetEvent::PeerExpired { peer: vec![1], still_reachable: true },
    );
    assert!(matches!(action, NetAction::Ignore));
    assert!(view.contains(&[1]));
}

#[test]
fn inbound_on_chat_topic_is_forwarded() {
    let mut view = PeerView::new();
    let action = net_step(
        &mut view,
        NetEvent::InboundMessage {
            peer: vec![1],
            topics: vec![vec![0], chat_topic()],
            data: vec![9, 9],
        },
    );
    match action {
        NetAction::ForwardInbound { data, .. } => assert_eq!(data, vec![9, 9]),
        other => panic!("expected forwarding, got {:?}", other),
    }
}

#[test]
fn inbound_off_topic_is_dropped() {
    let mut view = PeerView::new();
    let action = net_step(
        &mut view,
        NetEvent::InboundMessage { peer: vec![1], topics: vec![vec![0]], data: vec![9] },
    );
    assert!(matches!(action, NetAction::Ignore));
}

#[test]
fn outbound_bytes_are_published_on_the_chat_topic() {
    let mut view = PeerView::new();
    let action = net_step(&mut view, NetEvent::OutboundReady { data: vec![5, 6] });
    match action {
        NetAction::Publish { topic, data } => {
            assert_eq!(topic, chat_topic());
            assert_eq!(data, vec![5, 6]);
        },
        other => panic!("expected a publish, got {:?}", other),
    }
}
