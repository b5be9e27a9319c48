//! The broadcast event multiplexer's decision logic.
//!
//! The transport substrate delivers peer-discovery events, inbound
//! broadcast messages and locally queued outbound bytes.  This module
//! keeps the broadcast membership view — the set of peers currently
//! subscribed to the conversation — in sync with discovery, and decides
//! for every event which action the substrate is to perform.  The
//! surrounding program owns the actual sockets; it feeds events in and
//! carries actions out.

use vstd::prelude::*;

use crate::node::clone_bytes;
use crate::wire::bytes_eq;

verus! {

/// The broadcast membership view: the peers currently part of the
/// conversation's broadcast, each named by its public identifier bytes.
pub struct PeerView {
    peers: Vec<Vec<u8>>,
}

impl PeerView {
    /// The set of peer identifiers in the view.
    pub closed spec fn peer_set(self) -> Set<Seq<u8>> {
        Set::new(|p: Seq<u8>| exists|i: int| 0 <= i < self.peers@.len() && self.peers@[i]@ == p)
    }

    /// How many peers the view lists.
    pub closed spec fn spec_len(self) -> nat {
        self.peers@.len()
    }

    /// Internal invariant: no peer is listed twice.
    pub closed spec fn inv(self) -> bool {
        forall|i: int, j: int|
            0 <= i < j < self.peers@.len() ==> self.peers@[i]@ != self.peers@[j]@
    }

    /// An empty membership view.
    pub fn new() -> (r: PeerView)
        ensures
            r.inv(),
            r.peer_set() =~= Set::<Seq<u8>>::empty(),
            r.spec_len() == 0,
    {
        PeerView { peers: Vec::new() }
    }

    /// Whether `peer` is in the view.
    pub fn contains(&self, peer: &[u8]) -> (r: bool)
        ensures
            r == self.peer_set().contains(peer@),
    {
        let mut i: usize = 0;
        while i < self.peers.len()
            invariant
                i <= self.peers@.len(),
                forall|j: int| 0 <= j < i ==> self.peers@[j]@ != peer@,
            decreases self.peers@.len() - i,
        {
            if bytes_eq(self.peers[i].as_slice(), peer) {
                return true;
            }
            i = i + 1;
        }
        false
    }

    /// Add a discovered peer to the view; a peer already present is left
    /// alone.
    pub fn add_peer(&mut self, peer: Vec<u8>)
        requires
            old(self).inv(),
        ensures
            final(self).inv(),
            final(self).peer_set() =~= old(self).peer_set().insert(peer@),
            final(self).spec_len() as int == old(self).spec_len() + (if old(self).peer_set().contains(peer@) {
                0int
            } else {
                1int
            }),
    {
        let ghost pv = peer@;
        if !self.contains(peer.as_slice()) {
            self.peers.push(peer);
            proof {
                let oldp = old(self).peers@;
                assert forall|j: int| 0 <= j < oldp.len() implies oldp[j]@ != pv by {
                    if oldp[j]@ == pv {
                        assert(old(self).peer_set().contains(pv));
                    }
                }
                assert(self.peers@[oldp.len() as int]@ == pv);
                assert forall|a: int, b: int|
                    0 <= a < b < self.peers@.len() implies self.peers@[a]@ != self.peers@[b]@ by {
                    if b < oldp.len() {
                        assert(oldp[a]@ != oldp[b]@);
                    } else {
                        assert(self.peers@[b]@ == pv);
                    }
                }
                assert forall|p: Seq<u8>| #[trigger] self.peer_set().contains(p) implies old(self).peer_set().insert(pv).contains(p) by {
                    let i = choose|i: int|
                        0 <= i < self.peers@.len() && self.peers@[i]@ == p;
                    if i < oldp.len() {
                        assert(oldp[i]@ == p);
                        assert(old(self).peer_set().contains(p));
                    } else {
                        assert(p == pv);
                    }
                }
                assert forall|p: Seq<u8>| old(self).peer_set().insert(pv).contains(
                    p,
                ) implies #[trigger] self.peer_set().contains(p) by {
                    if p == pv {
                        assert(self.peers@[oldp.len() as int]@ == p);
                    } else {
                        let i = choose|i: int| 0 <= i < oldp.len() && oldp[i]@ == p;
                        assert(self.peers@[i]@ == p);
                    }
                }
                assert(self.peer_set() =~= old(self).peer_set().insert(pv));
            }
        } else {
            proof {
                assert(old(self).peer_set().contains(pv));
                assert(self.peer_set() =~= old(self).peer_set().insert(pv));
            }
        }
    }

    /// Remove an expired peer from the view; a peer not present is left
    /// alone.
    pub fn remove_peer(&mut self, peer: &[u8])
        requires
            old(self).inv(),
        ensures
            final(self).inv(),
            final(self).peer_set() =~= old(self).peer_set().remove(peer@),
            final(self).spec_len() as int == old(self).spec_len() - (if old(self).peer_set().contains(peer@) {
                1int
            } else {
                0int
            }),
    {
        let ghost pv = peer@;
        let mut i: usize = 0;
        while i < self.peers.len()
            invariant
                old(self).inv(),
                self.peers@ == old(self).peers@,
                i <= self.peers@.len(),
                forall|j: int| 0 <= j < i ==> self.peers@[j]@ != peer@,
                pv == peer@,
            decreases self.peers@.len() - i,
        {
            if bytes_eq(self.peers[i].as_slice(), peer) {
                let ghost oldp = self.peers@;
                let ghost k: int = i as int;
                self.peers.remove(i);
                proof {
                    assert(oldp[k]@ == pv);
                    assert(forall|j: int| 0 <= j < k ==> self.peers@[j] == oldp[j]);
                    assert(forall|j: int|
                        k <= j < self.peers@.len() ==> self.peers@[j] == oldp[j + 1]);
                    assert forall|a: int, b: int|
                        0 <= a < b < self.peers@.len() implies self.peers@[a]@
                        != self.peers@[b]@ by {
                        let oa: int = if a < k { a } else { a + 1 };
                        let ob: int = if b < k { b } else { b + 1 };
                        assert(oldp[oa]@ != oldp[ob]@);
                    }
                    assert forall|p: Seq<u8>| #[trigger] self.peer_set().contains(p) implies old(self).peer_set().remove(pv).contains(p) by {
                        let j = choose|j: int|
                            0 <= j < self.peers@.len() && self.peers@[j]@ == p;
                        let oj: int = if j < k { j } else { j + 1 };
                        assert(oldp[oj]@ == p);
                        assert(old(self).peer_set().contains(p));
                        assert(oldp[oj]@ != oldp[k]@);
                    }
                    assert forall|p: Seq<u8>| old(self).peer_set().remove(pv).contains(
                        p,
                    ) implies #[trigger] self.peer_set().contains(p) by {
                        let j = choose|j: int| 0 <= j < oldp.len() && oldp[j]@ == p;
                        if j < k {
                            assert(self.peers@[j]@ == p);
                        } else {
                            assert(j != k);
                            assert(self.peers@[j - 1]@ == p);
                        }
                    }
                    assert(self.peer_set() =~= old(self).peer_set().remove(pv));
                }
                return ;
            }
            i = i + 1;
        }
        proof {
            assert forall|p: Seq<u8>| old(self).peer_set().remove(pv).contains(
                p,
            ) implies #[trigger] self.peer_set().contains(p) by {}
            assert forall|p: Seq<u8>| #[trigger] self.peer_set().contains(p) implies old(self).peer_set().remove(pv).contains(p) by {
                let j = choose|j: int| 0 <= j < self.peers@.len() && self.peers@[j]@ == p;
                assert(self.peers@[j]@ != pv);
            }
            assert(self.peer_set() =~= old(self).peer_set().remove(pv));
        }
    }

    /// How many peers are in the view.
    pub fn len(&self) -> (r: usize)
        ensures
            r == self.spec_len(),
    {
        self.peers.len()
    }
}

/// One event of the transport substrate, reduced to plain values.
#[derive(Debug)]
pub enum NetEvent {
    /// Discovery announced a peer.
    PeerDiscovered { peer: Vec<u8> },
    /// Discovery expired a peer; `still_reachable` says whether the
    /// substrate can still reach it some other way.
    PeerExpired { peer: Vec<u8>, still_reachable: bool },
    /// A broadcast message arrived, with the topics it was published on.
    InboundMessage { peer: Vec<u8>, topics: Vec<Vec<u8>>, data: Vec<u8> },
    /// Locally queued bytes are ready to be broadcast.
    OutboundReady { data: Vec<u8> },
}

/// The action the substrate is asked to perform in answer to one event.
#[derive(Debug)]
pub enum NetAction {
    /// Nothing to do.
    Ignore,
    /// Subscribe the peer to the conversation's broadcast.
    AddToBroadcast { peer: Vec<u8> },
    /// Unsubscribe the peer from the conversation's broadcast.
    RemoveFromBroadcast { peer: Vec<u8> },
    /// Hand the payload, tagged with its sender, to the processor.
    ForwardInbound { peer: Vec<u8>, data: Vec<u8> },
    /// Publish the bytes on the conversation's topic.
    Publish { topic: Vec<u8>, data: Vec<u8> },
}

/// The one fixed logical topic all participants share.
pub open spec fn spec_chat_topic() -> Seq<u8> {
    seq![97u8, 105u8, 114u8, 115u8, 112u8, 97u8, 99u8, 101u8, 65u8]
}

/// The conversation's broadcast topic (the bytes of `airspaceA`).
pub fn chat_topic() -> (r: Vec<u8>)
    ensures
        r@ == spec_chat_topic(),
{
    let mut r: Vec<u8> = Vec::new();
    r.push(97);
    r.push(105);
    r.push(114);
    r.push(115);
    r.push(112);
    r.push(97);
    r.push(99);
    r.push(101);
    r.push(65);
    proof {
        assert(r@ =~= spec_chat_topic());
    }
    r
}

/// Whether one of the listed topics is the conversation's topic.
fn topics_contain_chat(topics: &Vec<Vec<u8>>) -> (r: bool)
    ensures
        r == exists|i: int| 0 <= i < topics@.len() && topics@[i]@ == spec_chat_topic(),
{
    let chat = chat_topic();
    let mut i: usize = 0;
    while i < topics.len()
        invariant
            chat@ == spec_chat_topic(),
            i <= topics@.len(),
            forall|j: int| 0 <= j < i ==> topics@[j]@ != spec_chat_topic(),
        decreases topics@.len() - i,
    {
        if bytes_eq(topics[i].as_slice(), chat.as_slice()) {
            return true;
        }
        i = i + 1;
    }
    false
}

/// Decide, for one substrate event, how the membership view changes and
/// which action the substrate is to perform.
///
/// A discovered peer enters the view and the broadcast.  An expired peer
/// leaves both only if the substrate cannot otherwise reach it.  An
/// inbound message is forwarded to the processor exactly when it was
/// published on the conversation's topic.  Outbound bytes are published on
/// that topic, whatever the view holds.
pub fn net_step(view: &mut PeerView, event: NetEvent) -> (r: NetAction)
    requires
        old(view).inv(),
    ensures
        final(view).inv(),
        event matches NetEvent::PeerDiscovered { peer } ==> final(view).peer_set() =~= old(view).peer_set().insert(peer@) && (r matches NetAction::AddToBroadcast {
            peer: p,
        } && p@ == peer@),
        event matches NetEvent::PeerExpired { peer, still_reachable } ==> (if !still_reachable {
            final(view).peer_set() =~= old(view).peer_set().remove(peer@) && (r matches
            NetAction::RemoveFromBroadcast { peer: p } && p@ == peer@)
        } else {
            *final(view) == *old(view) && r is Ignore
        }),
        event matches NetEvent::InboundMessage { peer, topics, data } ==> *final(view) == *old(view) && (if (exists|i: int| 0 <= i < topics@.len() && topics@[i]@ == spec_chat_topic()) {
            r matches NetAction::ForwardInbound { peer: p, data: d } && p@ == peer@ && d@ == data@
        } else {
            r is Ignore
        }),
        event matches NetEvent::OutboundReady { data } ==> *final(view) == *old(view) && (
        r matches NetAction::Publish { topic, data: d } && topic@ == spec_chat_topic() && d@
            == data@),
{
    match event {
        NetEvent::PeerDiscovered { peer } => {
            let announced = clone_bytes(&peer);
            view.add_peer(peer);
            NetAction::AddToBroadcast { peer: announced }
        },
        NetEvent::PeerExpired { peer, still_reachable } => {
            if still_reachable {
                NetAction::Ignore
            } else {
                view.remove_peer(peer.as_slice());
                NetAction::RemoveFromBroadcast { peer }
            }
        },
        NetEvent::InboundMessage { peer, topics, data } => {
            if topics_contain_chat(&topics) {
                NetAction::ForwardInbound { peer, data }
            } else {
                NetAction::Ignore
            }
        },
        NetEvent::OutboundReady { data } => NetAction::Publish { topic: chat_topic(), data },
    }
}

} // verus!
