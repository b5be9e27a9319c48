//! Inbound message dispatch: from classified wire bytes to session
//! operations.
//!
//! One inbound broadcast payload, tagged with its sender, is classified by
//! [`crate::wire::classify`] and acted on:
//!
//! - a join credential is admitted if — and only if — this session leads a
//!   group, answering with the framed welcome and the framed commit;
//! - a control message is handed to the session, surfacing decrypted text;
//! - a welcome message makes the session join the announced group;
//! - anything else touches nothing and is only reported.
//!
//! The function never broadcasts unframed bytes and never panics; every
//! engine refusal becomes a display event for the surrounding program.

use vstd::prelude::*;

use crate::crypto::SessionError;
use crate::crypto::control_message_decodable;
use crate::crypto::deserialize_key_package;
use crate::crypto::deserialize_mls_message;
use crate::crypto::deserialize_welcome;
use crate::crypto::key_package_decodable;
use crate::crypto::serialize_mls_message;
use crate::crypto::serialize_welcome;
use crate::crypto::welcome_decodable;
use crate::node::Node;
use crate::wire::TAG_CONTROL;
use crate::wire::TAG_WELCOME;
use crate::wire::WireKind;
use crate::wire::WireMessage;
use crate::wire::classify;
use crate::wire::frame;
use crate::wire::lemma_classify_frame;
use crate::wire::spec_kind_of;
use crate::wire::spec_payload_of;

verus! {

/// A display action the surrounding program is asked to perform after an
/// inbound payload was handled.
#[derive(Debug)]
pub enum DisplayEvent {
    /// The sender was admitted into the led group.
    AddedMember { peer: Vec<u8> },
    /// The engine refused to admit the sender.
    AddFailed { error: SessionError },
    /// Decrypted application text from the sender.
    ChatMessage { peer: Vec<u8>, text: String },
    /// A control message that could not be parsed or verified.
    UnknownMessage,
    /// This session joined the group announced by the sender's welcome.
    JoinedGroup { peer: Vec<u8> },
    /// The welcome could not be validated; the session is unchanged.
    JoinFailed,
    /// A payload outside the protocol, shown raw.
    RawMessage { peer: Vec<u8>, bytes: Vec<u8> },
}

/// What handling one inbound payload amounts to: the framed byte strings
/// to broadcast, in order, and at most one display action.
#[derive(Debug)]
pub struct HandleOutcome {
    pub outbound: Vec<Vec<u8>>,
    pub display: Option<DisplayEvent>,
}

/// Handle one inbound broadcast payload from `peer`.
///
/// Only a leader answers a join credential: it either broadcasts exactly
/// one framed welcome followed by one framed control message and reports
/// the admission, or broadcasts nothing and reports the failure.  Every
/// other kind broadcasts nothing, and a welcome is always answered with a
/// display event, success or failure.  Unrecognized bytes and control
/// messages without an active group leave the session untouched.
/// The display action owed for one outcome of the session's message
/// processing: decrypted text is surfaced as a chat message attributed to
/// its sender, a silent outcome (a merged commit, an acknowledged
/// proposal) shows nothing, and a refusal is reported.
fn display_for_parse(peer: Vec<u8>, res: Result<Option<String>, SessionError>) -> (r: Option<
    DisplayEvent,
>)
    ensures
        res matches Ok(m) ==> (m matches Some(text) ==> (r matches Some(e) && (e matches
        DisplayEvent::ChatMessage { peer: p, text: t } && t == text && p@ == peer@))),
        res matches Ok(m) && m is None ==> r is None,
        res is Err ==> (r matches Some(e) && e matches DisplayEvent::UnknownMessage),
{
    match res {
        Ok(Some(text)) => Some(DisplayEvent::ChatMessage { peer, text }),
        Ok(None) => None,
        Err(_) => Some(DisplayEvent::UnknownMessage),
    }
}

pub fn handle_wire_message(node: &mut Node, peer: Vec<u8>, data: Vec<u8>) -> (r: HandleOutcome)
    requires
        old(node).inv(),
    ensures
        final(node).inv(),
        final(node).spec_peer_id() == old(node).spec_peer_id(),
        final(node).spec_issued() == old(node).spec_issued(),
        spec_kind_of(data@) == WireKind::Unrecognized ==> *final(node) == *old(node)
            && r.outbound@.len() == 0 && (r.display matches Some(e) && e matches
        DisplayEvent::RawMessage { .. }),
        spec_kind_of(data@) == WireKind::JoinCredential && !old(node).spec_is_leader() ==> *final(node) == *old(node) && r.outbound@.len() == 0 && r.display is None,
        spec_kind_of(data@) == WireKind::JoinCredential ==> final(node).spec_is_leader() == old(node).spec_is_leader() && final(node).spec_has_group() == old(node).spec_has_group() && (
        r.outbound@.len() == 0 || (r.outbound@.len() == 2 && spec_kind_of(r.outbound@[0]@)
            == WireKind::Welcome && spec_kind_of(r.outbound@[1]@) == WireKind::GroupControl)),
        spec_kind_of(data@) == WireKind::GroupControl ==> r.outbound@.len() == 0 && final(node).spec_has_group() == old(node).spec_has_group() && final(node).spec_is_leader() == old(node).spec_is_leader(),
        spec_kind_of(data@) == WireKind::GroupControl && !old(node).spec_has_group() ==> *final(node) == *old(node) && r.display is None,
        spec_kind_of(data@) == WireKind::Welcome ==> r.outbound@.len() == 0,
        spec_kind_of(data@) == WireKind::Welcome && (r.display matches Some(e) && e matches
        DisplayEvent::JoinedGroup { .. }) ==> final(node).spec_has_group() && !final(node).spec_is_leader(),
        spec_kind_of(data@) == WireKind::Welcome && !(r.display matches Some(e) && e matches
        DisplayEvent::JoinedGroup { .. }) ==> *final(node) == *old(node),
        spec_kind_of(data@) == WireKind::JoinCredential && old(node).spec_is_leader() ==> (
        r.outbound@.len() == 2 && (r.display matches Some(e) && e matches DisplayEvent::AddedMember
            { .. })) || (r.outbound@.len() == 0 && (r.display matches Some(e) && (e matches
        DisplayEvent::AddFailed { .. } || e matches DisplayEvent::RawMessage { .. }))),
        spec_kind_of(data@) == WireKind::GroupControl && old(node).spec_has_group() ==> (
        r.display is None || (r.display matches Some(e) && (e matches DisplayEvent::ChatMessage
            { .. } || e matches DisplayEvent::UnknownMessage || e matches DisplayEvent::RawMessage
            { .. }))),
        spec_kind_of(data@) == WireKind::Welcome ==> r.display is Some,
        r.display matches Some(e) ==> ((e matches DisplayEvent::ChatMessage { peer: p, .. }
            ==> p@ == peer@) && (e matches DisplayEvent::AddedMember { peer: p } ==> p@ == peer@)
            && (e matches DisplayEvent::JoinedGroup { peer: p } ==> p@ == peer@) && (e matches
        DisplayEvent::RawMessage { peer: p, .. } ==> p@ == peer@)),
        spec_kind_of(data@) == WireKind::Unrecognized ==> (r.display matches Some(e) && (e matches
        DisplayEvent::RawMessage { peer: p, bytes: b } && b@ == data@)),
        spec_kind_of(data@) == WireKind::GroupControl && (r.display matches Some(e) && e matches
        DisplayEvent::ChatMessage { .. }) ==> old(node).spec_has_group(),
        spec_kind_of(data@) == WireKind::JoinCredential && old(node).spec_is_leader() ==> ((
        r.display matches Some(e) && e matches DisplayEvent::RawMessage { .. })
            <==> !key_package_decodable(spec_payload_of(data@))),
        spec_kind_of(data@) == WireKind::GroupControl && old(node).spec_has_group() ==> ((
        r.display matches Some(e) && e matches DisplayEvent::RawMessage { .. })
            <==> !control_message_decodable(spec_payload_of(data@))),
        spec_kind_of(data@) == WireKind::Welcome ==> ((r.display matches Some(e) && e matches
        DisplayEvent::RawMessage { .. }) <==> !welcome_decodable(spec_payload_of(data@))),
        spec_kind_of(data@) == WireKind::Welcome && welcome_decodable(spec_payload_of(data@))
            ==> (r.display matches Some(e) && (e matches DisplayEvent::JoinedGroup { .. }
            || e matches DisplayEvent::JoinFailed)),
{
    let message = classify(data);
    match message {
        WireMessage::JoinCredential(payload) => {
            if !node.is_group_leader() {
                return HandleOutcome { outbound: Vec::new(), display: None };
            }
            let key_package = match deserialize_key_package(payload.as_slice()) {
                Ok(kp) => kp,
                Err(_) => {
                    return HandleOutcome {
                        outbound: Vec::new(),
                        display: Some(DisplayEvent::RawMessage { peer, bytes: payload }),
                    };
                },
            };
            let (control, welcome) = match node.add_node_to_group(key_package) {
                Ok(out) => out,
                Err(e) => {
                    return HandleOutcome {
                        outbound: Vec::new(),
                        display: Some(DisplayEvent::AddFailed { error: e }),
                    };
                },
            };
            let welcome_bytes = match serialize_welcome(&welcome) {
                Ok(b) => b,
                Err(e) => {
                    return HandleOutcome {
                        outbound: Vec::new(),
                        display: Some(DisplayEvent::AddFailed { error: e }),
                    };
                },
            };
            let control_bytes = match serialize_mls_message(&control) {
                Ok(b) => b,
                Err(e) => {
                    return HandleOutcome {
                        outbound: Vec::new(),
                        display: Some(DisplayEvent::AddFailed { error: e }),
                    };
                },
            };
            let ghost welcome_payload = welcome_bytes@;
            let ghost control_payload = control_bytes@;
            let framed_welcome = frame(TAG_WELCOME, welcome_bytes);
            let framed_control = frame(TAG_CONTROL, control_bytes);
            let mut outbound: Vec<Vec<u8>> = Vec::new();
            outbound.push(framed_welcome);
            outbound.push(framed_control);
            proof {
                lemma_classify_frame(TAG_WELCOME, welcome_payload);
                lemma_classify_frame(TAG_CONTROL, control_payload);
            }
            HandleOutcome {
                outbound,
                display: Some(DisplayEvent::AddedMember { peer }),
            }
        },
        WireMessage::GroupControl(payload) => {
            if !node.has_group() {
                return HandleOutcome { outbound: Vec::new(), display: None };
            }
            let control = match deserialize_mls_message(payload.as_slice()) {
                Ok(m) => m,
                Err(_) => {
                    return HandleOutcome {
                        outbound: Vec::new(),
                        display: Some(DisplayEvent::RawMessage { peer, bytes: payload }),
                    };
                },
            };
            let res = node.parse_message(control);
            HandleOutcome { outbound: Vec::new(), display: display_for_parse(peer, res) }
        },
        WireMessage::Welcome(payload) => {
            let welcome = match deserialize_welcome(payload.as_slice()) {
                Ok(w) => w,
                Err(_) => {
                    return HandleOutcome {
                        outbound: Vec::new(),
                        display: Some(DisplayEvent::RawMessage { peer, bytes: payload }),
                    };
                },
            };
            match node.join_group(welcome) {
                Ok(_) => HandleOutcome {
                    outbound: Vec::new(),
                    display: Some(DisplayEvent::JoinedGroup { peer }),
                },
                Err(_) => HandleOutcome {
                    outbound: Vec::new(),
                    display: Some(DisplayEvent::JoinFailed),
                },
            }
        },
        WireMessage::Unrecognized(bytes) => HandleOutcome {
            outbound: Vec::new(),
            display: Some(DisplayEvent::RawMessage { peer, bytes }),
        },
    }
}

} // verus!
