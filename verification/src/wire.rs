//! Wire-message framing and classification.
//!
//! Every protocol artifact that leaves the process — a join credential, a
//! group control message, a welcome message — is framed with one explicit
//! tag byte in front of its serialized payload.  Classification of an
//! incoming payload then reads the tag alone, so the four message kinds can
//! never be confused with one another: a framed message of one kind
//! classifies as that kind for every possible payload.  Bytes that carry no
//! known tag (including the empty payload) are left untouched as an
//! unrecognized message.

use vstd::prelude::*;

verus! {

/// Tag byte in front of a serialized join credential (key package).
pub const TAG_JOIN: u8 = 1;

/// Tag byte in front of a serialized group control message.
pub const TAG_CONTROL: u8 = 2;

/// Tag byte in front of a serialized welcome message.
pub const TAG_WELCOME: u8 = 3;

/// The four kinds of message that can arrive on the broadcast topic.
#[derive(Clone, Copy, Debug, PartialEq, Eq, Structural)]
pub enum WireKind {
    JoinCredential,
    GroupControl,
    Welcome,
    Unrecognized,
}

/// A classified inbound payload: the kind together with the payload bytes.
/// For the three recognized kinds the payload is the framed bytes with the
/// tag removed; an unrecognized message keeps the inbound bytes unchanged.
#[derive(Debug)]
pub enum WireMessage {
    JoinCredential(Vec<u8>),
    GroupControl(Vec<u8>),
    Welcome(Vec<u8>),
    Unrecognized(Vec<u8>),
}

/// The framed form of a payload: the tag byte followed by the payload.
pub open spec fn spec_frame(tag: u8, payload: Seq<u8>) -> Seq<u8> {
    seq![tag] + payload
}

/// The kind that a byte string classifies as, decided by its first byte.
pub open spec fn spec_kind_of(bytes: Seq<u8>) -> WireKind {
    if bytes.len() == 0 {
        WireKind::Unrecognized
    } else if bytes[0] == TAG_JOIN {
        WireKind::JoinCredential
    } else if bytes[0] == TAG_CONTROL {
        WireKind::GroupControl
    } else if bytes[0] == TAG_WELCOME {
        WireKind::Welcome
    } else {
        WireKind::Unrecognized
    }
}

/// The payload that classification hands on: the bytes behind the tag for a
/// recognized kind, the whole byte string otherwise.
pub open spec fn spec_payload_of(bytes: Seq<u8>) -> Seq<u8> {
    if spec_kind_of(bytes) == WireKind::Unrecognized {
        bytes
    } else {
        bytes.drop_first()
    }
}

impl WireMessage {
    /// The kind of this classified message.
    pub open spec fn kind(self) -> WireKind {
        match self {
            WireMessage::JoinCredential(_) => WireKind::JoinCredential,
            WireMessage::GroupControl(_) => WireKind::GroupControl,
            WireMessage::Welcome(_) => WireKind::Welcome,
            WireMessage::Unrecognized(_) => WireKind::Unrecognized,
        }
    }

    /// The payload bytes carried by this classified message.
    pub open spec fn payload(self) -> Seq<u8> {
        match self {
            WireMessage::JoinCredential(p) => p@,
            WireMessage::GroupControl(p) => p@,
            WireMessage::Welcome(p) => p@,
            WireMessage::Unrecognized(p) => p@,
        }
    }
}

/// Compare two byte strings for equality of their contents.
pub fn bytes_eq(a: &[u8], b: &[u8]) -> (r: bool)
    ensures
        r <==> a@ == b@,
{
    if a.len() != b.len() {
        return false;
    }
    let mut i: usize = 0;
    while i < a.len()
        invariant
            i <= a@.len(),
            a@.len() == b@.len(),
            forall|j: int| 0 <= j < i ==> a@[j] == b@[j],
        decreases a@.len() - i,
    {
        if a[i] != b[i] {
            return false;
        }
        i = i + 1;
    }
    proof {
        assert(a@ =~= b@);
    }
    true
}

/// Frame a payload under a tag byte: the result is the tag followed by the
/// payload, so that `classify` recovers both.
pub fn frame(tag: u8, payload: Vec<u8>) -> (r: Vec<u8>)
    ensures
        r@ == spec_frame(tag, payload@),
{
    let mut r: Vec<u8> = Vec::new();
    r.push(tag);
    let mut rest = payload;
    r.append(&mut rest);
    r
}

/// Classify an inbound byte string by its leading tag byte.
///
/// The returned variant is exactly the kind `spec_kind_of` assigns to the
/// bytes, and it carries exactly `spec_payload_of` of them.
pub fn classify(bytes: Vec<u8>) -> (r: WireMessage)
    ensures
        r.kind() == spec_kind_of(bytes@),
        r.payload() == spec_payload_of(bytes@),
{
    if bytes.len() == 0 {
        return WireMessage::Unrecognized(bytes);
    }
    let tag = bytes[0];
    if tag != TAG_JOIN && tag != TAG_CONTROL && tag != TAG_WELCOME {
        return WireMessage::Unrecognized(bytes);
    }
    let mut payload: Vec<u8> = Vec::new();
    let mut i: usize = 1;
    while i < bytes.len()
        invariant
            1 <= i <= bytes@.len(),
            payload@ == bytes@.subrange(1, i as int),
        decreases bytes@.len() - i,
    {
        payload.push(bytes[i]);
        proof {
            assert(payload@ =~= bytes@.subrange(1, i + 1));
        }
        i = i + 1;
    }
    proof {
        assert(payload@ =~= bytes@.drop_first());
    }
    if tag == TAG_JOIN {
        WireMessage::JoinCredential(payload)
    } else if tag == TAG_CONTROL {
        WireMessage::GroupControl(payload)
    } else {
        WireMessage::Welcome(payload)
    }
}

/// Law: framing under a protocol tag is unambiguous.  For every payload, the
/// framed bytes classify as exactly the kind the tag stands for, and
/// classification returns the payload unchanged.  In particular a serialized
/// join credential, however it looks inside, always classifies as the
/// join-credential kind.
pub proof fn lemma_classify_frame(tag: u8, payload: Seq<u8>)
    requires
        tag == TAG_JOIN || tag == TAG_CONTROL || tag == TAG_WELCOME,
    ensures
        spec_kind_of(spec_frame(tag, payload)) == (if tag == TAG_JOIN {
            WireKind::JoinCredential
        } else if tag == TAG_CONTROL {
            WireKind::GroupControl
        } else {
            WireKind::Welcome
        }),
        spec_payload_of(spec_frame(tag, payload)) == payload,
{
    assert(spec_frame(tag, payload)[0] == tag);
    assert(spec_frame(tag, payload).drop_first() =~= payload);
}

} // verus!
