//! The secure-group session: one participant's view of at most one
//! end-to-end-encrypted conversation.
//!
//! A [`Node`] moves between two states: no active group, and an active
//! group with a leader flag.  `create_group` enters the active state as
//! leader (replacing any previous group wholesale), `join_group` enters it
//! as a non-leader from a welcome message, and no operation ever composes
//! two groups.  All cryptography is delegated to the engine behind the
//! wrappers of [`crate::crypto`]; every failure of the engine surfaces as
//! a recoverable [`SessionError`].

use vstd::prelude::*;

use openmls::prelude::Credential;
use openmls::prelude::KeyPackage;
use openmls::prelude::MlsGroup;
use openmls::prelude::MlsGroupConfig;
use openmls::prelude::MlsMessageOut;
use openmls::prelude::Welcome;
use openmls_rust_crypto::OpenMlsRustCrypto;

use crate::crypto::SessionError;
use crate::crypto::ProcessedContent;
use crate::crypto::new_backend;
use crate::crypto::default_group_config;
use crate::crypto::new_mls_credential_from_identity;
use crate::crypto::new_key_package;
use crate::crypto::new_mls_group;
use crate::crypto::new_mls_group_from_welcome;
use crate::crypto::group_add_members;
use crate::crypto::group_merge_pending;
use crate::crypto::group_create_message;
use crate::crypto::group_parse_message;
use crate::crypto::group_process_unverified;
use crate::crypto::group_merge_staged_commit;
use crate::crypto::utf8_to_string;

verus! {

/// Copy a byte vector.  Written out so that the view equality is proved
/// rather than taken from the standard library's derived clone.
pub fn clone_bytes(v: &Vec<u8>) -> (r: Vec<u8>)
    ensures
        r@ == v@,
{
    let mut r: Vec<u8> = Vec::new();
    let mut i: usize = 0;
    while i < v.len()
        invariant
            i <= v@.len(),
            r@ == v@.subrange(0, i as int),
        decreases v@.len() - i,
    {
        r.push(v[i]);
        proof {
            assert(r@ =~= v@.subrange(0, i + 1));
        }
        i = i + 1;
    }
    proof {
        assert(r@ =~= v@);
    }
    r
}

/// This participant's identity: the public peer identifier it is known by
/// on the network, the stored credential derived from it, and the initial
/// publishable join credential (key package).
struct Identity {
    peer_id: Vec<u8>,
    credential: Credential,
    mls_keypack: KeyPackage,
}

/// One participant's secure-group session.
pub struct Node {
    backend: OpenMlsRustCrypto,
    config: MlsGroupConfig,
    mls_group: Option<MlsGroup>,
    identity: Identity,
    is_group_leader: bool,
    issued: u64,
}

impl Node {
    /// Whether the session currently holds an active group.
    pub closed spec fn spec_has_group(self) -> bool {
        self.mls_group is Some
    }

    /// Whether this participant created the currently active group.
    pub closed spec fn spec_is_leader(self) -> bool {
        self.is_group_leader
    }

    /// The public peer identifier this session was created with.
    pub closed spec fn spec_peer_id(self) -> Seq<u8> {
        self.identity.peer_id@
    }

    /// How many one-time join credentials have been issued so far.
    pub closed spec fn spec_issued(self) -> nat {
        self.issued as nat
    }

    /// The initial publishable join credential.
    pub closed spec fn spec_key_package(self) -> KeyPackage {
        self.identity.mls_keypack
    }

    /// Session invariant: only a session holding an active group can be
    /// its leader.
    pub open spec fn inv(self) -> bool {
        self.spec_is_leader() ==> self.spec_has_group()
    }

    /// Create a session for the participant known by `peer_id`: a stored
    /// credential bound to that identifier and one initial join
    /// credential.  The session starts without a group and without
    /// leadership.
    pub fn new(peer_id: Vec<u8>) -> (r: Result<Node, SessionError>)
        ensures
            r matches Ok(n) ==> {
                &&& n.inv()
                &&& !n.spec_has_group()
                &&& !n.spec_is_leader()
                &&& n.spec_peer_id() == peer_id@
                &&& n.spec_issued() == 0
            },
            r matches Err(e) ==> e == SessionError::Backend,
    {
        let backend = new_backend();
        let config = default_group_config();
        let id_bytes = clone_bytes(&peer_id);
        let credential = match new_mls_credential_from_identity(id_bytes, &backend) {
            Ok(c) => c,
            Err(e) => {
                return Err(e);
            },
        };
        let mls_keypack = match new_key_package(&credential, &backend) {
            Ok(kp) => kp,
            Err(e) => {
                return Err(e);
            },
        };
        Ok(Node {
            backend,
            config,
            mls_group: None,
            identity: Identity { peer_id, credential, mls_keypack },
            is_group_leader: false,
            issued: 0,
        })
    }

    /// Start a new conversation as its leader.  Any previously active
    /// group is discarded wholesale — the new group is keyed by a fresh
    /// one-time join credential and nothing of the old state is merged.
    /// On failure of the engine the session is left exactly as it was.
    pub fn create_group(&mut self) -> (r: Result<(), SessionError>)
        requires
            old(self).inv(),
        ensures
            final(self).inv(),
            r is Ok ==> final(self).spec_has_group() && final(self).spec_is_leader(),
            r is Err ==> *final(self) == *old(self),
            r matches Err(e) ==> e == SessionError::Backend,
            final(self).spec_peer_id() == old(self).spec_peer_id(),
            final(self).spec_issued() == old(self).spec_issued(),
            final(self).spec_key_package() == old(self).spec_key_package(),
    {
        let kp = match new_key_package(&self.identity.credential, &self.backend) {
            Ok(kp) => kp,
            Err(e) => {
                return Err(e);
            },
        };
        let group = match new_mls_group(&self.backend, &self.config, &kp) {
            Ok(g) => g,
            Err(e) => {
                return Err(e);
            },
        };
        self.mls_group = Some(group);
        self.is_group_leader = true;
        Ok(())
    }

    /// Admit the bearer of `key_package` into the active group and merge
    /// the resulting commit at once, so the admitting side's view is
    /// authoritative before any network round trip.  Returns the control
    /// message for the existing members and the welcome message for the
    /// new one.  Without an active group nothing happens and
    /// `NoActiveGroup` is returned.
    pub fn add_node_to_group(&mut self, key_package: KeyPackage) -> (r: Result<
        (MlsMessageOut, Welcome),
        SessionError,
    >)
        requires
            old(self).inv(),
        ensures
            final(self).inv(),
            (r matches Err(e) && e == SessionError::NoActiveGroup) <==> !old(self).spec_has_group(),
            !old(self).spec_has_group() ==> r == Err::<(MlsMessageOut, Welcome),
                SessionError,
            >(SessionError::NoActiveGroup) && *final(self) == *old(self),
            r matches Err(e) ==> e == SessionError::NoActiveGroup || e
                == SessionError::InvalidKeyPackage || e == SessionError::CommitMergeFailed,
            final(self).spec_has_group() == old(self).spec_has_group(),
            final(self).spec_is_leader() == old(self).spec_is_leader(),
            final(self).spec_peer_id() == old(self).spec_peer_id(),
            final(self).spec_issued() == old(self).spec_issued(),
    {
        match &mut self.mls_group {
            Some(group) => {
                let out = match group_add_members(group, &self.backend, &key_package) {
                    Ok(out) => out,
                    Err(e) => {
                        return Err(e);
                    },
                };
                match group_merge_pending(group) {
                    Ok(_) => Ok(out),
                    Err(e) => Err(e),
                }
            },
            None => Err(SessionError::NoActiveGroup),
        }
    }

    /// Join the conversation a welcome message admits this participant
    /// into.  On success the session's previous state is replaced
    /// wholesale by the new group and leadership is relinquished; on
    /// failure the session is left exactly as it was and the invalid
    /// welcome is reported.
    pub fn join_group(&mut self, welcome: Welcome) -> (r: Result<(), SessionError>)
        requires
            old(self).inv(),
        ensures
            final(self).inv(),
            r is Ok ==> final(self).spec_has_group() && !final(self).spec_is_leader(),
            r is Err ==> *final(self) == *old(self),
            r matches Err(e) ==> e == SessionError::InvalidWelcome,
            final(self).spec_peer_id() == old(self).spec_peer_id(),
            final(self).spec_issued() == old(self).spec_issued(),
    {
        let group = match new_mls_group_from_welcome(&self.backend, &self.config, welcome) {
            Ok(g) => g,
            Err(e) => {
                return Err(e);
            },
        };
        self.mls_group = Some(group);
        self.is_group_leader = false;
        Ok(())
    }

    /// Encrypt application bytes into an outbound control message for the
    /// active group.  Without an active group nothing happens and
    /// `NoActiveGroup` is returned.
    pub fn create_message(&mut self, msg: &[u8]) -> (r: Result<MlsMessageOut, SessionError>)
        requires
            old(self).inv(),
        ensures
            final(self).inv(),
            (r matches Err(e) && e == SessionError::NoActiveGroup) <==> !old(self).spec_has_group(),
            !old(self).spec_has_group() ==> r == Err::<MlsMessageOut, SessionError>(
                SessionError::NoActiveGroup,
            ) && *final(self) == *old(self),
            r matches Err(e) ==> e == SessionError::NoActiveGroup || e
                == SessionError::MessageRejected,
            final(self).spec_has_group() == old(self).spec_has_group(),
            final(self).spec_is_leader() == old(self).spec_is_leader(),
            final(self).spec_peer_id() == old(self).spec_peer_id(),
            final(self).spec_issued() == old(self).spec_issued(),
    {
        match &mut self.mls_group {
            Some(group) => group_create_message(group, &self.backend, msg),
            None => Err(SessionError::NoActiveGroup),
        }
    }

    /// Act on what a verified control message turned out to carry.
    ///
    /// This is the session's own half of message processing, after the
    /// engine has decrypted and verified the payload: application bytes
    /// are surfaced as their UTF-8 text (invalid UTF-8 is a recoverable
    /// decode error, never a panic), a commit is merged into the group --
    /// recoverably refused with `CommitMergeFailed` -- and a proposal is
    /// acknowledged without action.
    fn apply_processed(group: &mut MlsGroup, backend: &OpenMlsRustCrypto, content: ProcessedContent) -> (r: Result<
        Option<String>,
        SessionError,
    >)
        ensures
            content matches ProcessedContent::Application(b) ==> (if vstd::utf8::valid_utf8(b@) {
                r matches Ok(m) && m matches Some(text) && text@ == vstd::utf8::decode_utf8(b@)
            } else {
                r matches Err(e) && e == SessionError::InvalidUtf8
            }),
            content matches ProcessedContent::Proposal ==> r matches Ok(m) && m is None,
            content matches ProcessedContent::Commit(c) ==> (r matches Ok(m) && m is None) || (
            r matches Err(e) && e == SessionError::CommitMergeFailed),
    {
        match content {
            ProcessedContent::Application(bytes) => {
                match utf8_to_string(bytes) {
                    Ok(text) => Ok(Some(text)),
                    Err(e) => Err(e),
                }
            },
            ProcessedContent::Commit(commit) => {
                match group_merge_staged_commit(group, commit) {
                    Ok(_) => Ok(None),
                    Err(e) => Err(e),
                }
            },
            ProcessedContent::Proposal => Ok(None),
        }
    }

    /// Parse, verify and act on an inbound control message.
    ///
    /// Without an active group this is a complete no-op that returns
    /// `Ok(None)` for every input.  With one, the engine parses and
    /// verifies the message and `apply_processed` acts on its content:
    /// an application message is decrypted and its UTF-8 text returned, a
    /// commit is merged into the group state (advancing the epoch), and a
    /// proposal is acknowledged without action.  Every refusal -- among
    /// them a commit replayed against an epoch that has already advanced
    /// past it -- is returned as one of the three recoverable errors
    /// below, with the session still in a usable state.
    pub fn parse_message(&mut self, message: MlsMessageOut) -> (r: Result<
        Option<String>,
        SessionError,
    >)
        requires
            old(self).inv(),
        ensures
            final(self).inv(),
            !old(self).spec_has_group() ==> (r matches Ok(m) && m is None) && *final(self)
                == *old(self),
            r matches Ok(m) && m is Some ==> old(self).spec_has_group(),
            r matches Err(e) ==> old(self).spec_has_group() && (e == SessionError::MessageRejected
                || e == SessionError::InvalidUtf8 || e == SessionError::CommitMergeFailed),
            final(self).spec_has_group() == old(self).spec_has_group(),
            final(self).spec_is_leader() == old(self).spec_is_leader(),
            final(self).spec_peer_id() == old(self).spec_peer_id(),
            final(self).spec_issued() == old(self).spec_issued(),
    {
        if self.mls_group.is_none() {
            return Ok(None);
        }
        match &mut self.mls_group {
            Some(group) => {
                let unverified = match group_parse_message(group, &self.backend, message) {
                    Ok(u) => u,
                    Err(e) => {
                        return Err(e);
                    },
                };
                let processed = match group_process_unverified(group, &self.backend, unverified) {
                    Ok(p) => p,
                    Err(e) => {
                        return Err(e);
                    },
                };
                Node::apply_processed(group, &self.backend, processed)
            },
            None => Ok(None),
        }
    }

    /// Issue a fresh one-time join credential for one join attempt,
    /// advancing the issuance counter.  Each call mints and stores new
    /// key material; no credential object is ever reused across attempts.
    pub fn reissue_join_credential(&mut self) -> (r: Result<KeyPackage, SessionError>)
        requires
            old(self).inv(),
        ensures
            final(self).inv(),
            r is Ok ==> final(self).spec_issued() == (if old(self).spec_issued()
                < u64::MAX as nat {
                old(self).spec_issued() + 1
            } else {
                old(self).spec_issued()
            }),
            r is Err ==> *final(self) == *old(self),
            r matches Err(e) ==> e == SessionError::Backend,
            final(self).spec_has_group() == old(self).spec_has_group(),
            final(self).spec_is_leader() == old(self).spec_is_leader(),
            final(self).spec_peer_id() == old(self).spec_peer_id(),
    {
        let kp = match new_key_package(&self.identity.credential, &self.backend) {
            Ok(kp) => kp,
            Err(e) => {
                return Err(e);
            },
        };
        if self.issued < u64::MAX {
            self.issued = self.issued + 1;
        }
        Ok(kp)
    }

    /// Whether this participant created the currently active group.
    pub fn is_group_leader(&self) -> (r: bool)
        ensures
            r == self.spec_is_leader(),
    {
        self.is_group_leader
    }

    /// Whether the session currently holds an active group.
    pub fn has_group(&self) -> (r: bool)
        ensures
            r == self.spec_has_group(),
    {
        self.mls_group.is_some()
    }

    /// The initial publishable join credential of this identity.
    pub fn get_key_package(&self) -> (r: KeyPackage)
        ensures
            r == self.spec_key_package(),
    {
        self.identity.mls_keypack.clone()
    }

    /// The public peer identifier of this identity.
    pub fn get_peer_id(&self) -> (r: Vec<u8>)
        ensures
            r@ == self.spec_peer_id(),
    {
        clone_bytes(&self.identity.peer_id)
    }
}

} // verus!
