//! Trusted boundary to the `openmls` group-key-agreement engine.
//!
//! The cryptographic ratchet, the wire encoding of the protocol's own
//! messages and the key store are external, audited capabilities; this
//! module declares their types opaquely and wraps each call the library
//! makes in a small `external_body` function.  Nothing cryptographic is
//! reimplemented here, and nothing stronger is claimed of a call than the
//! engine itself guarantees: a failed call is always surfaced as a
//! recoverable [`SessionError`], never a panic.

use vstd::prelude::*;

use openmls::prelude::Ciphersuite;
use openmls::prelude::Credential;
use openmls::prelude::CredentialBundle;
use openmls::prelude::CredentialType;
use openmls::prelude::GroupId;
use openmls::prelude::KeyPackage;
use openmls::prelude::KeyPackageBundle;
use openmls::prelude::MlsGroup;
use openmls::prelude::MlsGroupConfig;
use openmls::prelude::ProcessedMessage;
use openmls::prelude::SenderRatchetConfiguration;
use openmls::prelude::SignatureScheme;
use openmls::prelude::StagedCommit;
use openmls::prelude::TlsDeserializeTrait;
use openmls::prelude::TlsSerializeTrait;
use openmls::prelude::UnverifiedMessage;
use openmls::prelude::Welcome;
use openmls::prelude::MlsMessageOut;
use openmls::prelude::OpenMlsCryptoProvider;
use openmls::prelude::OpenMlsKeyStore;
use openmls::prelude::PURE_CIPHERTEXT_WIRE_FORMAT_POLICY;
use openmls_rust_crypto::OpenMlsRustCrypto;

verus! {

/// The recoverable failures of the secure-group session layer.
///
/// Every operation that leans on the cryptographic engine reports its
/// refusal through one of these variants instead of panicking.
#[derive(Clone, Copy, Debug, PartialEq, Eq, Structural)]
pub enum SessionError {
    /// The backend could not create or store identity key material.
    Backend,
    /// An operation that needs an active group was called without one.
    NoActiveGroup,
    /// The engine rejected the key package of a member to be admitted.
    InvalidKeyPackage,
    /// A welcome message could not be validated or decrypted.
    InvalidWelcome,
    /// An inbound control message failed parsing or verification
    /// against the current group epoch (a stale or replayed commit
    /// ends up here as well).
    MessageRejected,
    /// A staged commit was rejected while being merged into the group.
    CommitMergeFailed,
    /// Application bytes of a decrypted message were not valid UTF-8.
    InvalidUtf8,
    /// A protocol artifact could not be serialized to wire bytes.
    EncodingFailed,
    /// Wire bytes could not be decoded into the expected artifact.
    DecodingFailed,
}

/// What a verified and decrypted control message turned out to carry.
pub(crate) enum ProcessedContent {
    /// Application payload bytes, ready for display after UTF-8 decoding.
    Application(Vec<u8>),
    /// A membership commit, staged by the engine and still to be merged.
    Commit(StagedCommit),
    /// A standalone proposal; acknowledged but not acted upon.
    Proposal,
}

/// Whether the engine's decoder accepts these bytes as a key package
/// whose HPKE init key has exactly the KEM public-key length of the one
/// ciphersuite this library uses.  TLS decoding is a function of the
/// bytes alone.
pub uninterp spec fn key_package_decodable(bytes: Seq<u8>) -> bool;

/// Whether the engine's decoder accepts these bytes as a control
/// message.  TLS decoding is a function of the bytes alone.
pub uninterp spec fn control_message_decodable(bytes: Seq<u8>) -> bool;

/// Whether the engine's decoder accepts these bytes as a welcome
/// message.  TLS decoding is a function of the bytes alone.
pub uninterp spec fn welcome_decodable(bytes: Seq<u8>) -> bool;

#[verifier::external_type_specification]
#[verifier::external_body]
pub struct ExOpenMlsRustCrypto(OpenMlsRustCrypto);

#[verifier::external_type_specification]
#[verifier::external_body]
pub struct ExCredential(Credential);

#[verifier::external_type_specification]
#[verifier::external_body]
pub struct ExKeyPackage(KeyPackage);

#[verifier::external_type_specification]
#[verifier::external_body]
pub struct ExMlsGroup(MlsGroup);

#[verifier::external_type_specification]
#[verifier::external_body]
pub struct ExMlsGroupConfig(MlsGroupConfig);

#[verifier::external_type_specification]
#[verifier::external_body]
pub struct ExMlsMessageOut(MlsMessageOut);

#[verifier::external_type_specification]
#[verifier::external_body]
pub struct ExWelcome(Welcome);

#[verifier::external_type_specification]
#[verifier::external_body]
pub struct ExUnverifiedMessage(UnverifiedMessage);

#[verifier::external_type_specification]
#[verifier::external_body]
pub struct ExStagedCommit(StagedCommit);

/// Relies on the derived `KeyPackage::clone`, a plain field-for-field copy.
pub assume_specification [ <KeyPackage as Clone>::clone ](kp: &KeyPackage) -> (r: KeyPackage)
    ensures
        r == *kp,
;

/// Relies on `OpenMlsRustCrypto::default`: a fresh crypto backend with an
/// empty in-memory key store.
#[verifier::external_body]
pub(crate) fn new_backend() -> OpenMlsRustCrypto {
    OpenMlsRustCrypto::default()
}

/// Relies on `MlsGroupConfig::builder`: assembles the one group
/// configuration every conversation uses (ciphertext-only wire format,
/// padding, ratchet-tree extension, out-of-order tolerance).
#[verifier::external_body]
pub(crate) fn default_group_config() -> MlsGroupConfig {
    MlsGroupConfig::builder()
        .wire_format_policy(PURE_CIPHERTEXT_WIRE_FORMAT_POLICY)
        .padding_size(16)
        .use_ratchet_tree_extension(true)
        .sender_ratchet_configuration(SenderRatchetConfiguration::new(20, 1000))
        .build()
}

/// Relies on `CredentialBundle::new` (fresh basic Ed25519 credential for the
/// given identity bytes) and `key_store().store` (records the bundle under
/// its serialized signature key, where group operations later look it up).
#[verifier::external_body]
pub fn new_mls_credential_from_identity(
    identity: Vec<u8>,
    backend: &OpenMlsRustCrypto,
) -> (r: Result<Credential, SessionError>)
    ensures
        r matches Err(e) ==> e == SessionError::Backend,
{
    let bundle = CredentialBundle::new(
        identity,
        CredentialType::Basic,
        SignatureScheme::ED25519,
        backend,
    )
    .map_err(|_| SessionError::Backend)?;
    let id = bundle
        .credential()
        .signature_key()
        .tls_serialize_detached()
        .map_err(|_| SessionError::Backend)?;
    backend.key_store().store(&id, &bundle).map_err(|_| SessionError::Backend)?;
    Ok(bundle.into_parts().0)
}

/// Relies on `KeyPackageBundle::new` (a fresh one-time key package for the
/// stored credential), `hash_ref` and `key_store().store` (records the
/// bundle under its hash so that group creation and welcome processing can
/// consume it once).
#[verifier::external_body]
pub fn new_key_package(
    credential: &Credential,
    backend: &OpenMlsRustCrypto,
) -> (r: Result<KeyPackage, SessionError>)
    ensures
        r matches Err(e) ==> e == SessionError::Backend,
{
    let id = credential
        .signature_key()
        .tls_serialize_detached()
        .map_err(|_| SessionError::Backend)?;
    let bundle: CredentialBundle =
        backend.key_store().read(&id).ok_or(SessionError::Backend)?;
    let suites = [Ciphersuite::MLS_128_DHKEMX25519_AES128GCM_SHA256_Ed25519];
    let kpb = KeyPackageBundle::new(&suites, &bundle, backend, vec![]).map_err(
        |_| SessionError::Backend,
    )?;
    let hash = kpb.key_package().hash_ref(backend.crypto()).map_err(|_| SessionError::Backend)?;
    backend.key_store().store(hash.value(), &kpb).map_err(|_| SessionError::Backend)?;
    Ok(kpb.into_parts().0)
}

/// Relies on `KeyPackage::hash_ref` and `MlsGroup::new`: creates a fresh
/// one-member group keyed by the stored bundle of the given key package.
#[verifier::external_body]
pub fn new_mls_group(
    backend: &OpenMlsRustCrypto,
    config: &MlsGroupConfig,
    key_package: &KeyPackage,
) -> (r: Result<MlsGroup, SessionError>)
    ensures
        r matches Err(e) ==> e == SessionError::Backend,
{
    let hash = key_package.hash_ref(backend.crypto()).map_err(|_| SessionError::Backend)?;
    MlsGroup::new(backend, config, GroupId::from_slice(b"mls_chat_group"), hash.as_slice())
        .map_err(|_| SessionError::Backend)
}

/// Relies on `MlsGroup::new_from_welcome`: reconstructs the group state a
/// welcome message admits this participant into; fails if the welcome
/// cannot be validated or decrypted.
#[verifier::external_body]
pub fn new_mls_group_from_welcome(
    backend: &OpenMlsRustCrypto,
    config: &MlsGroupConfig,
    welcome: Welcome,
) -> (r: Result<MlsGroup, SessionError>)
    ensures
        r matches Err(e) ==> e == SessionError::InvalidWelcome,
{
    MlsGroup::new_from_welcome(backend, config, welcome, None)
        .map_err(|_| SessionError::InvalidWelcome)
}

/// Relies on `MlsGroup::add_members`: admits the bearer of the key package
/// and returns the commit for current members and the welcome for the new
/// one; the commit is still pending until merged.  The engine never
/// checks the length of the key package's HPKE init key, and sealing the
/// welcome secrets to a key of the wrong length would abort inside the
/// crypto provider; a key package whose init key is not exactly the KEM
/// public-key length of this library's ciphersuite (32 bytes, X25519) is
/// therefore refused here, before the engine is called.  The init key's
/// length prefix sits at bytes 3..5 of the key package's wire form.
/// Keys that enter the ratchet tree through remote commits are the
/// engine's own state and beyond this admission guard.
#[verifier::external_body]
pub(crate) fn group_add_members(
    group: &mut MlsGroup,
    backend: &OpenMlsRustCrypto,
    key_package: &KeyPackage,
) -> (r: Result<(MlsMessageOut, Welcome), SessionError>)
    ensures
        r matches Err(e) ==> e == SessionError::InvalidKeyPackage,
{
    let wire = key_package.tls_serialize_detached().map_err(|_| SessionError::InvalidKeyPackage)?;
    if wire.len() < 5 || wire[3] != 0 || wire[4] != 32 {
        return Err(SessionError::InvalidKeyPackage);
    }
    group
        .add_members(backend, core::slice::from_ref(key_package))
        .map_err(|_| SessionError::InvalidKeyPackage)
}

/// Relies on `MlsGroup::merge_pending_commit`: applies the admitting side's
/// own pending commit, advancing its epoch before any network round trip.
#[verifier::external_body]
pub(crate) fn group_merge_pending(group: &mut MlsGroup) -> (r: Result<(), SessionError>)
    ensures
        r matches Err(e) ==> e == SessionError::CommitMergeFailed,
{
    group.merge_pending_commit().map_err(|_| SessionError::CommitMergeFailed)
}

/// Relies on `MlsGroup::create_message`: encrypts application bytes into an
/// outbound control message under the current epoch.
#[verifier::external_body]
pub(crate) fn group_create_message(
    group: &mut MlsGroup,
    backend: &OpenMlsRustCrypto,
    message: &[u8],
) -> (r: Result<MlsMessageOut, SessionError>)
    ensures
        r matches Err(e) ==> e == SessionError::MessageRejected,
{
    group.create_message(backend, message).map_err(|_| SessionError::MessageRejected)
}

/// Relies on `MlsGroup::parse_message`: syntactic checks and decryption of
/// an inbound control message against the current epoch; a message from a
/// stale epoch (a replayed commit among them) is rejected here.
#[verifier::external_body]
pub(crate) fn group_parse_message(
    group: &mut MlsGroup,
    backend: &OpenMlsRustCrypto,
    message: MlsMessageOut,
) -> (r: Result<UnverifiedMessage, SessionError>)
    ensures
        r matches Err(e) ==> e == SessionError::MessageRejected,
{
    group.parse_message(message.into(), backend).map_err(|_| SessionError::MessageRejected)
}

/// Relies on `MlsGroup::process_unverified_message`: semantic verification
/// of a parsed message.  The three variants of the engine's result are
/// carried over one to one, moving their payloads.
#[verifier::external_body]
pub(crate) fn group_process_unverified(
    group: &mut MlsGroup,
    backend: &OpenMlsRustCrypto,
    message: UnverifiedMessage,
) -> (r: Result<ProcessedContent, SessionError>)
    ensures
        r matches Err(e) ==> e == SessionError::MessageRejected,
{
    match group.process_unverified_message(message, None, backend) {
        Ok(ProcessedMessage::ApplicationMessage(m)) => {
            Ok(ProcessedContent::Application(m.into_bytes()))
        },
        Ok(ProcessedMessage::StagedCommitMessage(c)) => Ok(ProcessedContent::Commit(*c)),
        Ok(ProcessedMessage::ProposalMessage(_)) => Ok(ProcessedContent::Proposal),
        Err(_) => Err(SessionError::MessageRejected),
    }
}

/// Relies on `MlsGroup::merge_staged_commit`: merges a verified commit into
/// the group state, advancing the epoch.
#[verifier::external_body]
pub(crate) fn group_merge_staged_commit(
    group: &mut MlsGroup,
    commit: StagedCommit,
) -> (r: Result<(), SessionError>)
    ensures
        r matches Err(e) ==> e == SessionError::CommitMergeFailed,
{
    group.merge_staged_commit(commit).map_err(|_| SessionError::CommitMergeFailed)
}

/// Relies on `tls_codec::Serialize::tls_serialize_detached` for
/// `KeyPackage`: the standalone wire encoding of a key package.
#[verifier::external_body]
pub(crate) fn serialize_key_package(kp: &KeyPackage) -> (r: Result<Vec<u8>, SessionError>)
    ensures
        r matches Err(e) ==> e == SessionError::EncodingFailed,
{
    kp.tls_serialize_detached().map_err(|_| SessionError::EncodingFailed)
}

/// Relies on `KeyPackage::try_from` for `&[u8]`: the inverse decoding;
/// fails on bytes that do not hold a key package.  The engine's decoder
/// performs no validation, so a key package whose HPKE init key is not
/// exactly the KEM public-key length of this library's ciphersuite (32
/// bytes, X25519; the length prefix sits at bytes 3..5 of the wire form)
/// is refused here as undecodable: admitting it would abort inside the
/// crypto provider when the welcome secrets are sealed to it.
#[verifier::external_body]
pub(crate) fn deserialize_key_package(bytes: &[u8]) -> (r: Result<KeyPackage, SessionError>)
    ensures
        r is Ok <==> key_package_decodable(bytes@),
        r matches Err(e) ==> e == SessionError::DecodingFailed,
{
    if bytes.len() < 5 || bytes[3] != 0 || bytes[4] != 32 {
        return Err(SessionError::DecodingFailed);
    }
    KeyPackage::try_from(bytes).map_err(|_| SessionError::DecodingFailed)
}

/// Relies on `tls_codec::Serialize::tls_serialize_detached` for
/// `MlsMessageOut`: the wire encoding of an outbound control message.
#[verifier::external_body]
pub(crate) fn serialize_mls_message(message: &MlsMessageOut) -> (r: Result<Vec<u8>, SessionError>)
    ensures
        r matches Err(e) ==> e == SessionError::EncodingFailed,
{
    message.tls_serialize_detached().map_err(|_| SessionError::EncodingFailed)
}

/// Relies on `MlsMessageOut::try_from_bytes`: the inverse decoding; fails
/// on bytes that do not hold a control message.
#[verifier::external_body]
pub(crate) fn deserialize_mls_message(bytes: &[u8]) -> (r: Result<MlsMessageOut, SessionError>)
    ensures
        r is Ok <==> control_message_decodable(bytes@),
        r matches Err(e) ==> e == SessionError::DecodingFailed,
{
    MlsMessageOut::try_from_bytes(bytes).map_err(|_| SessionError::DecodingFailed)
}

/// Relies on `tls_codec::Serialize::tls_serialize_detached` for `Welcome`:
/// the wire encoding of a welcome message.
#[verifier::external_body]
pub(crate) fn serialize_welcome(welcome: &Welcome) -> (r: Result<Vec<u8>, SessionError>)
    ensures
        r matches Err(e) ==> e == SessionError::EncodingFailed,
{
    welcome.tls_serialize_detached().map_err(|_| SessionError::EncodingFailed)
}

/// Relies on `tls_codec::Deserialize::tls_deserialize` for `Welcome`: the
/// inverse decoding; fails on bytes that do not hold a welcome message.
#[verifier::external_body]
pub(crate) fn deserialize_welcome(bytes: &[u8]) -> (r: Result<Welcome, SessionError>)
    ensures
        r is Ok <==> welcome_decodable(bytes@),
        r matches Err(e) ==> e == SessionError::DecodingFailed,
{
    Welcome::tls_deserialize(&mut &*bytes).map_err(|_| SessionError::DecodingFailed)
}

/// Relies on `String::from_utf8`, whose documentation promises the decoded
/// string on UTF-8 input and an error on anything else.
#[verifier::external_body]
pub(crate) fn utf8_to_string(bytes: Vec<u8>) -> (r: Result<String, SessionError>)
    ensures
        vstd::utf8::valid_utf8(bytes@) <==> r is Ok,
        r matches Ok(s) ==> s@ == vstd::utf8::decode_utf8(bytes@),
        r matches Err(e) ==> e == SessionError::InvalidUtf8,
{
    String::from_utf8(bytes).map_err(|_| SessionError::InvalidUtf8)
}

} // verus!
