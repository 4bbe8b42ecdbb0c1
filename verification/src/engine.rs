//! The boundary to the protocol engine.
//!
//! Everything cryptographic is the engine's work: keys, key packages,
//! commits, welcomes, message protection. This module declares the engine's
//! types, which stay opaque, and holds one small function for each engine call
//! that the session driver makes. None of these functions is verified: each
//! says in its comment which call it makes and what, if anything, is believed
//! of the result. A failure of the engine comes back as the debug rendering
//! of the engine's own error.
use vstd::prelude::*;
use openmls::prelude::tls_codec::{Deserialize, Serialize};
use openmls::prelude::{
    Ciphersuite, Credential, CredentialType, CredentialWithKey, KeyPackage, KeyPackageIn,
    MlsGroup, MlsGroupCreateConfig, MlsGroupJoinConfig, MlsMessageBodyIn, MlsMessageIn,
    MlsMessageOut, OpenMlsProvider, ProcessedMessageContent, ProtocolMessage, ProtocolVersion,
    StagedCommit, StagedWelcome, Welcome,
};
use openmls_basic_credential::SignatureKeyPair;
use openmls_rust_crypto::OpenMlsRustCrypto;
use crate::persist::CredentialSummary;

verus! {

/// A ciphersuite of the protocol.
#[verifier::external_type_specification]
#[verifier::external_body]
pub struct ExCiphersuite(Ciphersuite);

/// The engine's provider of cryptography, randomness and key storage.
#[verifier::external_type_specification]
#[verifier::external_body]
pub struct ExProvider(OpenMlsRustCrypto);

/// A signing key pair.
#[verifier::external_type_specification]
#[verifier::external_body]
pub struct ExSignatureKeyPair(SignatureKeyPair);

/// A credential together with the public key it is bound to.
#[verifier::external_type_specification]
#[verifier::external_body]
pub struct ExCredentialWithKey(CredentialWithKey);

/// The engine's live state of one group.
#[verifier::external_type_specification]
#[verifier::external_body]
pub struct ExMlsGroup(MlsGroup);

/// A key package as it arrived, not yet validated.
#[verifier::external_type_specification]
#[verifier::external_body]
pub struct ExKeyPackageIn(KeyPackageIn);

/// A validated key package.
#[verifier::external_type_specification]
#[verifier::external_body]
pub struct ExKeyPackage(KeyPackage);

/// A protocol message as it arrived.
#[verifier::external_type_specification]
#[verifier::external_body]
pub struct ExMlsMessageIn(MlsMessageIn);

/// A protocol message to send.
#[verifier::external_type_specification]
#[verifier::external_body]
pub struct ExMlsMessageOut(MlsMessageOut);

/// An arrived message that belongs to a group: a handshake or an application message.
#[verifier::external_type_specification]
#[verifier::external_body]
pub struct ExProtocolMessage(ProtocolMessage);

/// A commit that was checked against a group and waits to be merged.
#[verifier::external_type_specification]
#[verifier::external_body]
pub struct ExStagedCommit(StagedCommit);

/// An invitation to a group.
#[verifier::external_type_specification]
#[verifier::external_body]
pub struct ExWelcome(Welcome);

/// A welcome that was opened and waits to become a group.
#[verifier::external_type_specification]
#[verifier::external_body]
pub struct ExStagedWelcome(StagedWelcome);

/// What the engine found a processed message to hold.
pub enum Processed {
    /// An application message, with its payload.
    Application(Vec<u8>),
    /// A proposal of a member.
    Proposal,
    /// A proposal of an outsider to join.
    ExternalJoinProposal,
    /// A commit, staged for merging.
    StagedCommit(StagedCommit),
    /// The commit that this member itself has pending.
    OwnPendingCommit,
    /// A protected message that this member itself sent.
    OwnPrivateMessage,
}

/// The words with which the engine refuses to take bytes apart as a
/// message: the debug rendering of the error of `MlsMessageIn::tls_deserialize`;
/// `None` for bytes that it takes apart. The bytes alone decide it; which
/// bytes are refused, and with which words, is not stated here.
pub uninterp spec fn message_fault(bytes: Seq<u8>) -> Option<Seq<char>>;

/// The format field of an encoded message: the two bytes that follow the two
/// bytes of the version, the high byte first; 0 where the bytes are too few.
pub open spec fn wire_format(bytes: Seq<u8>) -> int {
    if bytes.len() >= 4 {
        bytes[2] as int * 256 + bytes[3] as int
    } else {
        0
    }
}

/// Of bytes that the engine takes apart as a message: whether the message is
/// a welcome. The format field says so.
pub open spec fn holds_welcome(bytes: Seq<u8>) -> bool {
    wire_format(bytes) == 3
}

/// Of bytes that the engine takes apart as a message: whether the message
/// belongs to a group, as a public or a private message does. The format
/// field says so.
pub open spec fn holds_group_message(bytes: Seq<u8>) -> bool {
    wire_format(bytes) == 1 || wire_format(bytes) == 2
}

/// The words with which the engine refuses to take bytes apart as a key
/// package: the debug rendering of the error of `KeyPackageIn::tls_deserialize`;
/// `None` for bytes that it takes apart. The bytes alone decide it.
pub uninterp spec fn key_package_fault(bytes: Seq<u8>) -> Option<Seq<char>>;

/// Calls `OpenMlsRustCrypto::default`.
#[verifier::external_body]
pub(crate) fn new_provider() -> OpenMlsRustCrypto {
    OpenMlsRustCrypto::default()
}

/// Calls `Ciphersuite::try_from` on the number that the protocol gives a
/// ciphersuite. Fails on a number that the engine does not know. Believed of
/// it: it knows the numbers 1 to 7.
#[verifier::external_body]
pub(crate) fn ciphersuite(code: u16) -> (r: Result<Ciphersuite, String>)
    ensures
        1 <= code <= 7 ==> r is Ok,
{
    match Ciphersuite::try_from(code) {
        Ok(suite) => Ok(suite),
        Err(e) => Err(format!("{:?}", e)),
    }
}

/// Calls `SignatureKeyPair::new` for the signature scheme of the
/// ciphersuite, `Ciphersuite::signature_algorithm`. The key pair is random.
#[verifier::external_body]
pub(crate) fn generate_signer(suite: Ciphersuite) -> Result<SignatureKeyPair, String> {
    match SignatureKeyPair::new(suite.signature_algorithm()) {
        Ok(signer) => Ok(signer),
        Err(e) => Err(format!("{:?}", e)),
    }
}

/// Calls `Credential::new` for a basic credential with the given identity and
/// joins it with the public key of the signer, `SignatureKeyPair::to_public_vec`.
#[verifier::external_body]
pub(crate) fn basic_credential(identity: Vec<u8>, signer: &SignatureKeyPair) -> CredentialWithKey {
    CredentialWithKey {
        credential: Credential::new(CredentialType::Basic, identity),
        signature_key: signer.to_public_vec().into(),
    }
}

/// Calls `KeyPackageBuilder::build` for the ciphersuite. The engine keeps
/// the private half in the provider's storage; the public key package comes
/// back.
#[verifier::external_body]
pub(crate) fn build_key_package(
    suite: Ciphersuite,
    provider: &OpenMlsRustCrypto,
    signer: &SignatureKeyPair,
    credential: &CredentialWithKey,
) -> Result<KeyPackage, String> {
    match KeyPackage::builder().build(suite, provider, signer, credential.clone()) {
        Ok(bundle) => Ok(bundle.key_package().clone()),
        Err(e) => Err(format!("{:?}", e)),
    }
}

/// Calls `tls_serialize_detached` on a key package. Believed of it: an
/// encoding is never empty, since it closes with the signature and the field
/// of its length.
#[verifier::external_body]
pub(crate) fn key_package_to_wire(key_package: &KeyPackage) -> (r: Result<Vec<u8>, String>)
    ensures
        r matches Ok(bytes) ==> bytes@.len() > 0,
{
    match key_package.tls_serialize_detached() {
        Ok(bytes) => Ok(bytes),
        Err(e) => Err(format!("{:?}", e)),
    }
}

/// Calls `KeyPackageIn::tls_deserialize` on the bytes. Believed of it: the
/// bytes alone decide whether it succeeds and with which words it fails.
#[verifier::external_body]
pub(crate) fn key_package_from_wire(bytes: &[u8]) -> (r: Result<KeyPackageIn, String>)
    ensures
        r is Ok <==> key_package_fault(bytes@) is None,
        r matches Err(fault) ==> key_package_fault(bytes@) == Some(fault@),
{
    let mut rest: &[u8] = bytes;
    match KeyPackageIn::tls_deserialize(&mut rest) {
        Ok(key_package) => Ok(key_package),
        Err(e) => Err(format!("{:?}", e)),
    }
}

/// Calls `KeyPackageIn::validate` for the engine's default protocol version.
/// The outcome depends on the time of the call: a key package has a lifetime.
#[verifier::external_body]
pub(crate) fn validate_key_package(
    key_package: KeyPackageIn,
    provider: &OpenMlsRustCrypto,
) -> Result<KeyPackage, String> {
    match key_package.validate(provider.crypto(), ProtocolVersion::default()) {
        Ok(valid) => Ok(valid),
        Err(e) => Err(format!("{:?}", e)),
    }
}

/// Calls `MlsGroup::new` with a configuration built by
/// `MlsGroupCreateConfig::builder`, in which `embed_tree` says whether every
/// welcome of the group carries the member tree.
#[verifier::external_body]
pub(crate) fn create_group(
    provider: &OpenMlsRustCrypto,
    signer: &SignatureKeyPair,
    credential: &CredentialWithKey,
    embed_tree: bool,
) -> Result<MlsGroup, String> {
    let config = MlsGroupCreateConfig::builder().use_ratchet_tree_extension(embed_tree).build();
    match MlsGroup::new(provider, signer, &config, credential.clone()) {
        Ok(group) => Ok(group),
        Err(e) => Err(format!("{:?}", e)),
    }
}

/// Calls `MlsGroup::group_id` and copies the identifier's bytes.
#[verifier::external_body]
pub(crate) fn group_id_bytes(group: &MlsGroup) -> Vec<u8> {
    group.group_id().to_vec()
}

/// Calls `MlsGroup::epoch`.
#[verifier::external_body]
pub(crate) fn group_epoch(group: &MlsGroup) -> u64 {
    group.epoch().as_u64()
}

/// Calls `MlsGroup::members` and counts them.
#[verifier::external_body]
pub(crate) fn member_count(group: &MlsGroup) -> usize {
    group.members().count()
}

/// Calls `MlsGroup::add_members` with one key package. On success the group
/// holds a pending commit, and the commit and the welcome come back.
#[verifier::external_body]
pub(crate) fn add_member(
    group: &mut MlsGroup,
    provider: &OpenMlsRustCrypto,
    signer: &SignatureKeyPair,
    key_package: KeyPackage,
) -> Result<(MlsMessageOut, MlsMessageOut), String> {
    match group.add_members(provider, signer, &[key_package]) {
        Ok((commit, welcome, _)) => Ok((commit, welcome)),
        Err(e) => Err(format!("{:?}", e)),
    }
}

/// Calls `MlsGroup::merge_pending_commit`.
#[verifier::external_body]
pub(crate) fn merge_pending_commit(group: &mut MlsGroup, provider: &OpenMlsRustCrypto) -> Result<
    (),
    String,
> {
    match group.merge_pending_commit(provider) {
        Ok(()) => Ok(()),
        Err(e) => Err(format!("{:?}", e)),
    }
}

/// Calls `MlsGroup::clear_pending_commit`.
#[verifier::external_body]
pub(crate) fn clear_pending_commit(group: &mut MlsGroup, provider: &OpenMlsRustCrypto) -> Result<
    (),
    String,
> {
    match group.clear_pending_commit(provider.storage()) {
        Ok(()) => Ok(()),
        Err(e) => Err(format!("{:?}", e)),
    }
}

/// Calls `tls_serialize_detached` on a message to send. Believed of it: an
/// encoding is never empty, since it opens with the two bytes of the version.
#[verifier::external_body]
pub(crate) fn message_to_wire(message: &MlsMessageOut) -> (r: Result<Vec<u8>, String>)
    ensures
        r matches Ok(bytes) ==> bytes@.len() > 0,
{
    match message.tls_serialize_detached() {
        Ok(bytes) => Ok(bytes),
        Err(e) => Err(format!("{:?}", e)),
    }
}

/// Calls `MlsMessageIn::tls_deserialize` on the bytes and then
/// `MlsMessageIn::extract`, and keeps the body if it is a welcome. Believed of
/// them: the bytes alone decide whether the first succeeds and with which
/// words it fails, and the body of a message that was taken apart is a
/// welcome exactly when the format field is 3.
#[verifier::external_body]
pub(crate) fn welcome_from_wire(bytes: &[u8]) -> (r: Result<Option<Welcome>, String>)
    ensures
        r is Ok <==> message_fault(bytes@) is None,
        r matches Err(fault) ==> message_fault(bytes@) == Some(fault@),
        r matches Ok(found) ==> (found is Some <==> holds_welcome(bytes@)),
{
    let mut rest: &[u8] = bytes;
    match MlsMessageIn::tls_deserialize(&mut rest) {
        Err(e) => Err(format!("{:?}", e)),
        Ok(message) => match message.extract() {
            MlsMessageBodyIn::Welcome(welcome) => Ok(Some(welcome)),
            _ => Ok(None),
        },
    }
}

/// Calls `MlsMessageIn::tls_deserialize` on the bytes and then
/// `MlsMessageIn::try_into_protocol_message`. The outer result is that of the
/// first call, the inner that of the second. Believed of them: the bytes
/// alone decide whether the first succeeds and with which words it fails; the
/// second succeeds exactly when the format field is 1 or 2, and its one
/// refusal renders as `WrongWireFormat`.
#[verifier::external_body]
pub(crate) fn protocol_message_from_wire(bytes: &[u8]) -> (r: Result<
    Result<ProtocolMessage, String>,
    String,
>)
    ensures
        r is Ok <==> message_fault(bytes@) is None,
        r matches Err(fault) ==> message_fault(bytes@) == Some(fault@),
        r matches Ok(inner) ==> (inner is Ok <==> holds_group_message(bytes@)),
        r matches Ok(Err(fault)) ==> fault@ == "WrongWireFormat"@,
{
    let mut rest: &[u8] = bytes;
    match MlsMessageIn::tls_deserialize(&mut rest) {
        Err(e) => Err(format!("{:?}", e)),
        Ok(message) => match message.try_into_protocol_message() {
            Ok(message) => Ok(Ok(message)),
            Err(e) => Ok(Err(format!("{:?}", e))),
        },
    }
}

/// Calls `MlsGroup::process_message`, then `ProcessedMessage::into_content`,
/// and tells the kinds of content apart.
#[verifier::external_body]
pub(crate) fn process_message(
    group: &mut MlsGroup,
    provider: &OpenMlsRustCrypto,
    message: ProtocolMessage,
) -> Result<Processed, String> {
    let content = match group.process_message(provider, message) {
        Ok(processed) => processed.into_content(),
        Err(e) => return Err(format!("{:?}", e)),
    };
    Ok(match content {
        ProcessedMessageContent::ApplicationMessage(m) => Processed::Application(m.into_bytes()),
        ProcessedMessageContent::ProposalMessage(_) => Processed::Proposal,
        ProcessedMessageContent::ExternalJoinProposalMessage(_) => Processed::ExternalJoinProposal,
        ProcessedMessageContent::StagedCommitMessage(c) => Processed::StagedCommit(*c),
        ProcessedMessageContent::OwnPendingCommit => Processed::OwnPendingCommit,
        ProcessedMessageContent::OwnPrivateMessage => Processed::OwnPrivateMessage,
    })
}

/// Calls `MlsGroup::merge_staged_commit`.
#[verifier::external_body]
pub(crate) fn merge_staged_commit(
    group: &mut MlsGroup,
    provider: &OpenMlsRustCrypto,
    commit: StagedCommit,
) -> Result<(), String> {
    match group.merge_staged_commit(provider, commit) {
        Ok(()) => Ok(()),
        Err(e) => Err(format!("{:?}", e)),
    }
}

/// Calls `StagedWelcome::new_from_welcome` with the default join
/// configuration and without a member tree from outside.
#[verifier::external_body]
pub(crate) fn stage_welcome(provider: &OpenMlsRustCrypto, welcome: Welcome) -> Result<
    StagedWelcome,
    String,
> {
    let config = MlsGroupJoinConfig::builder().build();
    match StagedWelcome::new_from_welcome(provider, &config, welcome, None) {
        Ok(staged) => Ok(staged),
        Err(e) => Err(format!("{:?}", e)),
    }
}

/// Calls `StagedWelcome::into_group`.
#[verifier::external_body]
pub(crate) fn join_group(staged: StagedWelcome, provider: &OpenMlsRustCrypto) -> Result<
    MlsGroup,
    String,
> {
    match staged.into_group(provider) {
        Ok(group) => Ok(group),
        Err(e) => Err(format!("{:?}", e)),
    }
}

/// Calls `MlsGroup::create_message` on the payload.
#[verifier::external_body]
pub(crate) fn create_message(
    group: &mut MlsGroup,
    provider: &OpenMlsRustCrypto,
    signer: &SignatureKeyPair,
    payload: &[u8],
) -> Result<MlsMessageOut, String> {
    match group.create_message(provider, signer, payload) {
        Ok(message) => Ok(message),
        Err(e) => Err(format!("{:?}", e)),
    }
}

/// Calls `MlsGroup::export_group_info`; `with_tree` says whether the member
/// tree is part of it.
#[verifier::external_body]
pub(crate) fn export_group_info(
    group: &MlsGroup,
    provider: &OpenMlsRustCrypto,
    signer: &SignatureKeyPair,
    with_tree: bool,
) -> Result<MlsMessageOut, String> {
    match group.export_group_info(provider.crypto(), signer, with_tree) {
        Ok(info) => Ok(info),
        Err(e) => Err(format!("{:?}", e)),
    }
}

/// Calls `MlsGroup::own_leaf` and copies out of the leaf the kind of
/// credential, in its debug rendering, the identity and the signature key.
/// `None` when the group has no leaf of its own.
#[verifier::external_body]
pub(crate) fn own_credential(group: &MlsGroup) -> Option<CredentialSummary> {
    match group.own_leaf() {
        None => None,
        Some(leaf) => Some(
            CredentialSummary {
                credential_type: format!("{:?}", leaf.credential().credential_type()),
                identity: leaf.credential().serialized_content().to_vec(),
                signature_key: leaf.signature_key().as_slice().to_vec(),
            },
        ),
    }
}

} // verus!
