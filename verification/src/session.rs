//! One group session and the protocol driver that moves it.
//!
//! A session pairs the engine's live state of a group with the two things the
//! client itself keeps of it: the identifier under which it is registered and
//! the epoch that is current. The epoch is the session's own count: it starts
//! at 0 for a group that is formed here and at what the engine reads from the
//! welcome for a group that is joined, and it advances by one with each commit
//! whose merge succeeded. Every operation here either succeeds as a whole or
//! leaves identifier and epoch as they were.
use vstd::prelude::*;
use vstd::utf8::{
    decode_utf8, encode_utf8, encode_utf8_decode_utf8, encode_utf8_valid_utf8, valid_utf8,
};
use openmls::prelude::{CredentialWithKey, KeyPackage, MlsGroup, ProtocolMessage};
use openmls_basic_credential::SignatureKeyPair;
use openmls_rust_crypto::OpenMlsRustCrypto;
use crate::codec::{
    hex_bytes, hex_text, is_message_text, is_welcome_text, is_wire_text,
    message_refusal, message_text, read_welcome, wire_bytes, wire_text,
};
use crate::engine::{holds_group_message, holds_welcome};
use crate::engine;
use crate::engine::Processed;
use crate::error::{lift, ErrorKind, MlsError};
use crate::text::{
    commit_reply_text, detail_text, group_info_text, render_commit_reply, render_group_info,
    text_from_utf8, utf8_fault,
};

verus! {

/// A group this client takes part in.
pub struct GroupSession {
    /// The identifier that the engine gave the group, as wire text.
    pub group_id: String,
    /// The epoch that is current in this client's view of the group.
    pub epoch: u64,
    /// The engine's state of the group.
    pub group: MlsGroup,
}

/// What the session hands the engine for a plaintext: its UTF-8 bytes.
pub open spec fn payload_of(plaintext: Seq<char>) -> Seq<u8> {
    encode_utf8(plaintext)
}

/// True for a reply of a membership change, whatever commit and welcome it
/// carries, as long as neither is empty.
pub open spec fn is_commit_reply(text: Seq<char>) -> bool {
    exists|commit: Seq<u8>, welcome: Seq<u8>|
        commit.len() > 0 && welcome.len() > 0 && text == commit_reply_text(commit, welcome)
}

/// Whether the welcomes of a group that is formed here carry the member
/// tree. They do, so that whoever joins needs no tree from elsewhere.
pub fn welcomes_carry_tree() -> (embed: bool)
    ensures
        embed,
{
    true
}

/// True for a reply of a group information request about the given group
/// and epoch, whatever number of members it states.
pub open spec fn is_group_info(text: Seq<char>, group_id: Seq<char>, epoch: u64) -> bool {
    exists|members: nat| text == group_info_text(group_id, epoch as nat, members)
}

/// A plaintext that comes out of the engine as it went in is read back
/// unchanged: the payload made of it is UTF-8 and decodes to the plaintext.
pub proof fn lemma_payload_round_trip(plaintext: Seq<char>)
    ensures
        valid_utf8(payload_of(plaintext)),
        decode_utf8(payload_of(plaintext)) == plaintext,
{
    encode_utf8_valid_utf8(plaintext);
    encode_utf8_decode_utf8(plaintext);
}

/// Reads the text out of what the engine found in an arrived message. An
/// application message yields its payload, which must be UTF-8; every other
/// content yields the empty text.
pub fn received_text(content: Processed) -> (r: Result<String, MlsError>)
    ensures
        content matches Processed::Application(bytes) ==> {
            &&& r is Ok <==> valid_utf8(bytes@)
            &&& r matches Ok(text) ==> text@ == decode_utf8(bytes@)
            &&& r matches Err(e) ==> e.is(
                ErrorKind::Serialization,
                detail_text("Failed to convert message to UTF-8"@, utf8_fault(bytes@)),
            ) && e.reports(ErrorKind::Serialization, "Failed to convert message to UTF-8"@)
        },
        !(content is Application) ==> r is Ok && r->Ok_0@ == Seq::<char>::empty(),
{
    match content {
        Processed::Application(bytes) => lift(
            text_from_utf8(bytes),
            ErrorKind::Serialization,
            "Failed to convert message to UTF-8",
        ),
        _ => Ok(String::new()),
    }
}

/// Gives a validated key package to add: the engine checks the package that
/// arrived against the protocol's rules. A rejected package is a
/// cryptographic failure.
pub fn validated(key_package: openmls::prelude::KeyPackageIn, provider: &OpenMlsRustCrypto) -> (r:
    Result<KeyPackage, MlsError>)
    ensures
        r matches Err(e) ==> e.reports(ErrorKind::Crypto, "Failed to validate key package"@),
{
    lift(
        engine::validate_key_package(key_package, provider),
        ErrorKind::Crypto,
        "Failed to validate key package",
    )
}

/// True for text that stands for a message which belongs to a group: a
/// handshake or an application message.
pub open spec fn is_protocol_text(text: Seq<char>) -> bool {
    is_message_text(text) && holds_group_message(hex_bytes(text))
}

/// A welcome is never a message of a group: no text stands for both.
pub proof fn lemma_welcome_is_no_group_message(text: Seq<char>)
    ensures
        !(is_welcome_text(text) && is_protocol_text(text)),
{
}

/// The detail of the failure for text that stands for no message of a group:
/// that of text that is no message text, or else the engine's one word for a
/// message that belongs to no group.
pub open spec fn protocol_refusal(text: Seq<char>, decoding: Seq<char>, parsing: Seq<char>) -> Seq<
    char,
> {
    if !is_message_text(text) {
        message_refusal(text, decoding, parsing)
    } else {
        detail_text("Failed to convert to protocol message"@, "WrongWireFormat"@)
    }
}

/// Reads from wire text a message that belongs to a group. Text that is not
/// well-formed fails for the attempt `decoding`, bytes that the engine does
/// not take apart for the attempt `parsing`, and a message that belongs to no
/// group as one that cannot be converted; each is a serialization failure.
pub fn read_protocol_message(text: &str, decoding: &str, parsing: &str) -> (r: Result<
    ProtocolMessage,
    MlsError,
>)
    ensures
        r is Ok <==> is_protocol_text(text@),
        r matches Err(e) ==> e.is(
            ErrorKind::Serialization,
            protocol_refusal(text@, decoding@, parsing@),
        ),
        r matches Err(e) ==> {
            ||| e.reports(ErrorKind::Serialization, decoding@)
            ||| e.reports(ErrorKind::Serialization, parsing@)
            ||| e.reports(ErrorKind::Serialization, "Failed to convert to protocol message"@)
        },
{
    let bytes = match wire_bytes(text, decoding) {
        Err(e) => { return Err(e); },
        Ok(bytes) => bytes,
    };
    match lift(
        engine::protocol_message_from_wire(bytes.as_slice()),
        ErrorKind::Serialization,
        parsing,
    ) {
        Err(e) => Err(e),
        Ok(converted) => lift(
            converted,
            ErrorKind::Serialization,
            "Failed to convert to protocol message",
        ),
    }
}

impl GroupSession {
    /// Forms a new group for the given identity. Its welcomes will carry the
    /// member tree. The session starts at epoch 0 under the identifier that
    /// the engine chose; a new group that the engine reports at another epoch
    /// is refused.
    pub fn create(
        provider: &OpenMlsRustCrypto,
        signer: &SignatureKeyPair,
        credential: &CredentialWithKey,
    ) -> (r: Result<GroupSession, MlsError>)
        ensures
            r matches Ok(session) ==> session.epoch == 0 && is_wire_text(session.group_id@),
            r matches Err(e) ==> e.reports(ErrorKind::Generic, "Failed to create group"@),
    {
        match lift(
            engine::create_group(provider, signer, credential, welcomes_carry_tree()),
            ErrorKind::Generic,
            "Failed to create group",
        ) {
            Err(e) => Err(e),
            Ok(group) => {
                let raw = engine::group_id_bytes(&group);
                let epoch = engine::group_epoch(&group);
                GroupSession::started(group, raw.as_slice(), epoch)
            },
        }
    }

    /// Makes the session of a group that was just formed from what the
    /// engine says of it. The engine must report epoch 0: a new group at any
    /// other epoch is a generic failure.
    pub fn started(group: MlsGroup, raw_id: &[u8], epoch: u64) -> (r: Result<
        GroupSession,
        MlsError,
    >)
        ensures
            r is Ok <==> epoch == 0,
            r matches Ok(session) ==> {
                &&& session.group == group
                &&& session.epoch == 0
                &&& session.group_id@ == hex_text(raw_id@)
                &&& is_wire_text(session.group_id@)
            },
            r matches Err(e) ==> e.is(
                ErrorKind::Generic,
                detail_text("Failed to create group"@, "the new group is not at epoch 0"@),
            ) && e.reports(ErrorKind::Generic, "Failed to create group"@),
    {
        if epoch == 0 {
            Ok(GroupSession::assemble(group, raw_id, epoch))
        } else {
            Err(
                MlsError::report(
                    ErrorKind::Generic,
                    "Failed to create group",
                    "the new group is not at epoch 0",
                ),
            )
        }
    }

    /// Joins the group that a welcome invites to. The welcome must carry the
    /// member tree: none is supplied from outside. The session starts at the
    /// epoch that the engine reads from the welcome.
    pub fn join(provider: &OpenMlsRustCrypto, welcome_text: &str) -> (r: Result<
        GroupSession,
        MlsError,
    >)
        ensures
            r matches Ok(session) ==> is_welcome_text(welcome_text@) && is_wire_text(
                session.group_id@,
            ),
            !is_message_text(welcome_text@) ==> r is Err && r->Err_0.is(
                ErrorKind::Serialization,
                message_refusal(
                    welcome_text@,
                    "Failed to decode welcome hex"@,
                    "Failed to deserialize welcome"@,
                ),
            ),
            is_message_text(welcome_text@) && !holds_welcome(hex_bytes(welcome_text@)) ==> r is Err
                && r->Err_0.is(
                ErrorKind::Generic,
                "Expected Welcome message, got different type"@,
            ),
            is_welcome_text(welcome_text@) ==> r is Ok || r->Err_0.reports(
                ErrorKind::Generic,
                "Failed to stage welcome"@,
            ) || r->Err_0.reports(ErrorKind::Generic, "Failed to create group from welcome"@),
            r matches Err(e) ==> {
                ||| e.reports(ErrorKind::Serialization, "Failed to decode welcome hex"@)
                ||| e.reports(ErrorKind::Serialization, "Failed to deserialize welcome"@)
                ||| e.is(ErrorKind::Generic, "Expected Welcome message, got different type"@)
                ||| e.reports(ErrorKind::Generic, "Failed to stage welcome"@)
                ||| e.reports(ErrorKind::Generic, "Failed to create group from welcome"@)
            },
    {
        let welcome = match read_welcome(welcome_text) {
            Err(e) => { return Err(e); },
            Ok(welcome) => welcome,
        };
        let staged = match lift(
            engine::stage_welcome(provider, welcome),
            ErrorKind::Generic,
            "Failed to stage welcome",
        ) {
            Err(e) => { return Err(e); },
            Ok(staged) => staged,
        };
        match lift(
            engine::join_group(staged, provider),
            ErrorKind::Generic,
            "Failed to create group from welcome",
        ) {
            Err(e) => Err(e),
            Ok(group) => {
                let raw = engine::group_id_bytes(&group);
                let epoch = engine::group_epoch(&group);
                Ok(GroupSession::assemble(group, raw.as_slice(), epoch))
            },
        }
    }

    /// Records what a merge of a commit came to, given the epoch that the
    /// engine reports after it. A merge that succeeded and left the engine
    /// one epoch on moves the session to that epoch. A merge that failed is a
    /// generic failure for the attempt `context`, with the engine's words; so
    /// is one after which the engine is anywhere but one epoch on. A failure
    /// leaves the session where it was.
    pub fn settle(&mut self, merged: Result<(), String>, observed: u64, context: &str) -> (r:
        Result<(), MlsError>)
        ensures
            final(self).group_id == old(self).group_id,
            final(self).group == old(self).group,
            r is Ok <==> merged is Ok && observed == old(self).epoch + 1,
            r is Ok ==> final(self).epoch == observed && final(self).epoch == old(self).epoch + 1,
            r is Err ==> final(self).epoch == old(self).epoch,
            merged matches Err(fault) ==> r is Err && r->Err_0.is(
                ErrorKind::Generic,
                detail_text(context@, fault@),
            ),
            merged is Ok && observed != old(self).epoch + 1 ==> r is Err && r->Err_0.is(
                ErrorKind::Generic,
                detail_text(context@, "the engine is not at the next epoch"@),
            ),
            r matches Err(e) ==> e.reports(ErrorKind::Generic, context@),
    {
        match lift(merged, ErrorKind::Generic, context) {
            Err(e) => Err(e),
            Ok(()) => {
                if self.epoch < u64::MAX && observed == self.epoch + 1 {
                    self.epoch = observed;
                    Ok(())
                } else {
                    Err(
                        MlsError::report(
                            ErrorKind::Generic,
                            context,
                            "the engine is not at the next epoch",
                        ),
                    )
                }
            },
        }
    }

    /// Adds the owner of a validated key package to the group. The engine
    /// makes a commit for the members there are and a welcome for the one
    /// that joins; the commit is merged into this session at once, so that
    /// the session is never behind what it hands out. The reply carries both
    /// as wire text.
    ///
    /// On success the epoch has advanced by exactly one, and it is the epoch
    /// that the engine reports after the merge. On failure it has not moved:
    /// commit and welcome are encoded before the merge, and a commit that
    /// cannot be handed out is withdrawn.
    pub fn add_member(
        &mut self,
        provider: &OpenMlsRustCrypto,
        signer: &SignatureKeyPair,
        key_package: KeyPackage,
    ) -> (r: Result<String, MlsError>)
        ensures
            final(self).group_id == old(self).group_id,
            r matches Ok(reply) ==> final(self).epoch == old(self).epoch + 1 && is_commit_reply(
                reply@,
            ),
            r is Err ==> final(self).epoch == old(self).epoch,
            old(self).epoch == u64::MAX ==> r is Err && r->Err_0.is(
                ErrorKind::Generic,
                detail_text("Failed to add member"@, "the epoch counter is exhausted"@),
            ),
            r matches Err(e) ==> {
                ||| e.reports(ErrorKind::Generic, "Failed to add member"@)
                ||| e.reports(ErrorKind::Serialization, "Failed to serialize commit"@)
                ||| e.reports(ErrorKind::Serialization, "Failed to serialize welcome"@)
                ||| e.reports(ErrorKind::Generic, "Failed to merge pending commit"@)
            },
    {
        if self.epoch == u64::MAX {
            return Err(
                MlsError::report(
                    ErrorKind::Generic,
                    "Failed to add member",
                    "the epoch counter is exhausted",
                ),
            );
        }
        let (commit, welcome) = match lift(
            engine::add_member(&mut self.group, provider, signer, key_package),
            ErrorKind::Generic,
            "Failed to add member",
        ) {
            Err(e) => { return Err(e); },
            Ok(pair) => pair,
        };
        let commit_bytes = match lift(
            engine::message_to_wire(&commit),
            ErrorKind::Serialization,
            "Failed to serialize commit",
        ) {
            Err(e) => {
                let _ = engine::clear_pending_commit(&mut self.group, provider);
                return Err(e);
            },
            Ok(bytes) => bytes,
        };
        let welcome_bytes = match lift(
            engine::message_to_wire(&welcome),
            ErrorKind::Serialization,
            "Failed to serialize welcome",
        ) {
            Err(e) => {
                let _ = engine::clear_pending_commit(&mut self.group, provider);
                return Err(e);
            },
            Ok(bytes) => bytes,
        };
        let merged = engine::merge_pending_commit(&mut self.group, provider);
        let observed = engine::group_epoch(&self.group);
        match self.settle(merged, observed, "Failed to merge pending commit") {
            Err(e) => Err(e),
            Ok(()) => {
                let reply = render_commit_reply(commit_bytes.as_slice(), welcome_bytes.as_slice());
                assert(reply@ == commit_reply_text(commit_bytes@, welcome_bytes@));
                Ok(reply)
            },
        }
    }

    /// Takes in what the engine found in a message of another member. A
    /// commit is merged at once, which moves the session to the next epoch,
    /// the one that the engine reports after the merge. Any other content is
    /// refused as a generic failure and moves nothing.
    pub fn merge_processed(&mut self, provider: &OpenMlsRustCrypto, content: Processed) -> (r:
        Result<(), MlsError>)
        ensures
            final(self).group_id == old(self).group_id,
            r is Ok ==> content is StagedCommit && final(self).epoch == old(self).epoch + 1,
            r is Err ==> final(self).epoch == old(self).epoch,
            !(content is StagedCommit) ==> final(self).group == old(self).group && r is Err
                && r->Err_0.is(
                ErrorKind::Generic,
                detail_text("Failed to process commit"@, "the message holds no commit"@),
            ),
            content is StagedCommit && old(self).epoch == u64::MAX ==> final(self).group == old(
                self,
            ).group && r is Err && r->Err_0.is(
                ErrorKind::Generic,
                detail_text("Failed to merge staged commit"@, "the epoch counter is exhausted"@),
            ),
            r matches Err(e) ==> {
                ||| e.reports(ErrorKind::Generic, "Failed to process commit"@)
                ||| e.reports(ErrorKind::Generic, "Failed to merge staged commit"@)
            },
    {
        match content {
            Processed::StagedCommit(commit) => {
                if self.epoch == u64::MAX {
                    return Err(
                        MlsError::report(
                            ErrorKind::Generic,
                            "Failed to merge staged commit",
                            "the epoch counter is exhausted",
                        ),
                    );
                }
                let merged = engine::merge_staged_commit(&mut self.group, provider, commit);
                let observed = engine::group_epoch(&self.group);
                self.settle(merged, observed, "Failed to merge staged commit")
            },
            _ => Err(
                MlsError::report(
                    ErrorKind::Generic,
                    "Failed to process commit",
                    "the message holds no commit",
                ),
            ),
        }
    }

    /// Applies a message of another member that is meant to be a commit. The
    /// engine checks it against the group; what it rejects, a commit out of
    /// order among it, is a generic failure, and so is a message that holds
    /// no commit. Success means that a commit was merged and the session is
    /// one epoch on.
    pub fn apply_commit(&mut self, provider: &OpenMlsRustCrypto, message: ProtocolMessage) -> (r:
        Result<(), MlsError>)
        ensures
            final(self).group_id == old(self).group_id,
            r is Ok ==> final(self).epoch == old(self).epoch + 1,
            r is Err ==> final(self).epoch == old(self).epoch,
            r matches Err(e) ==> {
                ||| e.reports(ErrorKind::Generic, "Failed to process commit"@)
                ||| e.reports(ErrorKind::Generic, "Failed to merge staged commit"@)
            },
    {
        match lift(
            engine::process_message(&mut self.group, provider, message),
            ErrorKind::Generic,
            "Failed to process commit",
        ) {
            Err(e) => Err(e),
            Ok(content) => self.merge_processed(provider, content),
        }
    }

    /// Protects a plaintext for the group under the current epoch. The epoch
    /// does not move.
    pub fn encrypt(
        &mut self,
        provider: &OpenMlsRustCrypto,
        signer: &SignatureKeyPair,
        plaintext: &str,
    ) -> (r: Result<String, MlsError>)
        ensures
            final(self).group_id == old(self).group_id,
            final(self).epoch == old(self).epoch,
            r matches Ok(text) ==> is_wire_text(text@) && text@.len() > 0,
            r matches Err(e) ==> {
                ||| e.reports(ErrorKind::Generic, "Failed to encrypt message"@)
                ||| e.reports(ErrorKind::Serialization, "Failed to serialize message"@)
            },
    {
        let payload = plaintext.as_bytes();
        assert(payload@ == payload_of(plaintext@));
        match lift(
            engine::create_message(&mut self.group, provider, signer, payload),
            ErrorKind::Generic,
            "Failed to encrypt message",
        ) {
            Err(e) => Err(e),
            Ok(message) => message_text(&message, "Failed to serialize message"),
        }
    }

    /// Opens an arrived message and hands out its text. The epoch does not
    /// move, whatever the message holds: a commit that arrives here is
    /// looked at and dropped.
    pub fn decrypt(&mut self, provider: &OpenMlsRustCrypto, message: ProtocolMessage) -> (r:
        Result<String, MlsError>)
        ensures
            final(self).group_id == old(self).group_id,
            final(self).epoch == old(self).epoch,
            r matches Err(e) ==> {
                ||| e.reports(ErrorKind::Generic, "Failed to decrypt message"@)
                ||| e.reports(ErrorKind::Serialization, "Failed to convert message to UTF-8"@)
            },
    {
        match lift(
            engine::process_message(&mut self.group, provider, message),
            ErrorKind::Generic,
            "Failed to decrypt message",
        ) {
            Err(e) => Err(e),
            Ok(content) => received_text(content),
        }
    }

    /// Describes the session: identifier, epoch and the number of members
    /// that the engine counts.
    pub fn info(&self) -> (text: String)
        ensures
            is_group_info(text@, self.group_id@, self.epoch),
    {
        let members = engine::member_count(&self.group);
        let text = render_group_info(self.group_id.as_str(), self.epoch, members as u64);
        assert(text@ == group_info_text(self.group_id@, self.epoch as nat, members as u64 as nat));
        text
    }

    /// Makes the session of a group from what the engine says of it: the
    /// group's state, the raw identifier, which is registered as its wire
    /// text, and the epoch to start at.
    pub fn assemble(group: MlsGroup, raw_id: &[u8], epoch: u64) -> (session: GroupSession)
        ensures
            session.group == group,
            session.epoch == epoch,
            session.group_id@ == hex_text(raw_id@),
            is_wire_text(session.group_id@),
    {
        GroupSession { group_id: wire_text(raw_id), epoch, group }
    }
}

} // verus!
