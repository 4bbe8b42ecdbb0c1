//! The client: one identity, one provider, and the registry of its groups.
//!
//! Each operation names a group by its identifier, takes wire text where the
//! protocol hands over a message, and either succeeds as a whole or leaves the
//! registry as it was. The contracts speak of the registry as a mapping from
//! identifier to current epoch.
use vstd::prelude::*;
use openmls::prelude::{Ciphersuite, CredentialWithKey, KeyPackage, ProtocolMessage};
use openmls_basic_credential::SignatureKeyPair;
use openmls_rust_crypto::OpenMlsRustCrypto;
use crate::codec::{
    hex_bytes, is_key_package_text, is_message_text, is_welcome_text, is_wire_text,
    key_package_refusal, key_package_text, message_refusal, read_key_package,
};
use crate::engine::holds_welcome;
use crate::engine;
use crate::error::{lift, ErrorKind, MlsError};
use crate::persist::{record_of, GroupRecord};
use crate::persist::{lemma_records_are_listed, listed_ids, record_ids, written};
use crate::registry::{
    carries_on, keeps_groups, lemma_entry, lemma_session_changed, others_untouched,
    GroupRegistry,
};
use crate::session::{
    is_commit_reply, is_group_info, is_protocol_text, protocol_refusal, read_protocol_message,
    validated, GroupSession,
};

verus! {

/// The ciphersuite that a client uses, by the number that the protocol gives
/// it: X25519 key encapsulation, AES-128-GCM, SHA-256 and Ed25519 signatures.
pub const CIPHERSUITE: u16 = 1;

/// A client of secure group messaging.
pub struct MlsClient {
    registry: GroupRegistry,
    suite: Ciphersuite,
    provider: OpenMlsRustCrypto,
    signer: SignatureKeyPair,
    credential: CredentialWithKey,
    storage_path: String,
}

/// What a checkpoint came to: the records of the sessions that could be
/// taken, in the order of the registry, and the failure that ended it early,
/// if one did.
pub struct Checkpoint {
    pub records: Vec<GroupRecord>,
    pub failure: Option<MlsError>,
}

impl MlsClient {
    /// The registry of the client.
    pub closed spec fn registry(&self) -> GroupRegistry {
        self.registry
    }

    /// The storage location that the client was made for.
    pub closed spec fn path(&self) -> Seq<char> {
        self.storage_path@
    }

    /// The identity that the client was provisioned with, and what serves it:
    /// the ciphersuite, the provider, the signing key pair and the credential.
    /// It is fixed when the client is made.
    pub closed spec fn identity(&self) -> (
        Ciphersuite,
        OpenMlsRustCrypto,
        SignatureKeyPair,
        CredentialWithKey,
    ) {
        (self.suite, self.provider, self.signer, self.credential)
    }

    /// The invariant of the client: its registry is well-formed.
    pub open spec fn wf(&self) -> bool {
        self.registry().wf()
    }

    /// The groups that are live, each with its current epoch.
    pub open spec fn groups(&self) -> Map<Seq<char>, u64> {
        self.registry().epochs()
    }

    /// Makes a client for a storage location and provisions its identity: a
    /// fresh signing key pair and a default credential bound to it. The client
    /// starts without any live group, whatever the storage location holds.
    pub fn new(storage_path: String) -> (r: Result<MlsClient, MlsError>)
        ensures
            r matches Ok(client) ==> {
                &&& client.wf()
                &&& client.groups() == Map::<Seq<char>, u64>::empty()
                &&& client.path() == storage_path@
            },
            r matches Err(e) ==> e.reports(ErrorKind::Crypto, "Failed to generate signature keys"@),
    {
        let suite = match lift(
            engine::ciphersuite(CIPHERSUITE),
            ErrorKind::Crypto,
            "Failed to select ciphersuite",
        ) {
            Err(e) => { return Err(e); },
            Ok(suite) => suite,
        };
        let signer = match lift(
            engine::generate_signer(suite),
            ErrorKind::Crypto,
            "Failed to generate signature keys",
        ) {
            Err(e) => { return Err(e); },
            Ok(signer) => signer,
        };
        let credential = engine::basic_credential("default_user".as_bytes_vec(), &signer);
        Ok(
            MlsClient {
                registry: GroupRegistry::new(),
                suite,
                provider: engine::new_provider(),
                signer,
                credential,
                storage_path,
            },
        )
    }

    /// The storage location that the client was made for.
    pub fn storage_path(&self) -> (path: &str)
        ensures
            path@ == self.path(),
    {
        self.storage_path.as_str()
    }

    /// Issues a key package that lets others invite this client into a
    /// group. The key package advertises the identity that the client was
    /// provisioned with; `name` labels the request and is bound into nothing.
    /// The private half stays in the provider's storage, where a welcome
    /// finds it.
    pub fn create_identity(&self, name: String) -> (r: Result<String, MlsError>)
        ensures
            r matches Ok(text) ==> is_wire_text(text@) && text@.len() > 0,
            r matches Err(e) ==> {
                ||| e.reports(ErrorKind::Crypto, "Failed to build key package"@)
                ||| e.reports(ErrorKind::Serialization, "Failed to serialize key package"@)
            },
    {
        let _ = name;
        match lift(
            engine::build_key_package(self.suite, &self.provider, &self.signer, &self.credential),
            ErrorKind::Crypto,
            "Failed to build key package",
        ) {
            Err(e) => Err(e),
            Ok(key_package) => key_package_text(&key_package),
        }
    }

    /// Lists the identifiers of the live groups, each once, in no order
    /// that a caller may rely on.
    pub fn list_active_groups(&self) -> (list: Vec<String>)
        requires
            self.wf(),
        ensures
            forall|i: int|
                0 <= i < list@.len() ==> self.groups().contains_key(#[trigger] list@[i]@),
            forall|id: Seq<char>|
                self.groups().contains_key(id) ==> exists|i: int|
                    0 <= i < list@.len() && #[trigger] list@[i]@ == id,
            forall|i: int, j: int|
                0 <= i < list@.len() && 0 <= j < list@.len() && i != j ==> list@[i]@ != list@[j]@,
    {
        let list = self.registry.identifiers();
        proof {
            let ids = self.registry.ids();
            assert forall|i: int| 0 <= i < list@.len() implies self.groups().contains_key(
                #[trigger] list@[i]@,
            ) by {
                assert(ids[i] == list@[i]@);
                assert(ids.contains(ids[i]));
            }
            assert forall|id: Seq<char>| self.groups().contains_key(id) implies exists|i: int|
                0 <= i < list@.len() && #[trigger] list@[i]@ == id by {
                let k = choose|k: int| 0 <= k < ids.len() && ids[k] == id;
                assert(list@[k]@ == id);
            }
            assert forall|i: int, j: int|
                0 <= i < list@.len() && 0 <= j < list@.len() && i != j implies list@[i]@
                != list@[j]@ by {
                assert(ids[i] == list@[i]@);
                assert(ids[j] == list@[j]@);
            }
        }
        list
    }

    /// Describes a live group: its identifier, its current epoch and the
    /// number of members that the engine counts.
    pub fn get_group_info(&self, group_id: String) -> (r: Result<String, MlsError>)
        requires
            self.wf(),
        ensures
            r is Ok <==> self.groups().contains_key(group_id@),
            r matches Ok(text) ==> is_group_info(text@, group_id@, self.groups()[group_id@]),
            r matches Err(e) ==> e.is(ErrorKind::GroupNotFound, group_id@),
    {
        match self.registry.position(&group_id) {
            None => Err(MlsError::group_not_found(group_id.as_str())),
            Some(i) => {
                proof {
                    lemma_entry(self.registry.entries(), i as int);
                }
                Ok(self.registry.session(i).info())
            },
        }
    }

    /// Forms a new group with this client as its only member and registers
    /// it at epoch 0. The engine chooses the identifier, which comes back.
    /// When the engine fails, nothing is registered. Every other session
    /// stays as it was.
    pub fn create_group(&mut self) -> (r: Result<String, MlsError>)
        requires
            old(self).wf(),
        ensures
            final(self).wf(),
            final(self).path() == old(self).path(),
            final(self).identity() == old(self).identity(),
            keeps_groups(old(self).groups(), final(self).groups()),
            r matches Ok(group_id) ==> {
                &&& is_wire_text(group_id@)
                &&& final(self).groups().contains_key(group_id@)
                &&& final(self).groups()[group_id@] == 0
                &&& final(self).groups() == old(self).groups().insert(group_id@, 0)
                &&& others_untouched(
                    old(self).registry().entries(),
                    final(self).registry().entries(),
                    group_id@,
                )
            },
            r matches Err(e) ==> {
                &&& final(self).registry().entries() == old(self).registry().entries()
                &&& final(self).groups() == old(self).groups()
                &&& e.reports(ErrorKind::Generic, "Failed to create group"@)
            },
    {
        match GroupSession::create(&self.provider, &self.signer, &self.credential) {
            Err(e) => Err(e),
            Ok(session) => {
                let group_id = session.group_id.clone();
                self.registry.register(session);
                Ok(group_id)
            },
        }
    }

    /// Adds the owner of a validated key package to a live group; see
    /// [`GroupSession::add_member`]. An identifier that is not registered is
    /// refused before the engine is asked. Every other session stays as it
    /// was.
    pub fn add_validated(&mut self, group_id: &String, key_package: KeyPackage) -> (r: Result<
        String,
        MlsError,
    >)
        requires
            old(self).wf(),
        ensures
            final(self).wf(),
            final(self).path() == old(self).path(),
            final(self).identity() == old(self).identity(),
            carries_on(old(self).groups(), final(self).groups()),
            others_untouched(
                old(self).registry().entries(),
                final(self).registry().entries(),
                group_id@,
            ),
            !old(self).groups().contains_key(group_id@) ==> {
                &&& r is Err
                &&& r->Err_0.is(ErrorKind::GroupNotFound, group_id@)
                &&& final(self).registry().entries() == old(self).registry().entries()
            },
            old(self).groups().contains_key(group_id@) ==> r is Ok || r->Err_0.spec_kind()
                != ErrorKind::GroupNotFound,
            r matches Ok(reply) ==> {
                &&& is_commit_reply(reply@)
                &&& old(self).groups().contains_key(group_id@)
                &&& final(self).groups().contains_key(group_id@)
                &&& final(self).groups()[group_id@] == old(self).groups()[group_id@] + 1
                &&& final(self).groups() == old(self).groups().insert(
                    group_id@,
                    (old(self).groups()[group_id@] + 1) as u64,
                )
            },
            r is Err ==> final(self).groups() == old(self).groups(),
            r matches Err(e) ==> {
                ||| e.is(ErrorKind::GroupNotFound, group_id@)
                ||| e.reports(ErrorKind::Generic, "Failed to add member"@)
                ||| e.reports(ErrorKind::Serialization, "Failed to serialize commit"@)
                ||| e.reports(ErrorKind::Serialization, "Failed to serialize welcome"@)
                ||| e.reports(ErrorKind::Generic, "Failed to merge pending commit"@)
            },
    {
        match self.registry.position(group_id) {
            None => Err(MlsError::group_not_found(group_id.as_str())),
            Some(i) => {
                let ghost before = self.registry.entries();
                let session = self.registry.session_mut(i);
                let r = session.add_member(&self.provider, &self.signer, key_package);
                proof {
                    lemma_session_changed(before, self.registry.entries(), i as int);
                }
                r
            },
        }
    }

    /// Adds a member to a live group from the wire text of its key package.
    /// The group is looked up first; then the text is decoded and the key
    /// package validated; then see [`MlsClient::add_validated`].
    pub fn add_member(&mut self, group_id: String, key_package_hex: String) -> (r: Result<
        String,
        MlsError,
    >)
        requires
            old(self).wf(),
        ensures
            final(self).wf(),
            final(self).path() == old(self).path(),
            final(self).identity() == old(self).identity(),
            carries_on(old(self).groups(), final(self).groups()),
            others_untouched(
                old(self).registry().entries(),
                final(self).registry().entries(),
                group_id@,
            ),
            !old(self).groups().contains_key(group_id@) ==> {
                &&& r is Err
                &&& r->Err_0.is(ErrorKind::GroupNotFound, group_id@)
                &&& final(self).registry().entries() == old(self).registry().entries()
            },
            old(self).groups().contains_key(group_id@) && !is_key_package_text(key_package_hex@)
                ==> {
                &&& r is Err
                &&& r->Err_0.is(ErrorKind::Serialization, key_package_refusal(key_package_hex@))
                &&& final(self).registry().entries() == old(self).registry().entries()
            },
            old(self).groups().contains_key(group_id@) && is_key_package_text(key_package_hex@)
                ==> {
                ||| r is Ok
                ||| r->Err_0.reports(ErrorKind::Crypto, "Failed to validate key package"@)
                ||| r->Err_0.reports(ErrorKind::Generic, "Failed to add member"@)
                ||| r->Err_0.reports(ErrorKind::Serialization, "Failed to serialize commit"@)
                ||| r->Err_0.reports(ErrorKind::Serialization, "Failed to serialize welcome"@)
                ||| r->Err_0.reports(ErrorKind::Generic, "Failed to merge pending commit"@)
            },
            r is Err && r->Err_0.spec_kind() == ErrorKind::Crypto ==> final(self).registry().entries() == old(self).registry().entries(),
            r matches Ok(reply) ==> {
                &&& is_commit_reply(reply@)
                &&& is_key_package_text(key_package_hex@)
                &&& old(self).groups().contains_key(group_id@)
                &&& final(self).groups().contains_key(group_id@)
                &&& final(self).groups()[group_id@] == old(self).groups()[group_id@] + 1
                &&& final(self).groups() == old(self).groups().insert(
                    group_id@,
                    (old(self).groups()[group_id@] + 1) as u64,
                )
            },
            r is Err ==> final(self).groups() == old(self).groups(),
            r matches Err(e) ==> {
                ||| e.is(ErrorKind::GroupNotFound, group_id@)
                ||| e.reports(ErrorKind::Serialization, "Failed to decode key package hex"@)
                ||| e.reports(ErrorKind::Serialization, "Failed to deserialize key package"@)
                ||| e.reports(ErrorKind::Crypto, "Failed to validate key package"@)
                ||| e.reports(ErrorKind::Generic, "Failed to add member"@)
                ||| e.reports(ErrorKind::Serialization, "Failed to serialize commit"@)
                ||| e.reports(ErrorKind::Serialization, "Failed to serialize welcome"@)
                ||| e.reports(ErrorKind::Generic, "Failed to merge pending commit"@)
            },
    {
        if self.registry.position(&group_id).is_none() {
            return Err(MlsError::group_not_found(group_id.as_str()));
        }
        let arrived = match read_key_package(key_package_hex.as_str()) {
            Err(e) => { return Err(e); },
            Ok(arrived) => arrived,
        };
        let key_package = match validated(arrived, &self.provider) {
            Err(e) => { return Err(e); },
            Ok(key_package) => key_package,
        };
        self.add_validated(&group_id, key_package)
    }

    /// Applies to a live group a message of another member that is meant to
    /// be a commit; see [`GroupSession::apply_commit`]. An identifier that is
    /// not registered is refused before the engine is asked. Success means
    /// that the group is one epoch on. Every other session stays as it was.
    pub fn apply_commit(&mut self, group_id: &String, message: ProtocolMessage) -> (r: Result<
        (),
        MlsError,
    >)
        requires
            old(self).wf(),
        ensures
            final(self).wf(),
            final(self).path() == old(self).path(),
            final(self).identity() == old(self).identity(),
            carries_on(old(self).groups(), final(self).groups()),
            others_untouched(
                old(self).registry().entries(),
                final(self).registry().entries(),
                group_id@,
            ),
            !old(self).groups().contains_key(group_id@) ==> {
                &&& r is Err
                &&& r->Err_0.is(ErrorKind::GroupNotFound, group_id@)
                &&& final(self).registry().entries() == old(self).registry().entries()
            },
            old(self).groups().contains_key(group_id@) ==> r is Ok || r->Err_0.spec_kind()
                != ErrorKind::GroupNotFound,
            r is Ok ==> {
                &&& old(self).groups().contains_key(group_id@)
                &&& final(self).groups().contains_key(group_id@)
                &&& final(self).groups()[group_id@] == old(self).groups()[group_id@] + 1
                &&& final(self).groups() == old(self).groups().insert(
                    group_id@,
                    (old(self).groups()[group_id@] + 1) as u64,
                )
            },
            r is Err ==> final(self).groups() == old(self).groups(),
            r matches Err(e) ==> {
                ||| e.is(ErrorKind::GroupNotFound, group_id@)
                ||| e.reports(ErrorKind::Generic, "Failed to process commit"@)
                ||| e.reports(ErrorKind::Generic, "Failed to merge staged commit"@)
            },
    {
        match self.registry.position(group_id) {
            None => Err(MlsError::group_not_found(group_id.as_str())),
            Some(i) => {
                let ghost before = self.registry.entries();
                let session = self.registry.session_mut(i);
                let r = session.apply_commit(&self.provider, message);
                proof {
                    lemma_session_changed(before, self.registry.entries(), i as int);
                }
                r
            },
        }
    }

    /// Applies a commit of another member, given as wire text, to a live
    /// group. The group is looked up first; then the text is decoded; then
    /// see [`MlsClient::apply_commit`].
    pub fn process_commit(&mut self, group_id: String, commit_hex: String) -> (r: Result<
        (),
        MlsError,
    >)
        requires
            old(self).wf(),
        ensures
            final(self).wf(),
            final(self).path() == old(self).path(),
            final(self).identity() == old(self).identity(),
            carries_on(old(self).groups(), final(self).groups()),
            others_untouched(
                old(self).registry().entries(),
                final(self).registry().entries(),
                group_id@,
            ),
            !old(self).groups().contains_key(group_id@) ==> {
                &&& r is Err
                &&& r->Err_0.is(ErrorKind::GroupNotFound, group_id@)
                &&& final(self).registry().entries() == old(self).registry().entries()
            },
            old(self).groups().contains_key(group_id@) && !is_protocol_text(commit_hex@) ==> {
                &&& r is Err
                &&& r->Err_0.is(
                    ErrorKind::Serialization,
                    protocol_refusal(
                        commit_hex@,
                        "Failed to decode commit hex"@,
                        "Failed to deserialize commit"@,
                    ),
                )
                &&& final(self).registry().entries() == old(self).registry().entries()
            },
            old(self).groups().contains_key(group_id@) && is_protocol_text(commit_hex@) ==> {
                ||| r is Ok
                ||| r->Err_0.reports(ErrorKind::Generic, "Failed to process commit"@)
                ||| r->Err_0.reports(ErrorKind::Generic, "Failed to merge staged commit"@)
            },
            r is Ok ==> {
                &&& is_protocol_text(commit_hex@)
                &&& old(self).groups().contains_key(group_id@)
                &&& final(self).groups().contains_key(group_id@)
                &&& final(self).groups()[group_id@] == old(self).groups()[group_id@] + 1
                &&& final(self).groups() == old(self).groups().insert(
                    group_id@,
                    (old(self).groups()[group_id@] + 1) as u64,
                )
            },
            r is Err ==> final(self).groups() == old(self).groups(),
            r matches Err(e) ==> {
                ||| e.is(ErrorKind::GroupNotFound, group_id@)
                ||| e.reports(ErrorKind::Serialization, "Failed to decode commit hex"@)
                ||| e.reports(ErrorKind::Serialization, "Failed to deserialize commit"@)
                ||| e.reports(ErrorKind::Serialization, "Failed to convert to protocol message"@)
                ||| e.reports(ErrorKind::Generic, "Failed to process commit"@)
                ||| e.reports(ErrorKind::Generic, "Failed to merge staged commit"@)
            },
    {
        if self.registry.position(&group_id).is_none() {
            return Err(MlsError::group_not_found(group_id.as_str()));
        }
        let message = match read_protocol_message(
            commit_hex.as_str(),
            "Failed to decode commit hex",
            "Failed to deserialize commit",
        ) {
            Err(e) => { return Err(e); },
            Ok(message) => message,
        };
        self.apply_commit(&group_id, message)
    }

    /// Joins the group that a welcome, given as wire text, invites to, and
    /// registers it under the identifier that the engine reads from the
    /// welcome, at the epoch it reads from it. The identifier comes back.
    /// When anything fails, nothing is registered. Every other session stays
    /// as it was.
    pub fn process_welcome(&mut self, welcome_hex: String) -> (r: Result<String, MlsError>)
        requires
            old(self).wf(),
        ensures
            final(self).wf(),
            final(self).path() == old(self).path(),
            final(self).identity() == old(self).identity(),
            keeps_groups(old(self).groups(), final(self).groups()),
            !is_message_text(welcome_hex@) ==> r is Err && r->Err_0.is(
                ErrorKind::Serialization,
                message_refusal(
                    welcome_hex@,
                    "Failed to decode welcome hex"@,
                    "Failed to deserialize welcome"@,
                ),
            ),
            is_message_text(welcome_hex@) && !holds_welcome(hex_bytes(welcome_hex@)) ==> r is Err
                && r->Err_0.is(
                ErrorKind::Generic,
                "Expected Welcome message, got different type"@,
            ),
            is_welcome_text(welcome_hex@) ==> r is Ok || r->Err_0.reports(
                ErrorKind::Generic,
                "Failed to stage welcome"@,
            ) || r->Err_0.reports(ErrorKind::Generic, "Failed to create group from welcome"@),
            r matches Ok(group_id) ==> {
                &&& is_welcome_text(welcome_hex@)
                &&& is_wire_text(group_id@)
                &&& final(self).groups().contains_key(group_id@)
                &&& exists|epoch: u64|
                    final(self).groups() == #[trigger] old(self).groups().insert(group_id@, epoch)
                &&& others_untouched(
                    old(self).registry().entries(),
                    final(self).registry().entries(),
                    group_id@,
                )
            },
            r is Err ==> final(self).groups() == old(self).groups() && final(self).registry().entries() == old(self).registry().entries(),
            r matches Err(e) ==> {
                ||| e.reports(ErrorKind::Serialization, "Failed to decode welcome hex"@)
                ||| e.reports(ErrorKind::Serialization, "Failed to deserialize welcome"@)
                ||| e.is(ErrorKind::Generic, "Expected Welcome message, got different type"@)
                ||| e.reports(ErrorKind::Generic, "Failed to stage welcome"@)
                ||| e.reports(ErrorKind::Generic, "Failed to create group from welcome"@)
            },
    {
        match GroupSession::join(&self.provider, welcome_hex.as_str()) {
            Err(e) => Err(e),
            Ok(session) => {
                let group_id = session.group_id.clone();
                let ghost epoch = session.epoch;
                self.registry.register(session);
                assert(self.groups() == old(self).groups().insert(group_id@, epoch));
                Ok(group_id)
            },
        }
    }

    /// Protects a plaintext for a live group and hands it out as wire
    /// text. No epoch moves, and every other session stays as it was.
    pub fn encrypt_message(&mut self, group_id: String, plaintext: String) -> (r: Result<
        String,
        MlsError,
    >)
        requires
            old(self).wf(),
        ensures
            final(self).wf(),
            final(self).path() == old(self).path(),
            final(self).identity() == old(self).identity(),
            carries_on(old(self).groups(), final(self).groups()),
            final(self).groups() == old(self).groups(),
            others_untouched(
                old(self).registry().entries(),
                final(self).registry().entries(),
                group_id@,
            ),
            !old(self).groups().contains_key(group_id@) ==> {
                &&& r is Err
                &&& r->Err_0.is(ErrorKind::GroupNotFound, group_id@)
                &&& final(self).registry().entries() == old(self).registry().entries()
            },
            old(self).groups().contains_key(group_id@) ==> {
                ||| r is Ok
                ||| r->Err_0.reports(ErrorKind::Generic, "Failed to encrypt message"@)
                ||| r->Err_0.reports(ErrorKind::Serialization, "Failed to serialize message"@)
            },
            r matches Ok(text) ==> is_wire_text(text@) && text@.len() > 0,
            r matches Err(e) ==> {
                ||| e.is(ErrorKind::GroupNotFound, group_id@)
                ||| e.reports(ErrorKind::Generic, "Failed to encrypt message"@)
                ||| e.reports(ErrorKind::Serialization, "Failed to serialize message"@)
            },
    {
        match self.registry.position(&group_id) {
            None => Err(MlsError::group_not_found(group_id.as_str())),
            Some(i) => {
                let ghost before = self.registry.entries();
                let session = self.registry.session_mut(i);
                let r = session.encrypt(&self.provider, &self.signer, plaintext.as_str());
                proof {
                    lemma_session_changed(before, self.registry.entries(), i as int);
                }
                r
            },
        }
    }

    /// Opens for a live group a message that arrived; see
    /// [`GroupSession::decrypt`]. An identifier that is not registered is
    /// refused before the engine is asked. No epoch moves, and every other
    /// session stays as it was.
    pub fn open_message(&mut self, group_id: &String, message: ProtocolMessage) -> (r: Result<
        String,
        MlsError,
    >)
        requires
            old(self).wf(),
        ensures
            final(self).wf(),
            final(self).path() == old(self).path(),
            final(self).identity() == old(self).identity(),
            carries_on(old(self).groups(), final(self).groups()),
            final(self).groups() == old(self).groups(),
            others_untouched(
                old(self).registry().entries(),
                final(self).registry().entries(),
                group_id@,
            ),
            !old(self).groups().contains_key(group_id@) ==> {
                &&& r is Err
                &&& r->Err_0.is(ErrorKind::GroupNotFound, group_id@)
                &&& final(self).registry().entries() == old(self).registry().entries()
            },
            old(self).groups().contains_key(group_id@) ==> {
                ||| r is Ok
                ||| r->Err_0.reports(ErrorKind::Generic, "Failed to decrypt message"@)
                ||| r->Err_0.reports(ErrorKind::Serialization, "Failed to convert message to UTF-8"@)
            },
            r matches Err(e) ==> {
                ||| e.is(ErrorKind::GroupNotFound, group_id@)
                ||| e.reports(ErrorKind::Generic, "Failed to decrypt message"@)
                ||| e.reports(ErrorKind::Serialization, "Failed to convert message to UTF-8"@)
            },
    {
        match self.registry.position(group_id) {
            None => Err(MlsError::group_not_found(group_id.as_str())),
            Some(i) => {
                let ghost before = self.registry.entries();
                let session = self.registry.session_mut(i);
                let r = session.decrypt(&self.provider, message);
                proof {
                    lemma_session_changed(before, self.registry.entries(), i as int);
                }
                r
            },
        }
    }

    /// Opens for a live group a message given as wire text and hands out
    /// its plaintext. The group is looked up first; then the text is
    /// decoded. A message that is no application message yields the empty
    /// text and changes nothing: a commit must go through
    /// [`MlsClient::process_commit`] to be applied.
    pub fn decrypt_message(&mut self, group_id: String, ciphertext_hex: String) -> (r: Result<
        String,
        MlsError,
    >)
        requires
            old(self).wf(),
        ensures
            final(self).wf(),
            final(self).path() == old(self).path(),
            final(self).identity() == old(self).identity(),
            carries_on(old(self).groups(), final(self).groups()),
            final(self).groups() == old(self).groups(),
            others_untouched(
                old(self).registry().entries(),
                final(self).registry().entries(),
                group_id@,
            ),
            !old(self).groups().contains_key(group_id@) ==> {
                &&& r is Err
                &&& r->Err_0.is(ErrorKind::GroupNotFound, group_id@)
                &&& final(self).registry().entries() == old(self).registry().entries()
            },
            old(self).groups().contains_key(group_id@) && !is_protocol_text(ciphertext_hex@) ==> {
                &&& r is Err
                &&& r->Err_0.is(
                    ErrorKind::Serialization,
                    protocol_refusal(
                        ciphertext_hex@,
                        "Failed to decode ciphertext hex"@,
                        "Failed to deserialize message"@,
                    ),
                )
                &&& final(self).registry().entries() == old(self).registry().entries()
            },
            old(self).groups().contains_key(group_id@) && is_protocol_text(ciphertext_hex@) ==> {
                ||| r is Ok
                ||| r->Err_0.reports(ErrorKind::Generic, "Failed to decrypt message"@)
                ||| r->Err_0.reports(ErrorKind::Serialization, "Failed to convert message to UTF-8"@)
            },
            r is Ok ==> is_protocol_text(ciphertext_hex@) && old(self).groups().contains_key(
                group_id@,
            ),
            r matches Err(e) ==> {
                ||| e.is(ErrorKind::GroupNotFound, group_id@)
                ||| e.reports(ErrorKind::Serialization, "Failed to decode ciphertext hex"@)
                ||| e.reports(ErrorKind::Serialization, "Failed to deserialize message"@)
                ||| e.reports(ErrorKind::Serialization, "Failed to convert to protocol message"@)
                ||| e.reports(ErrorKind::Generic, "Failed to decrypt message"@)
                ||| e.reports(ErrorKind::Serialization, "Failed to convert message to UTF-8"@)
            },
    {
        if self.registry.position(&group_id).is_none() {
            return Err(MlsError::group_not_found(group_id.as_str()));
        }
        let message = match read_protocol_message(
            ciphertext_hex.as_str(),
            "Failed to decode ciphertext hex",
            "Failed to deserialize message",
        ) {
            Err(e) => { return Err(e); },
            Ok(message) => message,
        };
        self.open_message(&group_id, message)
    }

    /// What a complete checkpoint holds is what a walk through the stored
    /// records lists: the identifiers of the groups that were live, each once,
    /// in the order of the registry.
    pub proof fn lemma_checkpoint_is_listed(&self, records: Seq<GroupRecord>)
        requires
            self.wf(),
            records.len() == self.registry().entries().len(),
            forall|i: int|
                0 <= i < records.len() ==> (#[trigger] records[i]).group_id@
                    == self.registry().ids()[i],
        ensures
            listed_ids(written(records)) == self.registry().ids(),
            listed_ids(written(records)).no_duplicates(),
    {
        lemma_records_are_listed(records);
        assert(record_ids(records) =~= self.registry().ids());
    }

    /// Takes the records of the live groups for a checkpoint, in the order
    /// of the registry. The first session whose record cannot be taken ends
    /// the checkpoint: the records taken before it come back together with
    /// the failure, so that the caller can store those and then report it.
    pub fn checkpoint(&self) -> (taken: Checkpoint)
        requires
            self.wf(),
        ensures
            taken.records@.len() <= self.registry().entries().len(),
            taken.failure is None <==> taken.records@.len() == self.registry().entries().len(),
            forall|i: int|
                0 <= i < taken.records@.len() ==> {
                    &&& (#[trigger] taken.records@[i]).group_id@ == self.registry().ids()[i]
                    &&& self.groups().contains_key(taken.records@[i].group_id@)
                    &&& taken.records@[i].epoch == self.groups()[taken.records@[i].group_id@]
                    &&& taken.records@[i].group_info_data@.len() > 0
                },
            taken.failure matches Some(e) ==> {
                ||| e.reports(ErrorKind::Generic, "Failed to export group info"@)
                ||| e.reports(ErrorKind::Serialization, "Failed to serialize group info"@)
                ||| e.reports(ErrorKind::Generic, "Failed to read own credential"@)
            },
    {
        let mut records: Vec<GroupRecord> = Vec::new();
        let n: usize = self.registry.len();
        let mut i: usize = 0;
        while i < n
            invariant
                self.wf(),
                n == self.registry().entries().len(),
                i <= n,
                records@.len() == i,
                forall|j: int|
                    0 <= j < i ==> {
                        &&& (#[trigger] records@[j]).group_id@ == self.registry().ids()[j]
                        &&& self.groups().contains_key(records@[j].group_id@)
                        &&& records@[j].epoch == self.groups()[records@[j].group_id@]
                        &&& records@[j].group_info_data@.len() > 0
                    },
            decreases n - i,
        {
            match record_of(self.registry.session(i), &self.provider, &self.signer) {
                Err(e) => {
                    return Checkpoint { records, failure: Some(e) };
                },
                Ok(record) => {
                    proof {
                        lemma_entry(self.registry.entries(), i as int);
                    }
                    records.push(record);
                },
            }
            i = i + 1;
        }
        Checkpoint { records, failure: None }
    }
}

} // verus!
