use mls_session::codec::{read_key_package, read_welcome, wire_bytes};
use mls_session::engine::Processed;
use mls_session::error::{ErrorKind, MlsError};
use mls_session::persist::{record_from, record_of, CredentialSummary};
use mls_session::registry::GroupRegistry;
use mls_session::session::{read_protocol_message, validated, welcomes_carry_tree, GroupSession};
use openmls::prelude::tls_codec::Deserialize;
use openmls::prelude::{
    Ciphersuite, Credential, CredentialType, CredentialWithKey, KeyPackage, KeyPackageIn,
    OpenMlsProvider, ProcessedMessageContent, ProtocolVersion,
};
use openmls_basic_credential::SignatureKeyPair;
use openmls_rust_crypto::OpenMlsRustCrypto;

struct Member {
    provider: OpenMlsRustCrypto,
    signer: SignatureKeyPair,
    credential: CredentialWithKey,
}

fn suite() -> Ciphersuite {
    Ciphersuite::MLS_128_DHKEMX25519_AES128GCM_SHA256_Ed25519
}

fn member(name: &str) -> Member {
    let signer = SignatureKeyPair::new(suite().signature_algorithm()).unwrap();
    let credential = CredentialWithKey {
        credential: Credential::new(CredentialType::Basic, name.as_bytes().to_vec()),
        signature_key: signer.to_public_vec().into(),
    };
    Member { provider: OpenMlsRustCrypto::default(), signer, credential }
}

fn key_package_of(m: &Member) -> KeyPackage {
    KeyPackage::builder()
        .build(suite(), &m.provider, &m.signer, m.credential.clone())
        .unwrap()
        .key_package()
        .clone()
}

fn split_reply(reply: &str) -> (String, String) {
    let head = "{\"commit\":\"";
    let mid = "\",\"welcome\":\"";
    let body = &reply[head.len()..reply.len() - 2];
    let at = body.find(mid).unwrap();
    (body[..at].to_string(), body[at + mid.len()..].to_string())
}

#[test]
fn created_session_starts_at_epoch_zero() {
    let a = member("alice");
    let s = GroupSession::create(&a.provider, &a.signer, &a.credential).unwrap();
    assert_eq!(s.epoch, 0);
    assert_eq!(s.group.epoch().as_u64(), 0);
    assert_eq!(s.group_id, hex::encode(s.group.group_id().as_slice()));
    assert_eq!(
        s.info(),
        format!("{{\"group_id\":\"{}\",\"epoch\":0,\"member_count\":1}}", s.group_id)
    );
}

#[test]
fn session_epoch_follows_the_engine() {
    let a = member("alice");
    let b = member("bob");
    let c = member("carol");
    let mut sa = GroupSession::create(&a.provider, &a.signer, &a.credential).unwrap();
    let (_, welcome) =
        split_reply(&sa.add_member(&a.provider, &a.signer, key_package_of(&b)).unwrap());
    assert_eq!(sa.epoch, 1);
    assert_eq!(sa.group.epoch().as_u64(), 1);
    let mut sb = GroupSession::join(&b.provider, &welcome).unwrap();
    assert_eq!(sb.group_id, sa.group_id);
    assert_eq!(sb.epoch, 1);
    let (commit, _) =
        split_reply(&sa.add_member(&a.provider, &a.signer, key_package_of(&c)).unwrap());
    assert_eq!(sa.epoch, 2);
    assert_eq!(sa.group.epoch().as_u64(), 2);
    let message = read_protocol_message(&commit, "decode", "parse").unwrap();
    sb.apply_commit(&b.provider, message).unwrap();
    assert_eq!(sb.epoch, 2);
    assert_eq!(sb.group.epoch().as_u64(), 2);
    let ciphertext = sb.encrypt(&b.provider, &b.signer, "from bob").unwrap();
    let message = read_protocol_message(&ciphertext, "decode", "parse").unwrap();
    assert_eq!(sa.decrypt(&a.provider, message).unwrap(), "from bob");
    assert_eq!((sa.epoch, sb.epoch), (2, 2));
}

#[test]
fn merge_processed_merges_commits_only() {
    let a = member("alice");
    let b = member("bob");
    let c = member("carol");
    let mut sa = GroupSession::create(&a.provider, &a.signer, &a.credential).unwrap();
    let (_, welcome) =
        split_reply(&sa.add_member(&a.provider, &a.signer, key_package_of(&b)).unwrap());
    let mut sb = GroupSession::join(&b.provider, &welcome).unwrap();
    for content in [
        Processed::Proposal,
        Processed::Application(b"x".to_vec()),
        Processed::ExternalJoinProposal,
        Processed::OwnPendingCommit,
        Processed::OwnPrivateMessage,
    ] {
        let e = sb.merge_processed(&b.provider, content).unwrap_err();
        assert_eq!(
            e,
            MlsError::Generic {
                msg: "Failed to process commit: the message holds no commit".to_string()
            }
        );
        assert_eq!(sb.epoch, 1);
    }
    assert_eq!(sb.group.epoch().as_u64(), 1);
    let (commit, _) =
        split_reply(&sa.add_member(&a.provider, &a.signer, key_package_of(&c)).unwrap());
    let message = read_protocol_message(&commit, "decode", "parse").unwrap();
    let processed = sb.group.process_message(&b.provider, message).unwrap();
    let staged = match processed.into_content() {
        ProcessedMessageContent::StagedCommitMessage(staged) => *staged,
        _ => panic!("a commit was expected"),
    };
    sb.merge_processed(&b.provider, Processed::StagedCommit(staged)).unwrap();
    assert_eq!(sb.epoch, 2);
    assert_eq!(sb.group.epoch().as_u64(), 2);
}

#[test]
fn settle_moves_to_the_epoch_that_the_engine_reports() {
    let a = member("alice");
    let mut s = GroupSession::create(&a.provider, &a.signer, &a.credential).unwrap();
    s.settle(Ok(()), 1, "Failed to merge pending commit").unwrap();
    assert_eq!(s.epoch, 1);
    let e = s
        .settle(Err("StorageError".to_string()), 2, "Failed to merge pending commit")
        .unwrap_err();
    assert_eq!(
        e,
        MlsError::Generic { msg: "Failed to merge pending commit: StorageError".to_string() }
    );
    assert_eq!(s.epoch, 1);
    for observed in [0, 1, 3, u64::MAX] {
        let e = s.settle(Ok(()), observed, "Failed to merge staged commit").unwrap_err();
        assert_eq!(
            e,
            MlsError::Generic {
                msg: "Failed to merge staged commit: the engine is not at the next epoch"
                    .to_string()
            }
        );
        assert_eq!(s.epoch, 1);
    }
    s.epoch = u64::MAX - 1;
    s.settle(Ok(()), u64::MAX, "x").unwrap();
    assert_eq!(s.epoch, u64::MAX);
    let e = s.settle(Ok(()), 0, "x").unwrap_err();
    assert_eq!(e.kind(), ErrorKind::Generic);
    assert_eq!(s.epoch, u64::MAX);
}

#[test]
fn a_new_group_must_be_at_epoch_zero() {
    let a = member("alice");
    let made = GroupSession::create(&a.provider, &a.signer, &a.credential).unwrap();
    let s = GroupSession::started(made.group, &[0x0a, 0x0b], 0).unwrap();
    assert_eq!((s.group_id.as_str(), s.epoch), ("0a0b", 0));
    let e = match GroupSession::started(s.group, &[0x0a, 0x0b], 1) {
        Ok(_) => panic!("a group at epoch 1 is no new group"),
        Err(e) => e,
    };
    assert_eq!(
        e,
        MlsError::Generic { msg: "Failed to create group: the new group is not at epoch 0".to_string() }
    );
}

#[test]
fn welcomes_are_told_from_other_messages() {
    let a = member("alice");
    let b = member("bob");
    let mut sa = GroupSession::create(&a.provider, &a.signer, &a.credential).unwrap();
    let (commit, welcome) =
        split_reply(&sa.add_member(&a.provider, &a.signer, key_package_of(&b)).unwrap());
    assert!(read_welcome(&welcome).is_ok());
    let e = read_welcome(&commit).unwrap_err();
    assert_eq!(
        e,
        MlsError::Generic { msg: "Expected Welcome message, got different type".to_string() }
    );
    let ciphertext = sa.encrypt(&a.provider, &a.signer, "hi").unwrap();
    let e = read_welcome(&ciphertext).unwrap_err();
    assert_eq!(e.kind(), ErrorKind::Generic);
    let e = read_welcome("00").unwrap_err();
    assert_eq!(e.kind(), ErrorKind::Serialization);
    assert!(e.detail().starts_with("Failed to deserialize welcome: "));
    let e = read_welcome("0").unwrap_err();
    assert_eq!(e.detail(), "Failed to decode welcome hex: OddLength");
    assert!(read_protocol_message(&commit, "decode", "parse").is_ok());
    assert!(read_protocol_message(&ciphertext, "decode", "parse").is_ok());
    let e = read_protocol_message("00", "decode", "parse").unwrap_err();
    assert!(e.detail().starts_with("parse: "));
    assert_eq!(&welcome[..8], "00010003");
    assert_eq!(&commit[..6], "000100");
    assert!(&commit[6..8] == "01" || &commit[6..8] == "02");
    assert_eq!(&ciphertext[..8], "00010002");
}

#[test]
fn a_new_group_embeds_the_member_tree() {
    assert!(welcomes_carry_tree());
    let a = member("alice");
    let b = member("bob");
    let mut sa = GroupSession::create(&a.provider, &a.signer, &a.credential).unwrap();
    let (_, welcome) =
        split_reply(&sa.add_member(&a.provider, &a.signer, key_package_of(&b)).unwrap());
    let sb = GroupSession::join(&b.provider, &welcome).unwrap();
    assert_eq!(sb.group.members().count(), 2);
}

#[test]
fn record_is_made_of_what_was_exported_and_read() {
    let a = member("alice");
    let mut s = GroupSession::create(&a.provider, &a.signer, &a.credential).unwrap();
    s.epoch = 4;
    let credential = CredentialSummary {
        credential_type: "Basic".to_string(),
        identity: b"alice".to_vec(),
        signature_key: vec![7, 8, 9],
    };
    let record = record_from(&s, vec![1, 2, 3], Some(credential)).unwrap();
    assert_eq!(record.group_id, s.group_id);
    assert_eq!(record.epoch, 4);
    assert_eq!(record.group_info_data, vec![1, 2, 3]);
    assert_eq!(record.credential.credential_type, "Basic");
    assert_eq!(record.credential.identity, b"alice".to_vec());
    assert_eq!(record.credential.signature_key, vec![7, 8, 9]);
    let e = record_from(&s, vec![1, 2, 3], None).unwrap_err();
    assert_eq!(
        e,
        MlsError::Generic {
            msg: "Failed to read own credential: the group holds no leaf of this member"
                .to_string()
        }
    );
}

#[test]
fn exhausted_epoch_refuses_a_new_member() {
    let a = member("alice");
    let b = member("bob");
    let mut s = GroupSession::create(&a.provider, &a.signer, &a.credential).unwrap();
    s.epoch = u64::MAX;
    let e = s.add_member(&a.provider, &a.signer, key_package_of(&b)).unwrap_err();
    assert_eq!(
        e,
        MlsError::Generic { msg: "Failed to add member: the epoch counter is exhausted".to_string() }
    );
    assert_eq!(s.epoch, u64::MAX);
    assert_eq!(s.group.epoch().as_u64(), 0);
    assert_eq!(s.group.members().count(), 1);
}

#[test]
fn key_packages_are_read_and_validated() {
    let a = member("alice");
    let b = member("bob");
    let text = mls_session::codec::key_package_text(&key_package_of(&b)).unwrap();
    let arrived = read_key_package(&text).unwrap();
    let valid = validated(arrived, &a.provider).unwrap();
    assert_eq!(valid, key_package_of_text(&text));
    let e = read_key_package("0").unwrap_err();
    assert_eq!(e.kind(), ErrorKind::Serialization);
    assert_eq!(e.detail(), "Failed to decode key package hex: OddLength");
    let e = read_key_package("ffff").unwrap_err();
    assert!(e.detail().starts_with("Failed to deserialize key package: "));
}

fn key_package_of_text(text: &str) -> KeyPackage {
    let bytes = wire_bytes(text, "kp").unwrap();
    let provider = OpenMlsRustCrypto::default();
    KeyPackageIn::tls_deserialize(&mut bytes.as_slice())
        .unwrap()
        .validate(provider.crypto(), ProtocolVersion::default())
        .unwrap()
}

#[test]
fn a_welcome_is_no_protocol_message() {
    let a = member("alice");
    let b = member("bob");
    let mut sa = GroupSession::create(&a.provider, &a.signer, &a.credential).unwrap();
    let (_, welcome) =
        split_reply(&sa.add_member(&a.provider, &a.signer, key_package_of(&b)).unwrap());
    let e = read_protocol_message(&welcome, "decode", "parse").unwrap_err();
    assert_eq!(e.kind(), ErrorKind::Serialization);
    assert!(e.detail().starts_with("Failed to convert to protocol message: "));
}

#[test]
fn record_holds_the_sessions_identifier_and_epoch() {
    let a = member("alice");
    let b = member("bob");
    let mut s = GroupSession::create(&a.provider, &a.signer, &a.credential).unwrap();
    s.add_member(&a.provider, &a.signer, key_package_of(&b)).unwrap();
    let record = record_of(&s, &a.provider, &a.signer).unwrap();
    assert_eq!(record.group_id, s.group_id);
    assert_eq!(record.epoch, 1);
    assert_eq!(record.credential.credential_type, "Basic");
    assert_eq!(record.credential.identity, b"alice".to_vec());
    assert_eq!(record.credential.signature_key, a.signer.to_public_vec());
    assert!(!record.group_info_data.is_empty());
}

#[test]
fn registry_keeps_one_session_for_each_identifier() {
    let a = member("alice");
    let mut registry = GroupRegistry::new();
    assert_eq!(registry.len(), 0);
    assert!(registry.identifiers().is_empty());
    let s1 = GroupSession::create(&a.provider, &a.signer, &a.credential).unwrap();
    let s2 = GroupSession::create(&a.provider, &a.signer, &a.credential).unwrap();
    let (id1, id2) = (s1.group_id.clone(), s2.group_id.clone());
    assert_eq!(registry.position(&id1), None);
    registry.register(s1);
    registry.register(s2);
    assert_eq!(registry.len(), 2);
    assert_eq!(registry.position(&id1), Some(0));
    assert_eq!(registry.position(&id2), Some(1));
    assert_eq!(registry.position(&"missing".to_string()), None);
    assert_eq!(registry.identifiers(), vec![id1.clone(), id2.clone()]);
    let mut again = GroupSession::create(&a.provider, &a.signer, &a.credential).unwrap();
    again.group_id = id1.clone();
    again.epoch = 5;
    registry.register(again);
    assert_eq!(registry.len(), 2);
    assert_eq!(registry.identifiers(), vec![id1.clone(), id2.clone()]);
    assert_eq!(registry.session(0).epoch, 5);
    assert_eq!(registry.session(1).epoch, 0);
    assert_eq!(registry.session(1).group_id, id2);
}

#[test]
fn assembled_session_bears_the_text_of_the_raw_identifier() {
    let a = member("alice");
    let made = GroupSession::create(&a.provider, &a.signer, &a.credential).unwrap();
    let raw = made.group.group_id().to_vec();
    let s = GroupSession::assemble(made.group, &[0x00, 0xab, 0xcd], 7);
    assert_eq!(s.group_id, "00abcd");
    assert_eq!(s.epoch, 7);
    assert_eq!(s.group.group_id().to_vec(), raw);
    let again = GroupSession::assemble(s.group, &raw, 0);
    assert_eq!(again.group_id, made.group_id);
    assert_eq!(again.epoch, 0);
}
