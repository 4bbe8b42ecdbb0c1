//! The persistence boundary: what of a group is safe to store, and how
//! stored records are listed.
//!
//! A record holds public metadata only: identifier, epoch, the signed public
//! group information and a summary of the member's credential. No secret of
//! an epoch and no private key is part of it, so a record can be listed after
//! a restart but never brought back to life as a session.
use vstd::prelude::*;
use openmls_basic_credential::SignatureKeyPair;
use openmls_rust_crypto::OpenMlsRustCrypto;
use crate::engine;
use crate::error::{lift, ErrorKind, MlsError};
use crate::session::GroupSession;
use crate::text::detail_text;

verus! {

/// What a group's own leaf says of the member: the kind of credential, the
/// identity it asserts, and the public signature key.
#[derive(Debug, PartialEq, Eq)]
pub struct CredentialSummary {
    pub credential_type: String,
    pub identity: Vec<u8>,
    pub signature_key: Vec<u8>,
}

/// The durable record of one group.
#[derive(Debug, PartialEq, Eq)]
pub struct GroupRecord {
    pub group_id: String,
    /// The epoch at the time of the checkpoint.
    pub epoch: u64,
    /// The signed public group information, in the engine's wire encoding.
    pub group_info_data: Vec<u8>,
    pub credential: CredentialSummary,
}

/// What a walk through the storage location found in one place.
pub enum StoredEntry {
    /// The place itself could not be looked at.
    EntryFault(String),
    /// A file that is no record.
    Other,
    /// A record file that could not be read.
    ReadFault(String),
    /// A record file whose content is no record.
    ParseFault(String),
    /// A record.
    Record(GroupRecord),
}

/// The name of the file that holds the record of a group.
pub open spec fn record_name(group_id: Seq<char>) -> Seq<char> {
    group_id + ".json"@
}

/// True for a file name whose extension marks a record: the name ends in
/// `.json`, and something stands before that.
pub open spec fn marks_record(name: Seq<char>) -> bool {
    &&& name.len() > 5
    &&& name[name.len() - 5] == '.'
    &&& name[name.len() - 4] == 'j'
    &&& name[name.len() - 3] == 's'
    &&& name[name.len() - 2] == 'o'
    &&& name[name.len() - 1] == 'n'
}

/// True for a place that ends the walk.
pub open spec fn is_fault(entry: StoredEntry) -> bool {
    entry is EntryFault || entry is ReadFault || entry is ParseFault
}

/// True when `e` is the failure that the faulty place `entry` stands for: a
/// place or a file that cannot be read is an I/O failure, content that is no
/// record a serialization failure.
pub open spec fn fault_of(entry: StoredEntry, e: MlsError) -> bool {
    match entry {
        StoredEntry::EntryFault(fault) => e.is(
            ErrorKind::Io,
            detail_text("Failed to read directory entry"@, fault@),
        ),
        StoredEntry::ReadFault(fault) => e.is(
            ErrorKind::Io,
            detail_text("Failed to read group file"@, fault@),
        ),
        StoredEntry::ParseFault(fault) => e.is(
            ErrorKind::Serialization,
            detail_text("Failed to deserialize group state"@, fault@),
        ),
        _ => false,
    }
}

/// The identifiers of the records among the places, in the order of the walk.
pub open spec fn listed_ids(entries: Seq<StoredEntry>) -> Seq<Seq<char>>
    decreases entries.len(),
{
    if entries.len() == 0 {
        Seq::<Seq<char>>::empty()
    } else {
        match entries.last() {
            StoredEntry::Record(record) => listed_ids(entries.drop_last()).push(record.group_id@),
            _ => listed_ids(entries.drop_last()),
        }
    }
}

/// The views of a list of texts.
pub open spec fn texts(list: Seq<String>) -> Seq<Seq<char>> {
    Seq::new(list.len(), |i: int| list[i]@)
}

/// The places that a walk finds where exactly the given records were written.
pub open spec fn written(records: Seq<GroupRecord>) -> Seq<StoredEntry> {
    Seq::new(records.len(), |i: int| StoredEntry::Record(records[i]))
}

/// The identifiers of a sequence of records, in order.
pub open spec fn record_ids(records: Seq<GroupRecord>) -> Seq<Seq<char>> {
    Seq::new(records.len(), |i: int| records[i].group_id@)
}

/// Records that were written are listed: a walk that finds exactly the given
/// records meets no fault and lists their identifiers, in order.
pub proof fn lemma_records_are_listed(records: Seq<GroupRecord>)
    ensures
        forall|i: int| 0 <= i < records.len() ==> !is_fault(#[trigger] written(records)[i]),
        listed_ids(written(records)) == record_ids(records),
    decreases records.len(),
{
    if records.len() > 0 {
        let shorter = records.drop_last();
        lemma_records_are_listed(shorter);
        assert(written(records).drop_last() =~= written(shorter));
        assert(record_ids(records) =~= record_ids(shorter).push(records.last().group_id@));
    } else {
        assert(listed_ids(written(records)) =~= record_ids(records));
    }
}

/// Names the file that holds the record of a group.
pub fn record_file_name(group_id: &str) -> (name: String)
    ensures
        name@ == record_name(group_id@),
{
    let mut name = String::from_str(group_id);
    name.append(".json");
    name
}

/// Tells whether a file of the given name holds a record.
pub fn is_record_file(name: &str) -> (b: bool)
    ensures
        b == marks_record(name@),
{
    let n: usize = name.unicode_len();
    n > 5 && name.get_char(n - 5) == '.' && name.get_char(n - 4) == 'j' && name.get_char(n - 3)
        == 's' && name.get_char(n - 2) == 'o' && name.get_char(n - 1) == 'n'
}

/// Lists the groups whose records a walk through the storage location found.
/// The first faulty place ends the walk with its failure; without a fault the
/// identifiers of all records come back, in the order of the walk. Files that
/// are no records are passed over.
pub fn saved_group_ids(entries: Vec<StoredEntry>) -> (r: Result<Vec<String>, MlsError>)
    ensures
        r is Ok <==> forall|i: int| 0 <= i < entries@.len() ==> !is_fault(#[trigger] entries@[i]),
        r matches Ok(ids) ==> texts(ids@) == listed_ids(entries@),
        r matches Err(e) ==> exists|k: int|
            {
                &&& 0 <= k < entries@.len()
                &&& fault_of(#[trigger] entries@[k], e)
                &&& forall|j: int| 0 <= j < k ==> !is_fault(#[trigger] entries@[j])
            },
{
    let mut ids: Vec<String> = Vec::new();
    let mut i: usize = 0;
    assert(entries@.take(0) =~= Seq::<StoredEntry>::empty());
    while i < entries.len()
        invariant
            i <= entries@.len(),
            forall|j: int| 0 <= j < i ==> !is_fault(#[trigger] entries@[j]),
            texts(ids@) == listed_ids(entries@.take(i as int)),
        decreases entries@.len() - i,
    {
        let ghost before = entries@.take(i as int);
        let ghost after = entries@.take(i + 1);
        assert(after.drop_last() =~= before);
        assert(after.last() == entries@[i as int]);
        match &entries[i] {
            StoredEntry::EntryFault(fault) => {
                return Err(
                    MlsError::report(
                        ErrorKind::Io,
                        "Failed to read directory entry",
                        fault.as_str(),
                    ),
                );
            },
            StoredEntry::ReadFault(fault) => {
                return Err(
                    MlsError::report(ErrorKind::Io, "Failed to read group file", fault.as_str()),
                );
            },
            StoredEntry::ParseFault(fault) => {
                return Err(
                    MlsError::report(
                        ErrorKind::Serialization,
                        "Failed to deserialize group state",
                        fault.as_str(),
                    ),
                );
            },
            StoredEntry::Other => {},
            StoredEntry::Record(record) => {
                ids.push(record.group_id.clone());
                assert(texts(ids@) =~= listed_ids(before).push(record.group_id@));
            },
        }
        i = i + 1;
    }
    assert(entries@.take(i as int) =~= entries@);
    Ok(ids)
}

/// Makes the record of a session from what the engine exported and read:
/// identifier and epoch are the session's, the group information is what was
/// exported, and the credential is what the group's own leaf says. A group
/// without a leaf of this member has no record: a generic failure.
pub fn record_from(
    session: &GroupSession,
    exported: Vec<u8>,
    credential: Option<CredentialSummary>,
) -> (r: Result<GroupRecord, MlsError>)
    ensures
        credential is None <==> r is Err,
        r matches Err(e) ==> e.is(
            ErrorKind::Generic,
            detail_text(
                "Failed to read own credential"@,
                "the group holds no leaf of this member"@,
            ),
        ) && e.reports(ErrorKind::Generic, "Failed to read own credential"@),
        r matches Ok(record) ==> {
            &&& record.group_id@ == session.group_id@
            &&& record.epoch == session.epoch
            &&& record.group_info_data@ == exported@
            &&& record.credential.credential_type@ == credential->Some_0.credential_type@
            &&& record.credential.identity@ == credential->Some_0.identity@
            &&& record.credential.signature_key@ == credential->Some_0.signature_key@
        },
{
    match credential {
        None => Err(
            MlsError::report(
                ErrorKind::Generic,
                "Failed to read own credential",
                "the group holds no leaf of this member",
            ),
        ),
        Some(credential) => Ok(
            GroupRecord {
                group_id: session.group_id.clone(),
                epoch: session.epoch,
                group_info_data: exported,
                credential,
            },
        ),
    }
}

/// Takes the record of a session: the engine exports and signs the public
/// group information, without the member tree, and the member's credential
/// is read from the group's own leaf. Identifier and epoch are the session's.
pub fn record_of(
    session: &GroupSession,
    provider: &OpenMlsRustCrypto,
    signer: &SignatureKeyPair,
) -> (r: Result<GroupRecord, MlsError>)
    ensures
        r matches Ok(record) ==> {
            &&& record.group_id@ == session.group_id@
            &&& record.epoch == session.epoch
            &&& record.group_info_data@.len() > 0
        },
        r matches Err(e) ==> {
            ||| e.reports(ErrorKind::Generic, "Failed to export group info"@)
            ||| e.reports(ErrorKind::Serialization, "Failed to serialize group info"@)
            ||| e.reports(ErrorKind::Generic, "Failed to read own credential"@)
        },
{
    let info = match lift(
        engine::export_group_info(&session.group, provider, signer, false),
        ErrorKind::Generic,
        "Failed to export group info",
    ) {
        Err(e) => { return Err(e); },
        Ok(info) => info,
    };
    let exported = match lift(
        engine::message_to_wire(&info),
        ErrorKind::Serialization,
        "Failed to serialize group info",
    ) {
        Err(e) => { return Err(e); },
        Ok(bytes) => bytes,
    };
    record_from(session, exported, engine::own_credential(&session.group))
}

} // verus!
