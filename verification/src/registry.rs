//! The group registry: which sessions are live, each under its identifier.
//!
//! The registry stands for a mapping from identifier to session. It keeps the
//! sessions in a vector, in the order in which they were registered, and its
//! invariant is what a mapping gives for free: no identifier occurs twice.
//!
//! A `HashMap` keyed by the identifier would carry no proof: vstd specifies
//! it for keys whose hashing it models, and `String` is not among them, so
//! that neither the length after an insertion nor the success of a lookup can
//! be shown.
use vstd::prelude::*;
use crate::session::GroupSession;

verus! {

/// The identifiers of a sequence of sessions, in order.
pub open spec fn ids_of(entries: Seq<GroupSession>) -> Seq<Seq<char>> {
    Seq::new(entries.len(), |i: int| entries[i].group_id@)
}

/// True when no two sessions of the sequence share an identifier.
pub open spec fn distinct(entries: Seq<GroupSession>) -> bool {
    ids_of(entries).no_duplicates()
}

/// The mapping that a sequence of sessions stands for: from each identifier
/// to the epoch of the session that bears it.
pub open spec fn epochs_of(entries: Seq<GroupSession>) -> Map<Seq<char>, u64> {
    Map::new(
        |id: Seq<char>| ids_of(entries).contains(id),
        |id: Seq<char>| entries[ids_of(entries).index_of(id)].epoch,
    )
}

/// True when no group of `before` is missing from `after`: a registry only
/// grows.
pub open spec fn keeps_groups(before: Map<Seq<char>, u64>, after: Map<Seq<char>, u64>) -> bool {
    forall|id: Seq<char>| before.contains_key(id) ==> after.contains_key(id)
}

/// True when no group of `before` is missing from `after` or at a lower
/// epoch there: an epoch never goes back.
pub open spec fn carries_on(before: Map<Seq<char>, u64>, after: Map<Seq<char>, u64>) -> bool {
    forall|id: Seq<char>|
        before.contains_key(id) ==> after.contains_key(id) && before[id] <= after[id]
}

/// True when every session of `before` that does not bear `group_id` stands
/// in `after` in the same place, unchanged in every part.
pub open spec fn others_untouched(
    before: Seq<GroupSession>,
    after: Seq<GroupSession>,
    group_id: Seq<char>,
) -> bool {
    forall|i: int|
        0 <= i < before.len() && (#[trigger] before[i]).group_id@ != group_id ==> i < after.len()
            && after[i] == before[i]
}

/// Among distinct sessions, each is found under its own identifier.
pub proof fn lemma_entry(entries: Seq<GroupSession>, i: int)
    requires
        distinct(entries),
        0 <= i < entries.len(),
    ensures
        epochs_of(entries).contains_key(entries[i].group_id@),
        epochs_of(entries)[entries[i].group_id@] == entries[i].epoch,
{
    let ids = ids_of(entries);
    assert(ids[i] == entries[i].group_id@);
    let j = ids.index_of(ids[i]);
    assert(0 <= j < ids.len() && ids[j] == ids[i]);
    assert(j == i);
}

/// An identifier is mapped exactly when some session of the sequence bears it.
pub proof fn lemma_mapped(entries: Seq<GroupSession>, id: Seq<char>)
    ensures
        epochs_of(entries).contains_key(id) <==> exists|i: int|
            0 <= i < entries.len() && #[trigger] entries[i].group_id@ == id,
{
    let ids = ids_of(entries);
    if ids.contains(id) {
        let i = choose|i: int| 0 <= i < ids.len() && ids[i] == id;
        assert(entries[i].group_id@ == id);
    }
    if exists|i: int| 0 <= i < entries.len() && #[trigger] entries[i].group_id@ == id {
        let i = choose|i: int| 0 <= i < entries.len() && #[trigger] entries[i].group_id@ == id;
        assert(ids[i] == id);
    }
}

/// Replacing a session by one of the same identifier keeps the sessions
/// distinct and maps that identifier to the new epoch, leaving every other
/// identifier as it was.
pub proof fn lemma_changed(entries: Seq<GroupSession>, i: int, session: GroupSession)
    requires
        distinct(entries),
        0 <= i < entries.len(),
        session.group_id@ == entries[i].group_id@,
    ensures
        distinct(entries.update(i, session)),
        ids_of(entries.update(i, session)) == ids_of(entries),
        epochs_of(entries.update(i, session)) == epochs_of(entries).insert(
            session.group_id@,
            session.epoch,
        ),
{
    let after = entries.update(i, session);
    assert(ids_of(after) =~= ids_of(entries));
    let ids = ids_of(entries);
    assert forall|id: Seq<char>| ids.contains(id) implies #[trigger] epochs_of(after)[id]
        == epochs_of(entries).insert(session.group_id@, session.epoch)[id] by {
        let j = ids.index_of(id);
        assert(0 <= j < ids.len() && ids[j] == id);
        if id == session.group_id@ {
            assert(ids[i] == id);
            assert(j == i);
        } else {
            assert(j != i);
        }
    }
    assert(ids.contains(ids[i]));
    assert(epochs_of(after) =~= epochs_of(entries).insert(session.group_id@, session.epoch));
}

/// What a change to the session in one place does to a registry, as long as
/// the session keeps its identifier: the sessions stay distinct, the
/// identifier is mapped to the session's new epoch, every other identifier is
/// mapped as before, and every other session is untouched.
pub proof fn lemma_session_changed(before: Seq<GroupSession>, after: Seq<GroupSession>, i: int)
    requires
        distinct(before),
        0 <= i < before.len(),
        after == before.update(i, after[i]),
        after[i].group_id@ == before[i].group_id@,
    ensures
        distinct(after),
        epochs_of(before).contains_key(before[i].group_id@),
        epochs_of(before)[before[i].group_id@] == before[i].epoch,
        epochs_of(after) == epochs_of(before).insert(before[i].group_id@, after[i].epoch),
        after[i].epoch == before[i].epoch ==> epochs_of(after) == epochs_of(before),
        others_untouched(before, after, before[i].group_id@),
{
    lemma_entry(before, i);
    lemma_changed(before, i, after[i]);
    if after[i].epoch == before[i].epoch {
        assert(epochs_of(after) =~= epochs_of(before));
    }
}

/// Appending a session whose identifier is new keeps the sessions distinct
/// and maps that identifier to its epoch, leaving every other as it was.
pub proof fn lemma_added(entries: Seq<GroupSession>, session: GroupSession)
    requires
        distinct(entries),
        !epochs_of(entries).contains_key(session.group_id@),
    ensures
        distinct(entries.push(session)),
        ids_of(entries.push(session)) == ids_of(entries).push(session.group_id@),
        epochs_of(entries.push(session)) == epochs_of(entries).insert(
            session.group_id@,
            session.epoch,
        ),
{
    let after = entries.push(session);
    let ids = ids_of(entries);
    let ids_after = ids_of(after);
    assert(ids_after =~= ids.push(session.group_id@));
    assert forall|a: int, b: int|
        0 <= a < ids_after.len() && 0 <= b < ids_after.len() && a != b implies ids_after[a]
        != ids_after[b] by {
        if a < ids.len() {
            assert(ids.contains(ids[a]));
        }
        if b < ids.len() {
            assert(ids.contains(ids[b]));
        }
    }
    let n = entries.len() as int;
    assert(ids_after[n] == session.group_id@);
    assert forall|id: Seq<char>| ids_after.contains(id) implies #[trigger] epochs_of(after)[id]
        == epochs_of(entries).insert(session.group_id@, session.epoch)[id] by {
        let j = ids_after.index_of(id);
        assert(0 <= j < ids_after.len() && ids_after[j] == id);
        if id == session.group_id@ {
            assert(j == n);
        } else {
            assert(j < n);
            assert(ids[j] == id);
            let k = ids.index_of(id);
            assert(0 <= k < ids.len() && ids[k] == id);
            assert(k == j);
        }
    }
    assert forall|id: Seq<char>| ids_after.contains(id) <==> (ids.contains(id) || id
        == session.group_id@) by {
        if ids_after.contains(id) {
            let j = choose|j: int| 0 <= j < ids_after.len() && ids_after[j] == id;
            if j < n {
                assert(ids[j] == id);
            }
        }
        if ids.contains(id) {
            let j = choose|j: int| 0 <= j < ids.len() && ids[j] == id;
            assert(ids_after[j] == id);
        }
    }
    assert(epochs_of(after) =~= epochs_of(entries).insert(session.group_id@, session.epoch));
}

/// The live sessions of a client.
pub struct GroupRegistry {
    sessions: Vec<GroupSession>,
}

impl GroupRegistry {
    /// The sessions, in the order in which they were registered.
    pub closed spec fn entries(&self) -> Seq<GroupSession> {
        self.sessions@
    }

    /// The invariant: no identifier is registered twice.
    pub open spec fn wf(&self) -> bool {
        distinct(self.entries())
    }

    /// The identifiers that are registered, in order of registration.
    pub open spec fn ids(&self) -> Seq<Seq<char>> {
        ids_of(self.entries())
    }

    /// The registry as a mapping from identifier to current epoch.
    pub open spec fn epochs(&self) -> Map<Seq<char>, u64> {
        epochs_of(self.entries())
    }

    /// An empty registry.
    pub fn new() -> (registry: GroupRegistry)
        ensures
            registry.wf(),
            registry.entries() == Seq::<GroupSession>::empty(),
            registry.epochs() == Map::<Seq<char>, u64>::empty(),
    {
        let registry = GroupRegistry { sessions: Vec::new() };
        assert(registry.epochs() =~= Map::<Seq<char>, u64>::empty());
        registry
    }

    /// The number of sessions.
    pub fn len(&self) -> (n: usize)
        ensures
            n == self.entries().len(),
    {
        self.sessions.len()
    }

    /// Finds the place of the session with the given identifier.
    pub fn position(&self, group_id: &String) -> (r: Option<usize>)
        ensures
            r is Some <==> self.epochs().contains_key(group_id@),
            r matches Some(i) ==> i < self.entries().len() && self.entries()[i as int].group_id@
                == group_id@,
    {
        let mut i: usize = 0;
        while i < self.sessions.len()
            invariant
                i <= self.sessions.len(),
                forall|j: int| 0 <= j < i ==> (#[trigger] self.sessions@[j]).group_id@ != group_id@,
            decreases self.sessions.len() - i,
        {
            if self.sessions[i].group_id == *group_id {
                proof {
                    lemma_mapped(self.entries(), group_id@);
                }
                return Some(i);
            }
            i = i + 1;
        }
        proof {
            lemma_mapped(self.entries(), group_id@);
        }
        None
    }

    /// The session at a place.
    pub fn session(&self, i: usize) -> (session: &GroupSession)
        requires
            i < self.entries().len(),
        ensures
            *session == self.entries()[i as int],
    {
        &self.sessions[i]
    }

    /// Lends the session at a place for change. The registry afterwards
    /// holds in that place whatever the borrower left there.
    pub(crate) fn session_mut(&mut self, i: usize) -> (session: &mut GroupSession)
        requires
            i < old(self).entries().len(),
        ensures
            *session == old(self).entries()[i as int],
            final(self).entries() == old(self).entries().update(i as int, *final(session)),
    {
        &mut self.sessions[i]
    }

    /// Registers a session under its identifier. A session that was
    /// registered under the same identifier gives way to the new one.
    pub fn register(&mut self, session: GroupSession)
        requires
            old(self).wf(),
        ensures
            final(self).wf(),
            final(self).epochs() == old(self).epochs().insert(session.group_id@, session.epoch),
            final(self).entries() == if old(self).epochs().contains_key(session.group_id@) {
                old(self).entries().update(old(self).ids().index_of(session.group_id@), session)
            } else {
                old(self).entries().push(session)
            },
            others_untouched(old(self).entries(), final(self).entries(), session.group_id@),
    {
        match self.position(&session.group_id) {
            Some(i) => {
                proof {
                    lemma_changed(self.entries(), i as int, session);
                    let ids = self.ids();
                    let j = ids.index_of(session.group_id@);
                    assert(ids[i as int] == session.group_id@);
                    assert(0 <= j < ids.len() && ids[j] == session.group_id@);
                }
                self.sessions[i] = session;
            },
            None => {
                proof {
                    lemma_added(self.entries(), session);
                }
                self.sessions.push(session);
            },
        }
    }

    /// The identifiers that are registered, each once.
    pub fn identifiers(&self) -> (list: Vec<String>)
        ensures
            list@.len() == self.entries().len(),
            forall|i: int| 0 <= i < list@.len() ==> (#[trigger] list@[i])@ == self.ids()[i],
    {
        let mut list: Vec<String> = Vec::new();
        let mut i: usize = 0;
        while i < self.sessions.len()
            invariant
                i <= self.sessions.len(),
                list@.len() == i,
                forall|j: int|
                    0 <= j < i ==> (#[trigger] list@[j])@ == self.sessions@[j].group_id@,
            decreases self.sessions.len() - i,
        {
            list.push(self.sessions[i].group_id.clone());
            i = i + 1;
        }
        list
    }
}

} // verus!
