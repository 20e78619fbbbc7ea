//! The session registry: a table of named sessions, each carrying an
//! identifier issued by the table, an optional parent identifier resolved
//! once at creation, a response-channel state (buffering or forwarding),
//! and an arbitrary payload owned by the session.
//!
//! The table is modelled as a finite map from session names to session
//! models, together with the next identifier to issue. Identifiers are
//! issued in increasing order, so an identifier is never reused while the
//! table lives.

use vstd::prelude::*;

use crate::SessionError;

verus! {

/// One active session: a caller-chosen unique name, a table-issued
/// identifier, the identifier of the parent session resolved when the
/// session was created (if one was named), whether the response channel
/// has been connected to a listener, and the payload the session owns.
pub struct Session<T> {
    pub name: String,
    pub id: u64,
    pub parent: Option<u64>,
    pub connected: bool,
    pub payload: T,
}

/// The mathematical model of one session: everything but the name, which
/// serves as the key.
#[verifier::ext_equal]
pub ghost struct SessionModel<T> {
    pub id: u64,
    pub parent: Option<u64>,
    pub connected: bool,
    pub payload: T,
}

impl<T> Session<T> {
    pub open spec fn model(self) -> SessionModel<T> {
        SessionModel {
            id: self.id,
            parent: self.parent,
            connected: self.connected,
            payload: self.payload,
        }
    }
}

/// The mathematical model of the whole table: the sessions keyed by name,
/// and the identifier the next registration will receive.
#[verifier::ext_equal]
pub ghost struct TableModel<T> {
    pub sessions: Map<Seq<char>, SessionModel<T>>,
    pub next_id: u64,
}

/// The map that a sequence of sessions denotes: later entries shadow
/// earlier ones, though a well-formed table never has two entries with
/// one name.
pub open spec fn map_of<T>(s: Seq<Session<T>>) -> Map<Seq<char>, SessionModel<T>>
    decreases s.len(),
{
    if s.len() == 0 {
        Map::empty()
    } else {
        map_of(s.drop_last()).insert(s.last().name@, s.last().model())
    }
}

/// No two entries carry the same name.
pub open spec fn distinct_names<T>(s: Seq<Session<T>>) -> bool {
    forall|i: int, j: int| 0 <= i < j < s.len() ==> s[i].name@ != s[j].name@
}

/// Every issued identifier is below the next one to issue.
pub open spec fn ids_below<T>(s: Seq<Session<T>>, next: u64) -> bool {
    forall|i: int| 0 <= i < s.len() ==> #[trigger] s[i].id < next
}

/// No two entries carry the same identifier.
pub open spec fn distinct_ids<T>(s: Seq<Session<T>>) -> bool {
    forall|i: int, j: int| 0 <= i < j < s.len() ==> s[i].id != s[j].id
}

/// The session registry. At most one session exists per name, and
/// identifiers are unique across sessions and never reused.
pub struct SessionTable<T> {
    entries: Vec<Session<T>>,
    next_id: u64,
}

impl<T> View for SessionTable<T> {
    type V = TableModel<T>;

    closed spec fn view(&self) -> TableModel<T> {
        TableModel { sessions: map_of(self.entries@), next_id: self.next_id }
    }
}

impl<T> SessionTable<T> {
    /// The table's invariant: names unique, identifiers unique and below
    /// the next identifier to issue.
    pub closed spec fn wf(self) -> bool {
        &&& distinct_names(self.entries@)
        &&& ids_below(self.entries@, self.next_id)
        &&& distinct_ids(self.entries@)
    }
}

/// The name of a session is a key of the denoted map exactly when an entry
/// carries it.
pub proof fn lemma_map_of_domain<T>(s: Seq<Session<T>>, n: Seq<char>)
    ensures
        map_of(s).contains_key(n) <==> exists|i: int| 0 <= i < s.len() && #[trigger] s[i].name@ == n,
    decreases s.len(),
{
    if s.len() == 0 {
    } else {
        let dl = s.drop_last();
        lemma_map_of_domain(dl, n);
        if map_of(s).contains_key(n) {
            if n == s.last().name@ {
                assert(s[s.len() - 1].name@ == n);
            } else {
                let i = choose|i: int| 0 <= i < dl.len() && #[trigger] dl[i].name@ == n;
                assert(s[i].name@ == n);
            }
        }
        if exists|i: int| 0 <= i < s.len() && #[trigger] s[i].name@ == n {
            let i = choose|i: int| 0 <= i < s.len() && #[trigger] s[i].name@ == n;
            if i < s.len() - 1 {
                assert(dl[i].name@ == n);
            }
        }
    }
}

/// In a table with distinct names, the denoted map sends each entry's name
/// to that entry's model.
pub proof fn lemma_map_of_index<T>(s: Seq<Session<T>>, i: int)
    requires
        distinct_names(s),
        0 <= i < s.len(),
    ensures
        map_of(s).contains_key(s[i].name@),
        map_of(s)[s[i].name@] == s[i].model(),
    decreases s.len(),
{
    if i == s.len() - 1 {
    } else {
        let dl = s.drop_last();
        lemma_map_of_index(dl, i);
        assert(s[i].name@ != s[s.len() - 1].name@);
    }
}

/// Well-formedness exported at the model level: active sessions carry
/// pairwise-distinct identifiers, and every identifier already issued is
/// below the next one to issue, so an identifier is never reused while
/// its session is registered.
pub proof fn lemma_wf_ids_distinct<T>(t: SessionTable<T>)
    requires
        t.wf(),
    ensures
        forall|n1: Seq<char>, n2: Seq<char>|
            #![trigger t@.sessions[n1], t@.sessions[n2]]
            t@.sessions.contains_key(n1) && t@.sessions.contains_key(n2) && n1 != n2
                ==> t@.sessions[n1].id != t@.sessions[n2].id,
        forall|n: Seq<char>| #[trigger] t@.sessions.contains_key(n) ==> t@.sessions[n].id
            < t@.next_id,
{
    let s = t.entries@;
    assert forall|n1: Seq<char>, n2: Seq<char>|
        t@.sessions.contains_key(n1) && t@.sessions.contains_key(n2) && n1
            != n2 implies t@.sessions[n1].id != t@.sessions[n2].id by {
        lemma_map_of_domain(s, n1);
        lemma_map_of_domain(s, n2);
        let i1 = choose|i: int| 0 <= i < s.len() && #[trigger] s[i].name@ == n1;
        let i2 = choose|i: int| 0 <= i < s.len() && #[trigger] s[i].name@ == n2;
        lemma_map_of_index(s, i1);
        lemma_map_of_index(s, i2);
        assert(i1 != i2);
    }
    assert forall|n: Seq<char>| t@.sessions.contains_key(n) implies t@.sessions[n].id
        < t@.next_id by {
        lemma_map_of_domain(s, n);
        let i = choose|i: int| 0 <= i < s.len() && #[trigger] s[i].name@ == n;
        lemma_map_of_index(s, i);
    }
}

/// Appending an entry with a fresh name denotes inserting its model.
pub proof fn lemma_map_of_push<T>(s: Seq<Session<T>>, e: Session<T>)
    ensures
        map_of(s.push(e)) == map_of(s).insert(e.name@, e.model()),
{
    assert(s.push(e).drop_last() =~= s);
    assert(s.push(e).last() == e);
}

/// Removing the entry at one index denotes removing its name from the map,
/// provided names are distinct.
pub proof fn lemma_map_of_remove<T>(s: Seq<Session<T>>, i: int)
    requires
        distinct_names(s),
        0 <= i < s.len(),
    ensures
        map_of(s.remove(i)) == map_of(s).remove(s[i].name@),
    decreases s.len(),
{
    let n = s[i].name@;
    if i == s.len() - 1 {
        assert(s.remove(i) =~= s.drop_last());
        lemma_map_of_domain(s.drop_last(), n);
        assert(forall|j: int|
            0 <= j < s.drop_last().len() ==> #[trigger] s.drop_last()[j].name@ != n);
        assert(!map_of(s.drop_last()).contains_key(n));
        assert(map_of(s.drop_last()).insert(n, s[i].model()).remove(n) =~= map_of(s.drop_last()));
    } else {
        let dl = s.drop_last();
        let e = s.last();
        assert(distinct_names(dl));
        lemma_map_of_remove(dl, i);
        assert(s.remove(i).drop_last() =~= dl.remove(i));
        assert(s.remove(i).last() == e);
        assert(map_of(s.remove(i)) == map_of(dl.remove(i)).insert(e.name@, e.model()));
        assert(e.name@ != n);
        assert(map_of(dl).insert(e.name@, e.model()).remove(n) =~= map_of(dl).remove(n).insert(
            e.name@,
            e.model(),
        ));
    }
}

/// Replacing the entry at one index by one with the same name denotes
/// inserting the new model under that name, provided names are distinct.
pub proof fn lemma_map_of_update<T>(s: Seq<Session<T>>, i: int, e2: Session<T>)
    requires
        distinct_names(s),
        0 <= i < s.len(),
        e2.name@ == s[i].name@,
    ensures
        map_of(s.update(i, e2)) == map_of(s).insert(e2.name@, e2.model()),
    decreases s.len(),
{
    let n = s[i].name@;
    if i == s.len() - 1 {
        assert(s.update(i, e2).drop_last() =~= s.drop_last());
        assert(s.update(i, e2).last() == e2);
        assert(map_of(s).insert(n, e2.model()) =~= map_of(s.drop_last()).insert(n, e2.model()));
    } else {
        let dl = s.drop_last();
        let e = s.last();
        assert(distinct_names(dl));
        lemma_map_of_update(dl, i, e2);
        assert(s.update(i, e2).drop_last() =~= dl.update(i, e2));
        assert(s.update(i, e2).last() == e);
        assert(map_of(s.update(i, e2)) == map_of(dl.update(i, e2)).insert(e.name@, e.model()));
        assert(e.name@ != n);
        assert(map_of(dl).insert(e.name@, e.model()).insert(n, e2.model()) =~= map_of(dl).insert(
            n,
            e2.model(),
        ).insert(e.name@, e.model()));
    }
}

/// The view of an optional borrowed session name.
pub open spec fn opt_name_view(p: Option<&String>) -> Option<Seq<char>> {
    match p {
        None => None,
        Some(s) => Some(s@),
    }
}

/// The view of an optional owned session name.
pub open spec fn opt_string_view(p: Option<String>) -> Option<Seq<char>> {
    match p {
        None => None,
        Some(s) => Some(s@),
    }
}

/// Whether the named parent, if one is named, is active.
pub open spec fn parent_ok<T>(m: TableModel<T>, parent: Option<Seq<char>>) -> bool {
    match parent {
        None => true,
        Some(p) => m.sessions.contains_key(p),
    }
}

/// The parent identifier a registration resolves: the identifier of the
/// named parent, or nothing when no parent is named.
pub open spec fn resolved_parent<T>(m: TableModel<T>, parent: Option<Seq<char>>) -> Option<u64> {
    match parent {
        None => None,
        Some(p) => Some(m.sessions[p].id),
    }
}

/// Whether a registration under this name and parent succeeds: the name is
/// free, the parent (if named) is active, and an identifier remains.
pub open spec fn start_allowed<T>(m: TableModel<T>, name: Seq<char>, parent: Option<Seq<char>>) -> bool {
    &&& !m.sessions.contains_key(name)
    &&& parent_ok(m, parent)
    &&& m.next_id < u64::MAX
}

/// The error a refused registration reports: a duplicate name wins over an
/// unresolvable parent, which wins over identifier exhaustion.
pub open spec fn start_error<T>(m: TableModel<T>, name: Seq<char>, parent: Option<Seq<char>>) -> SessionError {
    if m.sessions.contains_key(name) {
        SessionError::AlreadyActive
    } else if !parent_ok(m, parent) {
        SessionError::UnknownSession
    } else {
        SessionError::EngineRejected
    }
}

/// The model after a successful registration: the new session is keyed by
/// its name, starts disconnected, and receives the next identifier.
pub open spec fn registered<T>(
    m: TableModel<T>,
    name: Seq<char>,
    parent: Option<Seq<char>>,
    payload: T,
) -> TableModel<T> {
    TableModel {
        sessions: m.sessions.insert(
            name,
            SessionModel {
                id: m.next_id,
                parent: resolved_parent(m, parent),
                connected: false,
                payload,
            },
        ),
        next_id: (m.next_id + 1) as u64,
    }
}

/// The model after a removal: the name is gone; identifiers already issued
/// stay retired.
pub open spec fn removed<T>(m: TableModel<T>, name: Seq<char>) -> TableModel<T> {
    TableModel { sessions: m.sessions.remove(name), next_id: m.next_id }
}

/// The model after connecting a listener: the session keeps its identifier
/// and parent, is marked connected, and its payload is replaced.
pub open spec fn connected_to<T>(m: TableModel<T>, name: Seq<char>, replacement: T) -> TableModel<T> {
    TableModel {
        sessions: m.sessions.insert(
            name,
            SessionModel {
                id: m.sessions[name].id,
                parent: m.sessions[name].parent,
                connected: true,
                payload: replacement,
            },
        ),
        next_id: m.next_id,
    }
}

impl<T> SessionTable<T> {
    /// An empty table that will issue identifiers from zero.
    pub fn new() -> (t: Self)
        ensures
            t.wf(),
            t@.sessions == Map::<Seq<char>, SessionModel<T>>::empty(),
            t@.next_id == 0,
    {
        SessionTable { entries: Vec::new(), next_id: 0 }
    }

    /// The index of the entry carrying this name, if one does.
    fn position_of(&self, name: &String) -> (r: Option<usize>)
        requires
            self.wf(),
        ensures
            match r {
                Some(i) => {
                    &&& i < self.entries@.len()
                    &&& self.entries@[i as int].name@ == name@
                    &&& self@.sessions.contains_key(name@)
                    &&& self@.sessions[name@] == self.entries@[i as int].model()
                },
                None => !self@.sessions.contains_key(name@),
            },
    {
        let n = self.entries.len();
        let mut i: usize = 0;
        while i < n
            invariant
                n == self.entries@.len(),
                i <= n,
                self.wf(),
                forall|j: int| 0 <= j < i ==> self.entries@[j].name@ != name@,
            decreases n - i,
        {
            if self.entries[i].name == *name {
                proof {
                    lemma_map_of_index(self.entries@, i as int);
                }
                return Some(i);
            }
            i += 1;
        }
        proof {
            lemma_map_of_domain(self.entries@, name@);
        }
        None
    }

    /// Whether a session carrying this name is active.
    pub fn is_active(&self, name: &String) -> (r: bool)
        requires
            self.wf(),
        ensures
            r == self@.sessions.contains_key(name@),
    {
        match self.position_of(name) {
            Some(_) => true,
            None => false,
        }
    }

    /// Whether an identifier remains to be issued.
    pub fn has_capacity(&self) -> (r: bool)
        ensures
            r == (self@.next_id < u64::MAX),
    {
        self.next_id < u64::MAX
    }

    /// A borrow of the payload of the named session, if it is active.
    pub fn payload_ref(&self, name: &String) -> (r: Option<&T>)
        requires
            self.wf(),
        ensures
            match r {
                Some(p) => self@.sessions.contains_key(name@) && *p == self@.sessions[name@].payload,
                None => !self@.sessions.contains_key(name@),
            },
    {
        match self.position_of(name) {
            Some(i) => Some(&self.entries[i].payload),
            None => None,
        }
    }

    /// The identifier of the named session, if it is active.
    pub fn session_id(&self, name: &String) -> (r: Option<u64>)
        requires
            self.wf(),
        ensures
            match r {
                Some(id) => self@.sessions.contains_key(name@) && id == self@.sessions[name@].id,
                None => !self@.sessions.contains_key(name@),
            },
    {
        match self.position_of(name) {
            Some(i) => Some(self.entries[i].id),
            None => None,
        }
    }

    /// The parent identifier the named session was created with, if the
    /// session is active.
    pub fn session_parent(&self, name: &String) -> (r: Option<Option<u64>>)
        requires
            self.wf(),
        ensures
            match r {
                Some(p) => self@.sessions.contains_key(name@) && p == self@.sessions[name@].parent,
                None => !self@.sessions.contains_key(name@),
            },
    {
        match self.position_of(name) {
            Some(i) => Some(self.entries[i].parent),
            None => None,
        }
    }

    /// Whether the named session's response channel is connected, if the
    /// session is active.
    pub fn is_connected(&self, name: &String) -> (r: Option<bool>)
        requires
            self.wf(),
        ensures
            match r {
                Some(c) => self@.sessions.contains_key(name@) && c
                    == self@.sessions[name@].connected,
                None => !self@.sessions.contains_key(name@),
            },
    {
        match self.position_of(name) {
            Some(i) => Some(self.entries[i].connected),
            None => None,
        }
    }

    /// Registers a session under a fresh name, resolving the optional
    /// parent name to its identifier in the current table, and installs the
    /// payload with the response channel still disconnected. Reports
    /// `AlreadyActive` for a duplicate name, `UnknownSession` for a named
    /// parent that is not active, and `EngineRejected` when the identifier
    /// space is exhausted.
    pub fn register(&mut self, name: String, parent_name: Option<&String>, payload: T) -> (r: Result<
        u64,
        SessionError,
    >)
        requires
            old(self).wf(),
        ensures
            final(self).wf(),
            start_allowed(old(self)@, name@, opt_name_view(parent_name)) ==> {
                &&& r == Ok::<u64, SessionError>(old(self)@.next_id)
                &&& final(self)@ == registered(
                    old(self)@,
                    name@,
                    opt_name_view(parent_name),
                    payload,
                )
            },
            !start_allowed(old(self)@, name@, opt_name_view(parent_name)) ==> {
                &&& r == Err::<u64, SessionError>(start_error(
                    old(self)@,
                    name@,
                    opt_name_view(parent_name),
                ))
                &&& final(self)@ == old(self)@
            },
    {
        if let Some(_) = self.position_of(&name) {
            return Err(SessionError::AlreadyActive);
        }
        let parent: Option<u64> = match parent_name {
            None => None,
            Some(p) => match self.position_of(p) {
                None => { return Err(SessionError::UnknownSession); },
                Some(j) => Some(self.entries[j].id),
            },
        };
        if self.next_id == u64::MAX {
            return Err(SessionError::EngineRejected);
        }
        let id = self.next_id;
        self.next_id = id + 1;
        let ghost old_entries = self.entries@;
        let entry = Session { name, id, parent, connected: false, payload };
        let ghost entry_spec = entry;
        self.entries.push(entry);
        proof {
            lemma_map_of_push(old_entries, entry_spec);
            lemma_map_of_domain(old_entries, entry_spec.name@);
            assert(forall|j: int| 0 <= j < old_entries.len()
                ==> #[trigger] old_entries[j].name@ != entry_spec.name@);
            assert(self@.sessions =~= registered(
                old(self)@,
                entry_spec.name@,
                opt_name_view(parent_name),
                entry_spec.payload,
            ).sessions);
        }
        Ok(id)
    }

    /// Removes the named session and hands its whole entry back for
    /// teardown, or reports `UnknownSession`.
    pub fn remove(&mut self, name: &String) -> (r: Result<Session<T>, SessionError>)
        requires
            old(self).wf(),
        ensures
            final(self).wf(),
            old(self)@.sessions.contains_key(name@) ==> {
                &&& r matches Ok(e) && e.name@ == name@ && e.model() == old(self)@.sessions[name@]
                &&& final(self)@ == removed(old(self)@, name@)
            },
            !old(self)@.sessions.contains_key(name@) ==> {
                &&& r == Err::<Session<T>, SessionError>(SessionError::UnknownSession)
                &&& final(self)@ == old(self)@
            },
    {
        match self.position_of(name) {
            None => Err(SessionError::UnknownSession),
            Some(i) => {
                let ghost old_entries = self.entries@;
                let e = self.entries.remove(i);
                proof {
                    lemma_map_of_remove(old_entries, i as int);
                    old_entries.remove_ensures(i as int);
                    assert(self@.sessions =~= removed(old(self)@, name@).sessions);
                }
                Ok(e)
            },
        }
    }

    /// Connects the named session's response channel. A first connection
    /// marks the session connected, installs the replacement payload, and
    /// hands the previous payload back; a repeated connection is a silent
    /// no-op, so at most one listener is ever attached. Reports
    /// `UnknownSession` for a name with no active session.
    pub fn connect(&mut self, name: &String, replacement: T) -> (r: Result<Option<T>, SessionError>)
        requires
            old(self).wf(),
        ensures
            final(self).wf(),
            !old(self)@.sessions.contains_key(name@) ==> {
                &&& r == Err::<Option<T>, SessionError>(SessionError::UnknownSession)
                &&& final(self)@ == old(self)@
            },
            old(self)@.sessions.contains_key(name@) && old(self)@.sessions[name@].connected ==> {
                &&& r == Ok::<Option<T>, SessionError>(None)
                &&& final(self)@ == old(self)@
            },
            old(self)@.sessions.contains_key(name@) && !old(self)@.sessions[name@].connected ==> {
                &&& r matches Ok(p) && p == Some(old(self)@.sessions[name@].payload)
                &&& final(self)@ == connected_to(old(self)@, name@, replacement)
            },
    {
        match self.position_of(name) {
            None => Err(SessionError::UnknownSession),
            Some(i) => {
                if self.entries[i].connected {
                    return Ok(None);
                }
                let ghost old_entries = self.entries@;
                let e = self.entries.remove(i);
                let Session { name: n, id, parent, connected: _, payload: old_payload } = e;
                let entry = Session { name: n, id, parent, connected: true, payload: replacement };
                let ghost entry_spec = entry;
                self.entries.insert(i, entry);
                proof {
                    assert(self.entries@ =~= old_entries.update(i as int, entry_spec));
                    lemma_map_of_update(old_entries, i as int, entry_spec);
                    old_entries.remove_ensures(i as int);
                    assert(self@.sessions =~= connected_to(
                        old(self)@,
                        name@,
                        replacement,
                    ).sessions);
                }
                Ok(Some(old_payload))
            },
        }
    }
}

} // verus!
