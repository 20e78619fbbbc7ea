//! Laws of the session registry, stated over the table model and the
//! transition functions that the operations' contracts are written with.

use vstd::prelude::*;

use crate::SessionError;
use crate::registry::{
    SessionModel, TableModel, connected_to, registered, removed, resolved_parent, start_allowed,
    start_error,
};

verus! {

/// Starts under distinct names do not interfere: whenever two
/// registrations are each allowed, either may go first and the other
/// still succeeds, and both orders leave sessions under exactly the same
/// names. (The identifiers issued depend on the order, since each start
/// takes the next one.)
pub proof fn lemma_starts_commute<T>(
    m: TableModel<T>,
    name_a: Seq<char>,
    parent_a: Option<Seq<char>>,
    pay_a: T,
    name_b: Seq<char>,
    parent_b: Option<Seq<char>>,
    pay_b: T,
)
    requires
        name_a != name_b,
        start_allowed(m, name_a, parent_a),
        start_allowed(m, name_b, parent_b),
        m.next_id + 1 < u64::MAX,
    ensures
        start_allowed(registered(m, name_a, parent_a, pay_a), name_b, parent_b),
        start_allowed(registered(m, name_b, parent_b, pay_b), name_a, parent_a),
        registered(registered(m, name_a, parent_a, pay_a), name_b, parent_b, pay_b).sessions.dom()
            =~= registered(
            registered(m, name_b, parent_b, pay_b),
            name_a,
            parent_a,
            pay_a,
        ).sessions.dom(),
{
}

/// A start of a name that is already active, with no intervening stop, is
/// refused as `AlreadyActive` whatever parent it names, and the session
/// started first keeps its identifier, parent, channel state, and
/// payload. (The operation's contract adds that the refused call leaves
/// the whole registry unchanged and never reaches the engine.)
pub proof fn lemma_duplicate_start<T>(
    m: TableModel<T>,
    name: Seq<char>,
    parent: Option<Seq<char>>,
    payload: T,
    parent2: Option<Seq<char>>,
)
    requires
        start_allowed(m, name, parent),
    ensures
        ({
            let m1 = registered(m, name, parent, payload);
            &&& m1.sessions.contains_key(name)
            &&& !start_allowed(m1, name, parent2)
            &&& start_error(m1, name, parent2) == SessionError::AlreadyActive
            &&& m1.sessions[name] == (SessionModel {
                id: m.next_id,
                parent: resolved_parent(m, parent),
                connected: false,
                payload,
            })
        }),
{
}

/// A start touches no session but the one it names: every other name maps
/// to the same session before and after, so a session's channel state —
/// in particular a connected one — survives every start. Together with
/// the frame clauses of the stop and listen laws this makes the channel
/// state monotonic: nothing ever disconnects a connected session short of
/// stopping it.
pub proof fn lemma_start_leaves_others<T>(
    m: TableModel<T>,
    name: Seq<char>,
    parent: Option<Seq<char>>,
    payload: T,
)
    ensures
        forall|n: Seq<char>|
            n != name ==> ((#[trigger] registered(m, name, parent, payload).sessions.contains_key(
                n,
            )) <==> m.sessions.contains_key(n)),
        forall|n: Seq<char>|
            n != name && m.sessions.contains_key(n) ==> (#[trigger] registered(
                m,
                name,
                parent,
                payload,
            ).sessions[n]) == m.sessions[n],
{
}

/// A stop retires its name: afterwards no session carries it, so a later
/// send, listen, or second stop on the name is refused with
/// `UnknownSession`; and no session under any other name is disturbed.
pub proof fn lemma_stop_retires_name<T>(m: TableModel<T>, name: Seq<char>)
    ensures
        !removed(m, name).sessions.contains_key(name),
        forall|n: Seq<char>|
            n != name ==> ((#[trigger] removed(m, name).sessions.contains_key(n))
                <==> m.sessions.contains_key(n)),
        forall|n: Seq<char>|
            n != name && m.sessions.contains_key(n) ==> (#[trigger] removed(
                m,
                name,
            ).sessions[n]) == m.sessions[n],
{
}

/// A first listen connects the channel exactly once: the session is then
/// marked connected under the same identifier and parent, every other
/// session is untouched, and — by the listen contract's connected case —
/// any repeated listen returns without a queue and without changing the
/// model, so a second sink is never handed anything.
pub proof fn lemma_listen_connects_once<T>(m: TableModel<T>, name: Seq<char>, replacement: T)
    requires
        m.sessions.contains_key(name),
        !m.sessions[name].connected,
    ensures
        ({
            let m1 = connected_to(m, name, replacement);
            &&& m1.sessions.contains_key(name)
            &&& m1.sessions[name].connected
            &&& m1.sessions[name].id == m.sessions[name].id
            &&& m1.sessions[name].parent == m.sessions[name].parent
            &&& m1.sessions[name].payload == replacement
            &&& m1.next_id == m.next_id
        }),
        forall|n: Seq<char>|
            n != name ==> ((#[trigger] connected_to(m, name, replacement).sessions.contains_key(n))
                <==> m.sessions.contains_key(n)),
        forall|n: Seq<char>|
            n != name && m.sessions.contains_key(n) ==> (#[trigger] connected_to(
                m,
                name,
                replacement,
            ).sessions[n]) == m.sessions[n],
{
}

} // verus!
