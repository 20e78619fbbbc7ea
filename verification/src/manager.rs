//! The session manager: one shared engine client together with the session
//! registry, owned by a single caller at a time. The hosting application
//! constructs one manager per process and serializes access to it; every
//! operation here is synchronous and blocks on no I/O.
//!
//! Each operation's contract relates the registry model after the call to
//! the model before it, and records every mutating call handed to the
//! engine — with the values it received — in a ghost log, so that an
//! operation refused by the registry provably has no engine-level side
//! effect, and an accepted one provably hands the engine exactly the
//! caller's texts and the session's own identifier.

use vstd::prelude::*;

use std::sync::Arc;
use smoldot_light::platform::DefaultPlatform;

use crate::SessionError;
use crate::engine::{
    EngineClient, ResponseQueue, engine_add_chain, engine_chains, engine_enqueue_request,
    engine_new_client, engine_platform, engine_remove_chain,
};
use crate::registry::{
    SessionModel, SessionTable, TableModel, connected_to, lemma_wf_ids_distinct, opt_string_view,
    registered, removed, start_allowed, start_error,
};

verus! {

/// Maximum number of JSON-RPC requests queued per chain before the engine
/// reports saturation.
pub const MAX_PENDING_REQUESTS: u32 = 128;

/// Maximum number of active JSON-RPC subscriptions per chain.
pub const MAX_SUBSCRIPTIONS: u32 = 1024;

/// What each session owns besides its bookkeeping: the chain identifier
/// the engine issued for it, and — while no listener is connected — the
/// engine's response queue.
pub struct EngineAttachment {
    pub chain_id: usize,
    pub queue: Option<ResponseQueue>,
}

/// One mutating call handed to the engine, recorded with the values it
/// received.
pub ghost enum EngineOp {
    /// A chain was added: the specification and database text exactly as
    /// the caller supplied them, the relay chain identifier resolved from
    /// the named parent, and the fixed JSON-RPC limits.
    AddChain {
        specification: Seq<char>,
        database: Seq<char>,
        relay: Option<usize>,
        max_pending_requests: u32,
        max_subscriptions: u32,
    },
    /// A chain was destroyed: the identifier of that chain.
    RemoveChain { chain_id: usize },
    /// A request was enqueued: the request text exactly as the caller
    /// supplied it, towards the identifier of that session's chain.
    EnqueueRequest { chain_id: usize, request: Seq<char> },
}

/// The relay chain identifier a start hands to the engine: the stored
/// engine identifier of the named parent.
pub open spec fn resolved_relay(
    m: TableModel<EngineAttachment>,
    parent: Option<Seq<char>>,
) -> Option<usize> {
    match parent {
        None => None,
        Some(p) => Some(m.sessions[p].payload.chain_id),
    }
}

/// One shared engine instance and the registry of named sessions over it.
pub struct SessionManager {
    client: EngineClient,
    table: SessionTable<EngineAttachment>,
    ops_log: Ghost<Seq<EngineOp>>,
}

impl View for SessionManager {
    type V = TableModel<EngineAttachment>;

    closed spec fn view(&self) -> TableModel<EngineAttachment> {
        self.table@
    }
}

impl SessionManager {
    /// The mutating calls handed to the engine so far, oldest first, each
    /// with the values it received.
    pub closed spec fn engine_log(self) -> Seq<EngineOp> {
        self.ops_log@
    }

    /// The manager's invariant: the registry is well-formed; a session
    /// holds its response queue exactly as long as no listener is
    /// connected; every session's chain identifier is registered in the
    /// engine; and no two sessions share one chain identifier.
    pub closed spec fn wf(self) -> bool {
        &&& self.table.wf()
        &&& forall|n: Seq<char>| #[trigger] self.table@.sessions.contains_key(n)
            ==> (self.table@.sessions[n].connected <==> self.table@.sessions[n].payload.queue
                is None)
        &&& forall|n: Seq<char>| #[trigger] self.table@.sessions.contains_key(n)
            ==> engine_chains(self.client).contains(self.table@.sessions[n].payload.chain_id)
        &&& forall|n1: Seq<char>, n2: Seq<char>|
            #![trigger self.table@.sessions[n1], self.table@.sessions[n2]]
            self.table@.sessions.contains_key(n1) && self.table@.sessions.contains_key(n2) && n1
                != n2 ==> self.table@.sessions[n1].payload.chain_id
                != self.table@.sessions[n2].payload.chain_id
    }
}

/// Well-formedness exported at the model level: active sessions carry
/// pairwise-distinct registry identifiers, each below the next identifier
/// to issue, so an identifier is never reused while its session lives.
pub proof fn lemma_manager_ids_distinct(m: SessionManager)
    requires
        m.wf(),
    ensures
        forall|n1: Seq<char>, n2: Seq<char>|
            #![trigger m@.sessions[n1], m@.sessions[n2]]
            m@.sessions.contains_key(n1) && m@.sessions.contains_key(n2) && n1 != n2
                ==> m@.sessions[n1].id != m@.sessions[n2].id,
        forall|n: Seq<char>| #[trigger] m@.sessions.contains_key(n) ==> m@.sessions[n].id
            < m@.next_id,
{
    lemma_wf_ids_distinct(m.table);
}

/// Allocates the engine and an empty session registry. The hosting
/// application constructs at most one manager per process and treats a
/// second initialization as a programming error; the manager itself is
/// oblivious to how many of it exist.
pub fn init_light_client() -> (m: SessionManager)
    ensures
        m.wf(),
        m@.sessions == Map::<Seq<char>, SessionModel<EngineAttachment>>::empty(),
        m@.next_id == 0,
        m.engine_log() == Seq::<EngineOp>::empty(),
{
    let platform = engine_platform("smoldot-flutter", "0.1.0");
    let client = engine_new_client(platform);
    SessionManager { client, table: SessionTable::new(), ops_log: Ghost(Seq::empty()) }
}

impl SessionManager {
    /// Whether a session carrying this name is active.
    pub fn is_active(&self, name: &String) -> (r: bool)
        requires
            self.wf(),
        ensures
            r == self@.sessions.contains_key(name@),
    {
        self.table.is_active(name)
    }

    /// The identifier of the named session, if it is active.
    pub fn session_id(&self, name: &String) -> (r: Option<u64>)
        requires
            self.wf(),
        ensures
            match r {
                Some(id) => self@.sessions.contains_key(name@) && id == self@.sessions[name@].id,
                None => !self@.sessions.contains_key(name@),
            },
    {
        self.table.session_id(name)
    }

    /// The parent identifier the named session was created with, if the
    /// session is active.
    pub fn session_parent(&self, name: &String) -> (r: Option<Option<u64>>)
        requires
            self.wf(),
        ensures
            match r {
                Some(p) => self@.sessions.contains_key(name@) && p == self@.sessions[name@].parent,
                None => !self@.sessions.contains_key(name@),
            },
    {
        self.table.session_parent(name)
    }

    /// Whether the named session's response channel is connected, if the
    /// session is active.
    pub fn is_connected(&self, name: &String) -> (r: Option<bool>)
        requires
            self.wf(),
        ensures
            match r {
                Some(c) => self@.sessions.contains_key(name@) && c
                    == self@.sessions[name@].connected,
                None => !self@.sessions.contains_key(name@),
            },
    {
        self.table.is_connected(name)
    }

    /// Starts a session: checks that the name is free, resolves the
    /// optional relay-chain (parent) name to its identifiers, asks the
    /// engine to add the chain, and registers the new session with its
    /// response channel disconnected. All registry checks precede the
    /// engine call, so a refused start provably leaves the engine
    /// untouched, and a start the engine refuses leaves the registry
    /// unchanged; an accepted start hands the engine the caller's
    /// specification and database text unchanged, the parent's stored
    /// chain identifier, and the fixed JSON-RPC limits, as the one
    /// recorded call says. A named parent that is not active is refused
    /// with `UnknownSession` rather than silently dropped.
    pub fn start_chain_sync(
        &mut self,
        chain_name: String,
        chain_spec: String,
        database: String,
        relay_chain: Option<String>,
    ) -> (r: Result<(), SessionError>)
        requires
            old(self).wf(),
        ensures
            final(self).wf(),
            !start_allowed(old(self)@, chain_name@, opt_string_view(relay_chain)) ==> {
                &&& r == Err::<(), SessionError>(start_error(
                    old(self)@,
                    chain_name@,
                    opt_string_view(relay_chain),
                ))
                &&& final(self)@ == old(self)@
                &&& final(self).engine_log() == old(self).engine_log()
            },
            start_allowed(old(self)@, chain_name@, opt_string_view(relay_chain)) ==> {
                &&& final(self).engine_log() == old(self).engine_log().push(
                    EngineOp::AddChain {
                        specification: chain_spec@,
                        database: database@,
                        relay: resolved_relay(old(self)@, opt_string_view(relay_chain)),
                        max_pending_requests: MAX_PENDING_REQUESTS,
                        max_subscriptions: MAX_SUBSCRIPTIONS,
                    },
                )
                &&& match r {
                    Ok(_) => exists|att: EngineAttachment|
                        att.queue is Some && final(self)@ == #[trigger] registered(
                            old(self)@,
                            chain_name@,
                            opt_string_view(relay_chain),
                            att,
                        ),
                    Err(e) => e == SessionError::EngineRejected && final(self)@ == old(self)@,
                }
            },
    {
        if self.table.is_active(&chain_name) {
            return Err(SessionError::AlreadyActive);
        }
        let relay_engine_id: Option<usize> = match &relay_chain {
            None => None,
            Some(p) => match self.table.payload_ref(p) {
                None => { return Err(SessionError::UnknownSession); },
                Some(att) => Some(att.chain_id),
            },
        };
        if !self.table.has_capacity() {
            return Err(SessionError::EngineRejected);
        }
        self.ops_log = Ghost(
            self.ops_log@.push(
                EngineOp::AddChain {
                    specification: chain_spec@,
                    database: database@,
                    relay: relay_engine_id,
                    max_pending_requests: MAX_PENDING_REQUESTS,
                    max_subscriptions: MAX_SUBSCRIPTIONS,
                },
            ),
        );
        match engine_add_chain(
            &mut self.client,
            chain_spec.as_str(),
            database.as_str(),
            relay_engine_id,
            MAX_PENDING_REQUESTS,
            MAX_SUBSCRIPTIONS,
        ) {
            Err(()) => Err(SessionError::EngineRejected),
            Ok((chain_id, queue)) => {
                let attachment = EngineAttachment { chain_id, queue: Some(queue) };
                let ghost att_spec = attachment;
                let outcome = self.table.register(chain_name, relay_chain.as_ref(), attachment);
                match outcome {
                    Ok(_) => {
                        proof {
                            assert(att_spec.queue is Some && self@ == registered(
                                old(self)@,
                                chain_name@,
                                opt_string_view(relay_chain),
                                att_spec,
                            ));
                            assert forall|n: Seq<char>| #[trigger] self.table@.sessions.contains_key(
                                n,
                            ) implies engine_chains(self.client).contains(
                                self.table@.sessions[n].payload.chain_id,
                            ) by {
                                if n != chain_name@ {
                                    assert(old(self).table@.sessions.contains_key(n));
                                }
                            }
                            assert forall|n1: Seq<char>, n2: Seq<char>|
                                self.table@.sessions.contains_key(n1)
                                    && self.table@.sessions.contains_key(n2) && n1
                                    != n2 implies #[trigger] self.table@.sessions[n1].payload.chain_id
                                != #[trigger] self.table@.sessions[n2].payload.chain_id by {
                                if n1 != chain_name@ {
                                    assert(old(self).table@.sessions.contains_key(n1));
                                }
                                if n2 != chain_name@ {
                                    assert(old(self).table@.sessions.contains_key(n2));
                                }
                            }
                        }
                        Ok(())
                    },
                    Err(_) => {
                        proof {
                            assert(false);
                        }
                        Err(SessionError::EngineRejected)
                    },
                }
            },
        }
    }

    /// Stops a session: removes it from the registry and instructs the
    /// engine to destroy that session's chain — the one recorded call
    /// carries exactly the identifier the session owned — which closes
    /// its response queue and thereby terminates any connected forwarder.
    /// The queue of a session that was never listened to is dropped here
    /// without ever having been read.
    pub fn stop_chain_sync(&mut self, chain_name: String) -> (r: Result<(), SessionError>)
        requires
            old(self).wf(),
        ensures
            final(self).wf(),
            !old(self)@.sessions.contains_key(chain_name@) ==> {
                &&& r == Err::<(), SessionError>(SessionError::UnknownSession)
                &&& final(self)@ == old(self)@
                &&& final(self).engine_log() == old(self).engine_log()
            },
            old(self)@.sessions.contains_key(chain_name@) ==> {
                &&& r == Ok::<(), SessionError>(())
                &&& final(self)@ == removed(old(self)@, chain_name@)
                &&& final(self).engine_log() == old(self).engine_log().push(
                    EngineOp::RemoveChain {
                        chain_id: old(self)@.sessions[chain_name@].payload.chain_id,
                    },
                )
            },
    {
        match self.table.remove(&chain_name) {
            Err(_) => Err(SessionError::UnknownSession),
            Ok(entry) => {
                self.ops_log = Ghost(
                    self.ops_log@.push(EngineOp::RemoveChain { chain_id: entry.payload.chain_id }),
                );
                engine_remove_chain(&mut self.client, entry.payload.chain_id);
                proof {
                    assert forall|n: Seq<char>| #[trigger] self.table@.sessions.contains_key(
                        n,
                    ) implies engine_chains(self.client).contains(
                        self.table@.sessions[n].payload.chain_id,
                    ) by {
                        assert(old(self).table@.sessions.contains_key(n));
                        assert(n != chain_name@);
                        assert(self.table@.sessions[n].payload.chain_id
                            != entry.payload.chain_id);
                    }
                }
                Ok(())
            },
        }
    }

    /// Sends one JSON-RPC request on the named session. The registry is
    /// never changed; a name with no active session is refused before the
    /// engine is consulted, so it provably causes no engine-level side
    /// effect. For an active session exactly one enqueue call is handed to
    /// the engine, carrying the request text unchanged and that session's
    /// own chain identifier, and the engine refuses exactly when its
    /// outbound queue is saturated.
    pub fn send_json_rpc_request(&mut self, chain_name: String, request: String) -> (r: Result<
        (),
        SessionError,
    >)
        requires
            old(self).wf(),
        ensures
            final(self).wf(),
            final(self)@ == old(self)@,
            !old(self)@.sessions.contains_key(chain_name@) ==> {
                &&& r == Err::<(), SessionError>(SessionError::UnknownSession)
                &&& final(self).engine_log() == old(self).engine_log()
            },
            old(self)@.sessions.contains_key(chain_name@) ==> {
                &&& (r == Ok::<(), SessionError>(()) || r == Err::<(), SessionError>(
                    SessionError::EngineRejected,
                ))
                &&& final(self).engine_log() == old(self).engine_log().push(
                    EngineOp::EnqueueRequest {
                        chain_id: old(self)@.sessions[chain_name@].payload.chain_id,
                        request: request@,
                    },
                )
            },
    {
        let chain_id: usize = match self.table.payload_ref(&chain_name) {
            None => { return Err(SessionError::UnknownSession); },
            Some(att) => att.chain_id,
        };
        self.ops_log = Ghost(
            self.ops_log@.push(EngineOp::EnqueueRequest { chain_id, request: request@ }),
        );
        match engine_enqueue_request(&mut self.client, chain_id, request) {
            Ok(()) => Ok(()),
            Err(()) => Err(SessionError::EngineRejected),
        }
    }

    /// Connects a listener to the named session's response stream. The
    /// first connection hands back the session's response queue — with
    /// every response buffered since the session started, in arrival
    /// order — for the caller to drain into its sink; the session is
    /// marked connected and never hands the queue out again. A repeated
    /// connection succeeds without effect and without a queue, so at most
    /// one listener is ever attached. The engine is never consulted.
    pub fn listen_json_rpc_responses(&mut self, chain_name: String) -> (r: Result<
        Option<ResponseQueue>,
        SessionError,
    >)
        requires
            old(self).wf(),
        ensures
            final(self).wf(),
            final(self).engine_log() == old(self).engine_log(),
            !old(self)@.sessions.contains_key(chain_name@) ==> {
                &&& r == Err::<Option<ResponseQueue>, SessionError>(SessionError::UnknownSession)
                &&& final(self)@ == old(self)@
            },
            old(self)@.sessions.contains_key(chain_name@)
                && old(self)@.sessions[chain_name@].connected ==> {
                &&& r == Ok::<Option<ResponseQueue>, SessionError>(None)
                &&& final(self)@ == old(self)@
            },
            old(self)@.sessions.contains_key(chain_name@)
                && !old(self)@.sessions[chain_name@].connected ==> {
                &&& r matches Ok(q) && q == old(self)@.sessions[chain_name@].payload.queue
                    && q is Some
                &&& final(self)@ == connected_to(
                    old(self)@,
                    chain_name@,
                    EngineAttachment {
                        chain_id: old(self)@.sessions[chain_name@].payload.chain_id,
                        queue: None,
                    },
                )
            },
    {
        let chain_id: usize = match self.table.payload_ref(&chain_name) {
            None => { return Err(SessionError::UnknownSession); },
            Some(att) => att.chain_id,
        };
        match self.table.connect(&chain_name, EngineAttachment { chain_id, queue: None }) {
            Err(_) => {
                proof {
                    assert(false);
                }
                Err(SessionError::UnknownSession)
            },
            Ok(None) => Ok(None),
            Ok(Some(att)) => {
                proof {
                    assert forall|n: Seq<char>| #[trigger] self.table@.sessions.contains_key(
                        n,
                    ) implies engine_chains(self.client).contains(
                        self.table@.sessions[n].payload.chain_id,
                    ) by {
                        assert(old(self).table@.sessions.contains_key(n));
                    }
                    assert forall|n1: Seq<char>, n2: Seq<char>|
                        self.table@.sessions.contains_key(n1)
                            && self.table@.sessions.contains_key(n2) && n1
                            != n2 implies #[trigger] self.table@.sessions[n1].payload.chain_id
                        != #[trigger] self.table@.sessions[n2].payload.chain_id by {
                        assert(old(self).table@.sessions.contains_key(n1));
                        assert(old(self).table@.sessions.contains_key(n2));
                        assert(self.table@.sessions[n1].payload.chain_id == old(
                            self,
                        ).table@.sessions[n1].payload.chain_id);
                        assert(self.table@.sessions[n2].payload.chain_id == old(
                            self,
                        ).table@.sessions[n2].payload.chain_id);
                    }
                }
                Ok(att.queue)
            },
        }
    }
}

} // verus!
