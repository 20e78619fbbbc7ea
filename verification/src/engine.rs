//! The boundary to the external synchronization engine (the `smoldot_light`
//! crate). The engine performs its network I/O on its own background tasks;
//! the calls below only allocate, register, unregister, or enqueue, so they
//! are synchronous. Chain identifiers cross this boundary as plain `usize`
//! values, through the `From` conversions that `smoldot_light::ChainId`
//! documents for exactly this purpose.

use vstd::prelude::*;

use std::sync::Arc;
use smoldot_light::platform::DefaultPlatform;
use smoldot_light::JsonRpcResponses;

verus! {

#[verifier::external_type_specification]
#[verifier::external_body]
pub struct ExDefaultPlatform(DefaultPlatform);

/// The engine client this library drives: the engine over its
/// operating-system platform bindings, with no per-chain user data. The
/// value is opaque to the verifier; every use goes through the trusted
/// calls below.
#[verifier::external_body]
pub struct EngineClient {
    inner: smoldot_light::Client<Arc<DefaultPlatform>, ()>,
}

/// One chain's stream of JSON-RPC responses, handed over when the
/// session's channel connects. Opaque to the verifier; the hosting
/// application drains `inner` on a background task.
#[verifier::external_body]
pub struct ResponseQueue {
    pub inner: JsonRpcResponses<Arc<DefaultPlatform>>,
}

/// The set of chain identifiers currently registered in the engine: the
/// engine's own bookkeeping, named so that the calls below can state which
/// identifiers they admit and how each call changes the set.
pub uninterp spec fn engine_chains(c: EngineClient) -> Set<usize>;

/// Relies on `DefaultPlatform::new`: allocates the platform bindings
/// (spawning the engine's background executor threads) and never touches
/// any chain. Panics only if the operating system refuses to spawn a
/// thread.
#[verifier::external_body]
pub(crate) fn engine_platform(client_name: &str, client_version: &str) -> (p: Arc<DefaultPlatform>)
{
    DefaultPlatform::new(client_name.to_owned(), client_version.to_owned())
}

/// Relies on `Client::new`: allocates a client that holds no chains; it
/// only reserves resources and performs no I/O.
#[verifier::external_body]
pub(crate) fn engine_new_client(platform: Arc<DefaultPlatform>) -> (c: EngineClient)
    ensures
        engine_chains(c) == Set::<usize>::empty(),
{
    EngineClient { inner: smoldot_light::Client::new(platform) }
}

/// Relies on `Client::add_chain`: registers a chain described by its JSON
/// specification, with the JSON-RPC endpoint enabled, and hands back the
/// engine-issued chain identifier together with the chain's response
/// queue. The documentation guarantees the success value carries a queue
/// whenever JSON-RPC was enabled, so a success without one is reported as
/// a refusal. Whether the engine accepts depends on the specification text
/// and on the offered relay chains, so nothing more is promised of the
/// outcome than how it changes the set of registered chains: a success
/// stores the chain under a vacant slot, allocated last, after every
/// refusal has already returned, so the identifier was free and is now
/// registered; a refusal registers nothing.
#[verifier::external_body]
pub(crate) fn engine_add_chain(
    client: &mut EngineClient,
    specification: &str,
    database_content: &str,
    relay: Option<usize>,
    max_pending_requests: u32,
    max_subscriptions: u32,
) -> (r: Result<(usize, ResponseQueue), ()>)
    requires
        max_pending_requests > 0,
    ensures
        match r {
            Ok(success) => !engine_chains(*old(client)).contains(success.0) && engine_chains(
                *final(client),
            ) == engine_chains(*old(client)).insert(success.0),
            Err(_) => engine_chains(*final(client)) == engine_chains(*old(client)),
        },
{
    let json_rpc = smoldot_light::AddChainConfigJsonRpc::Enabled {
        max_pending_requests: core::num::NonZeroU32::new(max_pending_requests).unwrap(),
        max_subscriptions,
    };
    let config = smoldot_light::AddChainConfig {
        user_data: (), specification, database_content, json_rpc,
        potential_relay_chains: relay.map(smoldot_light::ChainId::from).into_iter(),
        statement_protocol_config: None,
    };
    match client.inner.add_chain(config) {
        Ok(smoldot_light::AddChainSuccess { chain_id, json_rpc_responses: Some(q) }) =>
            Ok((usize::from(chain_id), ResponseQueue { inner: q })),
        _ => Err(()),
    }
}

/// Relies on `Client::remove_chain`: unregisters the chain, which closes
/// its response queue (`JsonRpcResponses::next` then returns nothing).
/// The call panics on an identifier that is not currently registered, so
/// registration is required; no other chain is touched.
#[verifier::external_body]
pub(crate) fn engine_remove_chain(client: &mut EngineClient, chain_id: usize)
    requires
        engine_chains(*old(client)).contains(chain_id),
    ensures
        engine_chains(*final(client)) == engine_chains(*old(client)).remove(chain_id),
{
    let _user_data: () = client.inner.remove_chain(smoldot_light::ChainId::from(chain_id));
}

/// Relies on `Client::json_rpc_request`: enqueues one request towards the
/// chain; a refusal means the queue of pending requests is saturated.
/// Request text that is not valid JSON-RPC is not refused here — the
/// engine answers it asynchronously with a JSON-RPC error response. The
/// call panics on an identifier that is not currently registered (every
/// chain registered through `engine_add_chain` has JSON-RPC enabled), so
/// registration is required; the set of registered chains is unchanged.
#[verifier::external_body]
pub(crate) fn engine_enqueue_request(
    client: &mut EngineClient,
    chain_id: usize,
    request: String,
) -> (r: Result<(), ()>)
    requires
        engine_chains(*old(client)).contains(chain_id),
    ensures
        engine_chains(*final(client)) == engine_chains(*old(client)),
{
    match client.inner.json_rpc_request(request, smoldot_light::ChainId::from(chain_id)) {
        Ok(()) => Ok(()),
        Err(_) => Err(()),
    }
}

} // verus!
