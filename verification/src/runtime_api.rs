//! The runtime API resolver: given an optional block identifier it resolves
//! to a concrete one (defaulting to the chain's current best block) and hands
//! back a handle permanently bound to that identifier. The transition from
//! unresolved to resolved is one-shot; there is no way back.

use vstd::prelude::*;
use vstd::pervasive::cloned;
use vstd::pervasive::unreached;
use crate::rpc::{OnlineClientT, RpcError};

verus! {

/// Resolve an optional block identifier to a concrete one. A given
/// identifier is used as it is, with no lookup; an absent one is replaced by
/// the current best block's identifier. A best-block lookup that succeeds
/// without a value would contradict the protocol convention, so no such
/// outcome exists here.
pub fn resolve_block_hash<H: Copy, C: OnlineClientT<H>>(
    client: &mut C,
    block_hash: Option<H>,
) -> (r: Result<H, RpcError>)
    ensures
        (block_hash matches Some(h) ==> (r matches Ok(g) && g == h && *final(client) == *old(client))),
        (r is Err ==> block_hash is None),
{
    match block_hash {
        Some(hash) => Ok(hash),
        None => match client.block_hash(None) {
            Ok(Some(hash)) => Ok(hash),
            Ok(None) => unreached(),
            Err(e) => Err(e),
        },
    }
}

/// A runtime API handle, permanently bound to one block identifier and to a
/// shared clone of the client it was resolved with. It holds no local
/// mutable state: every read it issues is scoped by the identifier it
/// carries.
pub struct RuntimeApi<H, Client> {
    client: Client,
    block_hash: H,
}

impl<H, Client> RuntimeApi<H, Client> {
    /// The block identifier this handle is bound to.
    pub closed spec fn spec_block_hash(self) -> H {
        self.block_hash
    }

    /// The client this handle issues its reads through.
    pub closed spec fn spec_client(self) -> Client {
        self.client
    }

    /// Bind a handle to one block identifier for its entire lifetime.
    pub fn new(client: Client, block_hash: H) -> (r: Self)
        ensures
            r.spec_block_hash() == block_hash,
            r.spec_client() == client,
    {
        RuntimeApi { client, block_hash }
    }
}

impl<H: Copy, Client> RuntimeApi<H, Client> {
    /// The block identifier this handle is bound to.
    pub fn block_hash(&self) -> (r: H)
        ensures
            r == self.spec_block_hash(),
    {
        self.block_hash
    }
}

impl<H: Copy, Client: Clone> Clone for RuntimeApi<H, Client> {
    /// Cloning a handle is cheap and keeps its binding: the clone answers
    /// reads scoped to the same block identifier, through a client that
    /// shares the underlying connection.
    fn clone(&self) -> (r: Self)
        ensures
            r.spec_block_hash() == self.spec_block_hash(),
            cloned::<Client>(self.spec_client(), r.spec_client()),
    {
        RuntimeApi { client: self.client.clone(), block_hash: self.block_hash }
    }
}

/// Law: handles cloned from one resolved handle stay bound to that handle's
/// identifier, so they all answer reads scoped to the same block, and each
/// clone remains valid on its own once the original is gone.
pub proof fn lemma_clones_share_binding<H, Client>(
    original: RuntimeApi<H, Client>,
    first: RuntimeApi<H, Client>,
    second: RuntimeApi<H, Client>,
)
    requires
        first.spec_block_hash() == original.spec_block_hash(),
        second.spec_block_hash() == original.spec_block_hash(),
    ensures
        first.spec_block_hash() == second.spec_block_hash(),
{
}

/// Execute runtime API calls, bound to a client. Until `at` is called the
/// client is unresolved: no block identifier has been fixed yet.
pub struct RuntimeApiClient<Client> {
    client: Client,
}

impl<Client> RuntimeApiClient<Client> {
    /// The client that `at` will resolve against.
    pub closed spec fn spec_client(self) -> Client {
        self.client
    }

    /// Create a new unresolved runtime API client.
    pub fn new(client: Client) -> (r: Self)
        ensures
            r.spec_client() == client,
    {
        RuntimeApiClient { client }
    }
}

impl<Client: Clone> RuntimeApiClient<Client> {
    /// Obtain a runtime API handle at some block hash: the given one, or the
    /// current best block's when none is given. The returned handle is bound
    /// to that one identifier for good; resolution can fail only when the
    /// best-block lookup itself had to run and failed.
    pub fn at<H: Copy>(&self, block_hash: Option<H>) -> (r: Result<
        RuntimeApi<H, Client>,
        RpcError,
    >) where Client: OnlineClientT<H>
        ensures
            (block_hash matches Some(h) ==> (r matches Ok(api) && api.spec_block_hash() == h
                && cloned::<Client>(self.spec_client(), api.spec_client()))),
            (r is Err ==> block_hash is None),
    {
        let mut client = self.client.clone();
        match resolve_block_hash(&mut client, block_hash) {
            Ok(hash) => Ok(RuntimeApi::new(client, hash)),
            Err(e) => Err(e),
        }
    }
}

} // verus!
