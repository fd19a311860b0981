//! The query service's handle on a node client.
use vstd::prelude::*;

use std::marker::PhantomData;
use std::sync::Arc;

verus! {

/// A handle that answers queries through a node client `C` for blocks of
/// type `Block`.
pub struct PnsPallet<C, Block> {
    client: Arc<C>,
    _marker: PhantomData<Block>,
}

impl<C, Block> PnsPallet<C, Block> {
    pub closed spec fn spec_client(&self) -> Arc<C> {
        self.client
    }

    /// Create a new handle on the given client.
    pub fn new(client: Arc<C>) -> (r: Self)
        ensures
            r.spec_client() == client,
    {
        Self { client, _marker: PhantomData }
    }

    /// The client that queries go through.
    pub fn client(&self) -> (r: &Arc<C>)
        ensures
            *r == self.spec_client(),
    {
        &self.client
    }
}

} // verus!
