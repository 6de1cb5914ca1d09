//! Fetching one price.

use crate::client::{agrees, embed_query, item_path, Client};
use crate::error::ClientError;
use crate::request::{with_query, Method, Request};
use vstd::prelude::*;

verus! {

impl Client {
    /// The request for the price with the given identifier. `related` names
    /// the related entities that the service shall embed.
    pub fn get_price(&self, id: &str, related: Option<Vec<String>>) -> (r: Result<
        Request,
        ClientError,
    >)
        ensures
            agrees(
                self@.plan(
                    Method::Get,
                    with_query(item_path("prices"@, id@), embed_query(related.deep_view())),
                    None,
                ),
                r,
            ),
    {
        self.get("prices", id, related)
    }
}

} // verus!
