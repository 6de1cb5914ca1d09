//! Creating prices.

use super::Price;
use crate::client::{agrees, Client};
use crate::error::ClientError;
use crate::json::json_text;
use crate::request::{Method, Request};
use vstd::prelude::*;

verus! {

impl Client {
    /// The request that creates a price. The body holds the attributes that
    /// are set and nothing else; the service assigns the identifier and the
    /// timestamps and reports what it requires and does not find.
    pub fn create_price(&self, price_data: Price) -> (r: Result<Request, ClientError>)
        ensures
            agrees(
                self@.plan(Method::Post, "prices"@, Some(json_text(price_data@.to_json()))),
                r,
            ),
    {
        let body = crate::json::print(&price_data.to_json());
        self.create("prices", body)
    }
}

} // verus!
