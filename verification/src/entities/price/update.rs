//! Changing prices.

use super::Price;
use crate::client::{agrees, item_path, Client};
use crate::error::ClientError;
use crate::json::json_text;
use crate::request::{Method, Request};
use vstd::prelude::*;

verus! {

impl Client {
    /// The request that changes the price with the given identifier. The
    /// body holds the attributes that are set and nothing else, so the
    /// service leaves every other attribute as it is.
    pub fn update_price(&self, price_id: &str, price_data: Price) -> (r: Result<
        Request,
        ClientError,
    >)
        ensures
            agrees(
                self@.plan(
                    Method::Patch,
                    item_path("prices"@, price_id@),
                    Some(json_text(price_data@.to_json())),
                ),
                r,
            ),
    {
        let body = crate::json::print(&price_data.to_json());
        self.update("prices", price_id, body)
    }
}

} // verus!
