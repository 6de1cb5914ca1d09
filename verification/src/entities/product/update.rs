//! Changing products.

use super::Product;
use crate::client::{agrees, item_path, Client};
use crate::error::ClientError;
use crate::json::json_text;
use crate::request::{Method, Request};
use vstd::prelude::*;

verus! {

impl Client {
    /// The request that changes the product with the given identifier. The
    /// body holds the attributes that are set and nothing else, so the
    /// service leaves every other attribute as it is.
    pub fn update_product(&self, product_id: &str, product_data: Product) -> (r: Result<
        Request,
        ClientError,
    >)
        ensures
            agrees(
                self@.plan(
                    Method::Patch,
                    item_path("products"@, product_id@),
                    Some(json_text(product_data@.to_json())),
                ),
                r,
            ),
    {
        let body = crate::json::print(&product_data.to_json());
        self.update("products", product_id, body)
    }
}

} // verus!
