//! Creating products.

use super::Product;
use crate::client::{agrees, Client};
use crate::error::ClientError;
use crate::json::json_text;
use crate::request::{Method, Request};
use vstd::prelude::*;

verus! {

impl Client {
    /// The request that creates a product. The body holds the attributes that
    /// are set and nothing else; the service assigns the identifier and the
    /// timestamps and reports what it requires and does not find.
    pub fn create_product(&self, product_data: Product) -> (r: Result<Request, ClientError>)
        ensures
            agrees(
                self@.plan(Method::Post, "products"@, Some(json_text(product_data@.to_json()))),
                r,
            ),
    {
        let body = crate::json::print(&product_data.to_json());
        self.create("products", body)
    }
}

} // verus!
