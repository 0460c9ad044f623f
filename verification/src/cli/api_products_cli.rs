//! The arguments of the commands on API products.

use vstd::prelude::*;

verus! {

/// `delete api-product`.
#[derive(Debug)]
pub struct DeleteApiProduct {
    /// The id of the API product.
    pub id: String,
}

/// `get api-product`.
#[derive(Debug)]
pub struct GetApiProduct {
    /// The id of the API product.
    pub id: Option<String>,
    /// The name of the API product.
    pub name: Option<String>,
}

/// `create api-product`.
#[derive(Debug)]
pub struct CreateApiProduct {
    /// The name of the API product.
    pub name: String,
    /// The description of the API product.
    pub description: String,
    /// Labels in the format `key1:value1,key2:value2`.
    pub labels: Option<String>,
    /// The portal ids, separated by commas.
    pub portal_ids: Option<String>,
}

/// `patch api-product`.
#[derive(Debug)]
pub struct PatchApiProduct {
    /// The id of the API product to update.
    pub id: String,
    /// The name of the API product.
    pub name: Option<String>,
    /// The description of the API product.
    pub description: Option<String>,
    /// Labels in the format `key1:value1,key2:value2`.
    pub labels: Option<String>,
    /// The portal ids, separated by commas.
    pub portal_ids: Option<String>,
}

} // verus!
