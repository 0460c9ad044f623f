//! The arguments of the commands on the specification files of a version.

use vstd::prelude::*;

verus! {

/// `create api-product-version-specification`.
#[derive(Debug)]
pub struct CreateApiProductVersionSpec {
    /// The id of the product.
    pub product_id: String,
    /// The id of the version.
    pub product_version_id: String,
    /// The path of the file to upload.
    pub path_to_spec_file: String,
}

/// `delete api-product-version-specification`.
#[derive(Debug)]
pub struct DeleteApiProductVersionSpec {
    /// The id of the product.
    pub product_id: String,
    /// The id of the version.
    pub product_version_id: String,
    /// The id of the uploaded file.
    pub id: String,
}

/// `get api-product-version-specification`.
#[derive(Debug)]
pub struct GetApiProductVersionSpec {
    /// The id of the product.
    pub product_id: String,
    /// The id of the version.
    pub product_version_id: String,
    /// The id of the uploaded file.
    pub id: Option<String>,
}

/// `patch api-product-version-specification`.
#[derive(Debug)]
pub struct PatchApiProductVersionSpec {
    /// The id of the product.
    pub product_id: String,
    /// The id of the version.
    pub product_version_id: String,
    /// The id of the uploaded file.
    pub id: String,
    /// The path of the file to upload in its place.
    pub path_to_spec_file: String,
}

} // verus!
