//! The arguments of the commands on API product versions.

use vstd::prelude::*;

verus! {

/// `create api-product-version`.
#[derive(Debug)]
pub struct CreateApiProductVersion {
    /// The id of the product.
    pub product_id: String,
    /// The name of the version.
    pub name: String,
    /// The publish status of the version.
    pub publish_status: PublishStatus,
    /// Whether the version is deprecated: the text `true` says that it is.
    pub deprecated: Option<String>,
    /// The id of the gateway service of the version.
    pub gateway_service_id: Option<String>,
    /// The id of the control plane on which the gateway service runs.
    pub control_plane_id: Option<String>,
}

/// `get api-product-version`.
#[derive(Debug)]
pub struct GetAPIProductVersion {
    /// The id of the product.
    pub product_id: String,
    /// The id of the version.
    pub id: Option<String>,
}

/// `delete api-product-version`.
#[derive(Debug)]
pub struct DeleteAPIProductVersion {
    /// The id of the version.
    pub id: String,
    /// The id of the product.
    pub product_id: String,
}

/// Whether a version is published.
#[derive(Copy, Clone, Debug, PartialEq, Eq, Structural)]
pub enum PublishStatus {
    Unpublished,
    Published,
}

} // verus!
