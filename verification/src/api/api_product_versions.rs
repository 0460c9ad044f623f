//! Requests and replies for the versions of an API product.

use crate::api::api_products::text_or_empty;
use crate::api::common_structs::Meta;
use crate::api::labels::Labels;
use crate::cli::api_product_versions_cli::{
    CreateApiProductVersion, DeleteAPIProductVersion, PublishStatus,
};
use crate::utils::text::same_text;
use vstd::prelude::*;

verus! {

/// Names the version to delete.
#[derive(Debug)]
pub struct DeleteAPIProductVersionRequest {
    pub id: String,
    pub product_id: String,
}

/// What a version deletion answers.
#[derive(Debug)]
pub struct DeleteAPIProductVersionResponse {
    pub response_code: i32,
}

impl DeleteAPIProductVersionRequest {
    /// The request for the version that the arguments name.
    pub fn new(dprv: DeleteAPIProductVersion) -> (r: Self)
        ensures
            r.id == dprv.id,
            r.product_id == dprv.product_id,
    {
        DeleteAPIProductVersionRequest { id: dprv.id, product_id: dprv.product_id }
    }
}

/// The body of a version creation.
#[derive(Debug)]
pub struct APIProductVersionRequest {
    pub name: String,
    pub publish_status: String,
    pub deprecated: bool,
    pub gateway_service: Option<APIProductVersionGatewayServiceRequest>,
}

/// The word that the service uses for a publish status.
pub open spec fn publish_status_text(status: PublishStatus) -> Seq<char> {
    match status {
        PublishStatus::Unpublished => "unpublished"@,
        PublishStatus::Published => "published"@,
    }
}

/// Whether the arguments mark the version as deprecated: only the text
/// `true` does.
pub open spec fn deprecated_of(flag: Option<String>) -> bool {
    flag is Some && flag->0@ == "true"@
}

/// Whether the arguments name a gateway service: both its id and the id of
/// its control plane are given and not empty.
pub open spec fn names_gateway_service(args: CreateApiProductVersion) -> bool {
    text_or_empty(args.gateway_service_id).len() > 0 && text_or_empty(
        args.control_plane_id,
    ).len() > 0
}

impl APIProductVersionRequest {
    /// Whether this is the version that the arguments describe. The gateway
    /// service is part of it exactly when the arguments name one, and then
    /// with the two ids as given.
    pub open spec fn describes(self, args: CreateApiProductVersion) -> bool {
        &&& self.name == args.name
        &&& self.publish_status@ == publish_status_text(args.publish_status)
        &&& self.deprecated == deprecated_of(args.deprecated)
        &&& self.gateway_service is Some <==> names_gateway_service(args)
        &&& self.gateway_service is Some ==> {
            &&& self.gateway_service->0.id@ == args.gateway_service_id->0@
            &&& self.gateway_service->0.control_plane_id@ == args.control_plane_id->0@
        }
    }

    /// The version that the arguments describe.
    pub fn new(api_product_version: CreateApiProductVersion) -> (r: Self)
        ensures
            r.describes(api_product_version),
    {
        let gsid = match api_product_version.gateway_service_id {
            Some(id) => id,
            None => String::new(),
        };
        let cpid = match api_product_version.control_plane_id {
            Some(id) => id,
            None => String::new(),
        };
        let ps = match api_product_version.publish_status {
            PublishStatus::Unpublished => String::from_str("unpublished"),
            PublishStatus::Published => String::from_str("published"),
        };
        let d = match &api_product_version.deprecated {
            Some(dep) => same_text(dep.as_str(), "true"),
            None => false,
        };
        let gateway_service = if gsid.as_str().unicode_len() == 0 || cpid.as_str().unicode_len()
            == 0 {
            None
        } else {
            Some(APIProductVersionGatewayServiceRequest { id: gsid, control_plane_id: cpid })
        };
        APIProductVersionRequest {
            name: api_product_version.name,
            publish_status: ps,
            deprecated: d,
            gateway_service,
        }
    }
}

/// The gateway service of a version to create.
#[derive(Debug)]
pub struct APIProductVersionGatewayServiceRequest {
    pub control_plane_id: String,
    pub id: String,
}

/// The gateway service of a created version.
#[derive(Debug)]
pub struct APIProductVersionGatewayServiceResponse {
    pub control_plane_id: String,
    pub id: String,
}

/// A version as the service describes it after creating it.
#[derive(Debug)]
pub struct APIProductVersionResponse {
    pub id: String,
    pub name: String,
    pub gateway_service: Option<APIProductVersionGatewayServiceResponse>,
    pub publish_status: String,
    pub deprecated: bool,
    pub created_at: String,
    pub updated_at: String,
}

/// The place of a version.
#[derive(Debug)]
pub struct APIProductVersion {
    pub path: String,
}

/// Asks for one version.
#[derive(Debug)]
pub struct GetApiProductVersionRequest {}

impl GetApiProductVersionRequest {
    /// The request; it carries nothing.
    pub fn new() -> Self {
        GetApiProductVersionRequest {  }
    }
}

/// Asks for the list of versions.
#[derive(Debug)]
pub struct GetAllApiProductVersionRequest {}

impl GetAllApiProductVersionRequest {
    /// The request; it carries nothing.
    pub fn new() -> Self {
        GetAllApiProductVersionRequest {  }
    }
}

/// A list of versions.
#[derive(Debug)]
pub struct GetAllApiProductVersionResponse {
    pub data: Vec<GetApiProductVersionResponse>,
    pub meta: Meta,
}

/// A version as the service describes it.
#[derive(Debug)]
pub struct GetApiProductVersionResponse {
    pub labels: Labels,
    pub id: String,
    pub name: String,
    pub publish_status: String,
    pub deprecated: bool,
    pub auth_strategy_sync_errors: Option<String>,
    pub portals: Vec<Portal>,
    pub created_at: String,
    pub updated_at: String,
    pub gateway_service: Option<GatewayService>,
}

/// A portal on which a version is offered.
#[derive(Debug)]
pub struct Portal {
    pub portal_id: String,
    pub portal_name: String,
    pub portal_product_version_id: String,
    pub publish_status: String,
    pub deprecated: bool,
    pub application_registration_enabled: bool,
    pub auto_approve_registration: bool,
    pub auth_strategies: Vec<AuthStrategy>,
}

/// A way to authenticate at a portal.
#[derive(Debug)]
pub struct AuthStrategy {
    pub id: String,
    pub name: String,
}

/// The gateway service behind a version.
#[derive(Debug)]
pub struct GatewayService {
    pub id: String,
    pub runtime_group_id: String,
    pub control_plane_id: String,
}

} // verus!
