//! The command line as a whole: a verb, then the kind of resource.

use crate::cli::api_product_version_spec::{
    CreateApiProductVersionSpec, DeleteApiProductVersionSpec, GetApiProductVersionSpec,
    PatchApiProductVersionSpec,
};
use crate::cli::api_product_versions_cli::{
    CreateApiProductVersion, DeleteAPIProductVersion, GetAPIProductVersion,
};
use crate::cli::api_products_cli::{
    CreateApiProduct, DeleteApiProduct, GetApiProduct, PatchApiProduct,
};
use vstd::prelude::*;

verus! {

/// The parsed command line.
#[derive(Debug)]
pub struct KonnectCLIArgs {
    pub entity_type: EntityType,
}

/// The verb of a command.
#[derive(Debug)]
pub enum EntityType {
    Get(GetCommand),
    Create(CreateCommand),
    Delete(DeleteCommand),
    Patch(PatchCommand),
}

/// `patch` and what follows.
#[derive(Debug)]
pub struct PatchCommand {
    pub command: PatchSubCommand,
}

/// `delete` and what follows.
#[derive(Debug)]
pub struct DeleteCommand {
    pub command: DeleteSubCommand,
}

/// `get` and what follows.
#[derive(Debug)]
pub struct GetCommand {
    pub command: GetSubCommand,
}

/// `create` and what follows.
#[derive(Debug)]
pub struct CreateCommand {
    pub command: CreateSubCommand,
}

/// What can be patched.
#[derive(Debug)]
pub enum PatchSubCommand {
    ApiProduct(PatchApiProduct),
    ApiProductVersionSpecification(PatchApiProductVersionSpec),
}

/// What can be deleted.
#[derive(Debug)]
pub enum DeleteSubCommand {
    ApiProduct(DeleteApiProduct),
    ApiProductVersion(DeleteAPIProductVersion),
    ApiProductVersionSpecification(DeleteApiProductVersionSpec),
}

/// What can be fetched.
#[derive(Debug)]
pub enum GetSubCommand {
    ApiProduct(GetApiProduct),
    ApiProductVersion(GetAPIProductVersion),
    ApiProductVersionSpecification(GetApiProductVersionSpec),
}

/// What can be created.
#[derive(Debug)]
pub enum CreateSubCommand {
    ApiProduct(CreateApiProduct),
    ApiProductVersion(CreateApiProductVersion),
    ApiProductVersionSpecification(CreateApiProductVersionSpec),
}

} // verus!
