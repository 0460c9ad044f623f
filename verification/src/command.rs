//! From a parsed command line to the request it stands for: which resource
//! path, which operation, and which request body.

use crate::api::api_product_version_spec::{
    can_encode, CreateAPIProductVersionSpecRequest, DeleteAPIProductVersionSpecRequest,
    GetAPIProductVersionSpecRequest, GetAllAPIProductVersionSpecRequest,
    PatchAPIProductVersionSpecRequest,
};
use crate::api::api_product_versions::{
    APIProductVersionRequest, DeleteAPIProductVersionRequest, GetAllApiProductVersionRequest,
    GetApiProductVersionRequest,
};
use crate::api::api_products::{
    text_of, text_or_empty, APIProductRequest, DeleteAPIProductRequest, GetAPIProductRequest,
    GetAPIProductsArrayRequest, PatchAPIProductRequest,
};
use crate::api::api_utils::{file_name, labels_well_formed};
use crate::cli::main_cli::{
    CreateSubCommand, DeleteSubCommand, EntityType, GetSubCommand, KonnectCLIArgs,
    PatchSubCommand,
};
use crate::harness::{
    api_product_path, product_fetch, product_path, product_version_path, product_versions_path,
    api_products_path, products_path, specification_path, specifications_path,
    version_path, version_specification_path, version_specifications_path, versions_path,
    Operation,
};
use crate::utils::json::{filter_empty_fields, pruned, JsonValue};
use crate::utils::konnect_utils::FetchFilter;
use vstd::prelude::*;

verus! {

/// The request of a command, whichever kind it is.
#[derive(Debug)]
pub enum Request {
    CreateProduct(APIProductRequest),
    PatchProduct(PatchAPIProductRequest),
    DeleteProduct(DeleteAPIProductRequest),
    GetProduct(GetAPIProductRequest),
    GetProducts(GetAPIProductsArrayRequest),
    CreateVersion(APIProductVersionRequest),
    DeleteVersion(DeleteAPIProductVersionRequest),
    GetVersion(GetApiProductVersionRequest),
    GetVersions(GetAllApiProductVersionRequest),
    CreateSpecification(CreateAPIProductVersionSpecRequest),
    PatchSpecification(PatchAPIProductVersionSpecRequest),
    DeleteSpecification(DeleteAPIProductVersionSpecRequest),
    GetSpecification(GetAPIProductVersionSpecRequest),
    GetSpecifications(GetAllAPIProductVersionSpecRequest),
}

/// What a command does with its resource, before its request is written as
/// JSON.
#[derive(Debug, PartialEq, Eq)]
pub enum Action {
    /// Read it, or the list of them that the filter leaves.
    Fetch(FetchFilter),
    /// Remove it.
    Delete,
    /// Make it from the request.
    Create,
    /// Change it to the request as it stands.
    Patch,
    /// Change it to what pruning leaves of the request.
    PatchPruned,
}

/// A command, ready to be carried out.
#[derive(Debug)]
pub struct Command {
    pub request: Request,
    pub path: String,
    pub action: Action,
}

/// The path of the file whose text a command needs, if it needs one.
pub open spec fn file_needed(args: KonnectCLIArgs) -> Option<Seq<char>> {
    match args.entity_type {
        EntityType::Create(create) => match create.command {
            CreateSubCommand::ApiProductVersionSpecification(a) => Some(a.path_to_spec_file@),
            _ => None,
        },
        EntityType::Patch(patch) => match patch.command {
            PatchSubCommand::ApiProductVersionSpecification(a) => Some(a.path_to_spec_file@),
            _ => None,
        },
        _ => None,
    }
}

/// The path of the file whose text the command needs, if it needs one: the
/// commands that upload or replace a specification file do.
pub fn file_to_read(args: &KonnectCLIArgs) -> (path: Option<String>)
    ensures
        text_of(path) == file_needed(*args),
{
    match &args.entity_type {
        EntityType::Create(create) => match &create.command {
            CreateSubCommand::ApiProductVersionSpecification(a) => Some(
                a.path_to_spec_file.clone(),
            ),
            _ => None,
        },
        EntityType::Patch(patch) => match &patch.command {
            PatchSubCommand::ApiProductVersionSpecification(a) => Some(
                a.path_to_spec_file.clone(),
            ),
            _ => None,
        },
        _ => None,
    }
}

/// Whether a command can be carried out: its labels, if it has any, are
/// well formed; a file that it read is short enough to be encoded; and the
/// file that it replaces another with has a name.
pub open spec fn command_ready(args: KonnectCLIArgs, file_text: Option<String>) -> bool {
    match args.entity_type {
        EntityType::Create(create) => match create.command {
            CreateSubCommand::ApiProduct(a) => a.labels is Some ==> labels_well_formed(
                a.labels->0@,
            ),
            CreateSubCommand::ApiProductVersionSpecification(_) => can_encode(file_text),
            _ => true,
        },
        EntityType::Patch(patch) => match patch.command {
            PatchSubCommand::ApiProduct(a) => a.labels is Some ==> labels_well_formed(
                a.labels->0@,
            ),
            PatchSubCommand::ApiProductVersionSpecification(a) => file_name(
                a.path_to_spec_file@,
            ) is Some && can_encode(file_text),
        },
        _ => true,
    }
}

/// Whether an action fetches without a filter.
pub open spec fn fetches_all(action: Action) -> bool {
    action matches Action::Fetch(filter) && filter is Unfiltered
}

/// Whether `c` is the command that the arguments stand for.
pub open spec fn stands_for(c: Command, args: KonnectCLIArgs, file_text: Option<String>) -> bool {
    match args.entity_type {
        EntityType::Get(get) => match get.command {
            GetSubCommand::ApiProduct(a) => {
                if text_or_empty(a.name).len() > 0 {
                    &&& c.request is GetProducts
                    &&& c.path@ == products_path()
                    &&& c.action matches Action::Fetch(FetchFilter::FieldName(field, value))
                    &&& field@ == "name"@
                    &&& value@ == text_or_empty(a.name)
                } else if text_or_empty(a.id).len() > 0 {
                    &&& c.request matches Request::GetProduct(r)
                    &&& r.describes(a)
                    &&& c.path@ == product_path(text_or_empty(a.id))
                    &&& fetches_all(c.action)
                } else {
                    &&& c.request is GetProducts
                    &&& c.path@ == products_path()
                    &&& fetches_all(c.action)
                }
            },
            GetSubCommand::ApiProductVersion(a) => match a.id {
                Some(id) => {
                    &&& c.request is GetVersion
                    &&& c.path@ == version_path(a.product_id@, id@)
                    &&& fetches_all(c.action)
                },
                None => {
                    &&& c.request is GetVersions
                    &&& c.path@ == versions_path(a.product_id@)
                    &&& fetches_all(c.action)
                },
            },
            GetSubCommand::ApiProductVersionSpecification(a) => match a.id {
                Some(id) => {
                    &&& c.request is GetSpecification
                    &&& c.path@ == specification_path(a.product_id@, a.product_version_id@, id@)
                    &&& fetches_all(c.action)
                },
                None => {
                    &&& c.request is GetSpecifications
                    &&& c.path@ == specifications_path(a.product_id@, a.product_version_id@)
                    &&& fetches_all(c.action)
                },
            },
        },
        EntityType::Create(create) => match create.command {
            CreateSubCommand::ApiProduct(a) => {
                &&& c.request matches Request::CreateProduct(r)
                &&& r.describes(a)
                &&& c.path@ == products_path()
                &&& c.action is Create
            },
            CreateSubCommand::ApiProductVersion(a) => {
                &&& c.request matches Request::CreateVersion(r)
                &&& r.describes(a)
                &&& c.path@ == versions_path(a.product_id@)
                &&& c.action is Create
            },
            CreateSubCommand::ApiProductVersionSpecification(a) => {
                &&& c.request matches Request::CreateSpecification(r)
                &&& r.describes(a, file_text)
                &&& c.path@ == specifications_path(a.product_id@, a.product_version_id@)
                &&& c.action is Create
            },
        },
        EntityType::Delete(delete) => match delete.command {
            DeleteSubCommand::ApiProduct(a) => {
                &&& c.request matches Request::DeleteProduct(r)
                &&& r.id == a.id
                &&& c.path@ == product_path(a.id@)
                &&& c.action is Delete
            },
            DeleteSubCommand::ApiProductVersion(a) => {
                &&& c.request matches Request::DeleteVersion(r)
                &&& r.id == a.id
                &&& r.product_id == a.product_id
                &&& c.path@ == version_path(a.product_id@, a.id@)
                &&& c.action is Delete
            },
            DeleteSubCommand::ApiProductVersionSpecification(a) => {
                &&& c.request matches Request::DeleteSpecification(r)
                &&& r.id == a.id
                &&& r.product_id == a.product_id
                &&& r.product_version_id == a.product_version_id
                &&& c.path@ == specification_path(a.product_id@, a.product_version_id@, a.id@)
                &&& c.action is Delete
            },
        },
        EntityType::Patch(patch) => match patch.command {
            PatchSubCommand::ApiProduct(a) => {
                &&& c.request matches Request::PatchProduct(r)
                &&& r.describes(a)
                &&& c.path@ == product_path(a.id@)
                &&& c.action is PatchPruned
            },
            PatchSubCommand::ApiProductVersionSpecification(a) => {
                &&& c.request matches Request::PatchSpecification(r)
                &&& r.describes(a, file_text)
                &&& c.path@ == specification_path(a.product_id@, a.product_version_id@, a.id@)
                &&& c.action is Patch
            },
        },
    }
}

/// The command that the arguments stand for. `file_text` is the text of the
/// file that the command needs, or none where it needs none or the file
/// could not be read.
pub fn command_for(args: KonnectCLIArgs, file_text: Option<String>) -> (c: Command)
    requires
        command_ready(args, file_text),
    ensures
        stands_for(c, args, file_text),
{
    match args.entity_type {
        EntityType::Get(get) => match get.command {
            GetSubCommand::ApiProduct(a) => {
                let request = GetAPIProductRequest::new(a);
                let target = product_fetch(&request);
                let request = if target.list {
                    Request::GetProducts(GetAPIProductsArrayRequest {  })
                } else {
                    Request::GetProduct(request)
                };
                Command { request, path: target.path, action: Action::Fetch(target.filter) }
            },
            GetSubCommand::ApiProductVersion(a) => match a.id {
                Some(id) => Command {
                    request: Request::GetVersion(GetApiProductVersionRequest::new()),
                    path: product_version_path(a.product_id.as_str(), id.as_str()),
                    action: Action::Fetch(FetchFilter::Unfiltered),
                },
                None => Command {
                    request: Request::GetVersions(GetAllApiProductVersionRequest::new()),
                    path: product_versions_path(a.product_id.as_str()),
                    action: Action::Fetch(FetchFilter::Unfiltered),
                },
            },
            GetSubCommand::ApiProductVersionSpecification(a) => match a.id {
                Some(id) => Command {
                    request: Request::GetSpecification(GetAPIProductVersionSpecRequest::new()),
                    path: version_specification_path(
                        a.product_id.as_str(),
                        a.product_version_id.as_str(),
                        id.as_str(),
                    ),
                    action: Action::Fetch(FetchFilter::Unfiltered),
                },
                None => Command {
                    request: Request::GetSpecifications(
                        GetAllAPIProductVersionSpecRequest::new(),
                    ),
                    path: version_specifications_path(
                        a.product_id.as_str(),
                        a.product_version_id.as_str(),
                    ),
                    action: Action::Fetch(FetchFilter::Unfiltered),
                },
            },
        },
        EntityType::Create(create) => match create.command {
            CreateSubCommand::ApiProduct(a) => Command {
                request: Request::CreateProduct(APIProductRequest::new(a)),
                path: api_products_path(),
                action: Action::Create,
            },
            CreateSubCommand::ApiProductVersion(a) => {
                let path = product_versions_path(a.product_id.as_str());
                Command {
                    request: Request::CreateVersion(APIProductVersionRequest::new(a)),
                    path,
                    action: Action::Create,
                }
            },
            CreateSubCommand::ApiProductVersionSpecification(a) => {
                let path = version_specifications_path(
                    a.product_id.as_str(),
                    a.product_version_id.as_str(),
                );
                Command {
                    request: Request::CreateSpecification(
                        CreateAPIProductVersionSpecRequest::new(a, file_text),
                    ),
                    path,
                    action: Action::Create,
                }
            },
        },
        EntityType::Delete(delete) => match delete.command {
            DeleteSubCommand::ApiProduct(a) => {
                let request = DeleteAPIProductRequest::new(a);
                let path = api_product_path(request.id.as_str());
                Command { request: Request::DeleteProduct(request), path, action: Action::Delete }
            },
            DeleteSubCommand::ApiProductVersion(a) => {
                let request = DeleteAPIProductVersionRequest::new(a);
                let path = product_version_path(request.product_id.as_str(), request.id.as_str());
                Command { request: Request::DeleteVersion(request), path, action: Action::Delete }
            },
            DeleteSubCommand::ApiProductVersionSpecification(a) => {
                let request = DeleteAPIProductVersionSpecRequest::new(&a);
                let path = version_specification_path(
                    a.product_id.as_str(),
                    a.product_version_id.as_str(),
                    a.id.as_str(),
                );
                Command {
                    request: Request::DeleteSpecification(request),
                    path,
                    action: Action::Delete,
                }
            },
        },
        EntityType::Patch(patch) => match patch.command {
            PatchSubCommand::ApiProduct(a) => {
                let request = PatchAPIProductRequest::new(&a);
                let path = api_product_path(a.id.as_str());
                Command {
                    request: Request::PatchProduct(request),
                    path,
                    action: Action::PatchPruned,
                }
            },
            PatchSubCommand::ApiProductVersionSpecification(a) => {
                let request = PatchAPIProductVersionSpecRequest::new(&a, file_text);
                let path = version_specification_path(
                    a.product_id.as_str(),
                    a.product_version_id.as_str(),
                    a.id.as_str(),
                );
                Command {
                    request: Request::PatchSpecification(request),
                    path,
                    action: Action::Patch,
                }
            },
        },
    }
}

/// The operation of an action, given the request written as JSON: an
/// update carries that JSON as its body, pruned where the action says so.
pub fn operation_for(action: Action, body: JsonValue) -> (operation: Operation)
    ensures
        match action {
            Action::Fetch(filter) => operation == Operation::Fetch(filter),
            Action::Delete => operation is Delete,
            Action::Create => operation is Create,
            Action::Patch => operation == Operation::Patch(body),
            Action::PatchPruned => operation matches Operation::Patch(sent) && sent@ == pruned(
                body@,
            ),
        },
{
    match action {
        Action::Fetch(filter) => Operation::Fetch(filter),
        Action::Delete => Operation::Delete,
        Action::Create => Operation::Create,
        Action::Patch => Operation::Patch(body),
        Action::PatchPruned => Operation::Patch(filter_empty_fields(body)),
    }
}

} // verus!
