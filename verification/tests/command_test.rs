use konnectctl::cli::api_product_version_spec::{
    CreateApiProductVersionSpec, DeleteApiProductVersionSpec, GetApiProductVersionSpec,
    PatchApiProductVersionSpec,
};
use konnectctl::cli::api_product_versions_cli::{
    CreateApiProductVersion, DeleteAPIProductVersion, GetAPIProductVersion, PublishStatus,
};
use konnectctl::cli::api_products_cli::{
    CreateApiProduct, DeleteApiProduct, GetApiProduct, PatchApiProduct,
};
use konnectctl::cli::main_cli::{
    CreateCommand, CreateSubCommand, DeleteCommand, DeleteSubCommand, EntityType, GetCommand,
    GetSubCommand, KonnectCLIArgs, PatchCommand, PatchSubCommand,
};
use konnectctl::command::{command_for, file_to_read, operation_for, Action, Request};
use konnectctl::harness::Operation;
use konnectctl::utils::json::JsonValue;
use konnectctl::utils::konnect_utils::FetchFilter;

fn get(command: GetSubCommand) -> KonnectCLIArgs {
    KonnectCLIArgs { entity_type: EntityType::Get(GetCommand { command }) }
}

fn create(command: CreateSubCommand) -> KonnectCLIArgs {
    KonnectCLIArgs { entity_type: EntityType::Create(CreateCommand { command }) }
}

fn delete(command: DeleteSubCommand) -> KonnectCLIArgs {
    KonnectCLIArgs { entity_type: EntityType::Delete(DeleteCommand { command }) }
}

fn patch(command: PatchSubCommand) -> KonnectCLIArgs {
    KonnectCLIArgs { entity_type: EntityType::Patch(PatchCommand { command }) }
}

fn some(s: &str) -> Option<String> {
    Some(s.to_string())
}

fn unfiltered() -> Action {
    Action::Fetch(FetchFilter::Unfiltered)
}

#[test]
fn get_commands_fetch() {
    let args = get(GetSubCommand::ApiProduct(GetApiProduct { id: some("42"), name: None }));
    assert_eq!(file_to_read(&args), None);
    let command = command_for(args, None);
    assert_eq!(command.path, "/api-products/42");
    assert_eq!(command.action, unfiltered());
    match command.request {
        Request::GetProduct(r) => assert_eq!((r.id.as_str(), r.name.as_str()), ("42", "")),
        other => panic!("{:?}", other),
    }

    let args = get(GetSubCommand::ApiProduct(GetApiProduct { id: some("42"), name: some("abd") }));
    let command = command_for(args, None);
    assert_eq!(command.path, "/api-products");
    assert_eq!(
        command.action,
        Action::Fetch(FetchFilter::FieldName("name".to_string(), "abd".to_string()))
    );
    assert!(matches!(command.request, Request::GetProducts(_)));

    let args = get(GetSubCommand::ApiProduct(GetApiProduct { id: some(""), name: None }));
    let command = command_for(args, None);
    assert_eq!(command.path, "/api-products");
    assert_eq!(command.action, unfiltered());
    assert!(matches!(command.request, Request::GetProducts(_)));

    let version = |id: Option<String>| {
        get(GetSubCommand::ApiProductVersion(GetAPIProductVersion {
            product_id: "p".to_string(),
            id,
        }))
    };
    let command = command_for(version(some("v")), None);
    assert_eq!(command.path, "/api-products/p/product-versions/v");
    assert_eq!(command.action, unfiltered());
    assert!(matches!(command.request, Request::GetVersion(_)));
    let command = command_for(version(None), None);
    assert_eq!(command.path, "/api-products/p/product-versions");
    assert!(matches!(command.request, Request::GetVersions(_)));

    let file = |id: Option<String>| {
        get(GetSubCommand::ApiProductVersionSpecification(GetApiProductVersionSpec {
            product_id: "p".to_string(),
            product_version_id: "v".to_string(),
            id,
        }))
    };
    let command = command_for(file(some("s")), None);
    assert_eq!(command.path, "/api-products/p/product-versions/v/specifications/s");
    assert_eq!(command.action, unfiltered());
    assert!(matches!(command.request, Request::GetSpecification(_)));
    let command = command_for(file(None), None);
    assert_eq!(command.path, "/api-products/p/product-versions/v/specifications");
    assert!(matches!(command.request, Request::GetSpecifications(_)));
}

#[test]
fn create_commands_create() {
    let args = create(CreateSubCommand::ApiProduct(CreateApiProduct {
        name: "Test API Product".to_string(),
        description: "Test API Product".to_string(),
        labels: some("a:b"),
        portal_ids: None,
    }));
    let command = command_for(args, None);
    assert_eq!(command.path, "/api-products");
    assert_eq!(command.action, Action::Create);
    match command.request {
        Request::CreateProduct(r) => {
            assert_eq!(r.name, "Test API Product");
            assert_eq!(r.labels.unwrap().get(&"a".to_string()), Some(&"b".to_string()));
        }
        other => panic!("{:?}", other),
    }

    let args = create(CreateSubCommand::ApiProductVersion(CreateApiProductVersion {
        product_id: "p".to_string(),
        name: "v1".to_string(),
        publish_status: PublishStatus::Unpublished,
        deprecated: None,
        gateway_service_id: some("gs"),
        control_plane_id: some("cp"),
    }));
    let command = command_for(args, None);
    assert_eq!(command.path, "/api-products/p/product-versions");
    assert_eq!(command.action, Action::Create);
    match command.request {
        Request::CreateVersion(r) => {
            assert_eq!(r.name, "v1");
            assert_eq!(r.gateway_service.unwrap().id, "gs");
        }
        other => panic!("{:?}", other),
    }

    let args = create(CreateSubCommand::ApiProductVersionSpecification(
        CreateApiProductVersionSpec {
            product_id: "p".to_string(),
            product_version_id: "v".to_string(),
            path_to_spec_file: "./tests/spec/spec-file.yaml".to_string(),
        },
    ));
    assert_eq!(file_to_read(&args), some("./tests/spec/spec-file.yaml"));
    let command = command_for(args, some("foo"));
    assert_eq!(command.path, "/api-products/p/product-versions/v/specifications");
    assert_eq!(command.action, Action::Create);
    match command.request {
        Request::CreateSpecification(r) => {
            assert_eq!(r.name, "spec-file.yaml");
            assert_eq!(r.content, "Zm9v");
        }
        other => panic!("{:?}", other),
    }
}

#[test]
fn delete_commands_delete() {
    let args = delete(DeleteSubCommand::ApiProduct(DeleteApiProduct { id: "42".to_string() }));
    let command = command_for(args, None);
    assert_eq!(command.path, "/api-products/42");
    assert_eq!(command.action, Action::Delete);
    assert!(matches!(command.request, Request::DeleteProduct(r) if r.id == "42"));

    let args = delete(DeleteSubCommand::ApiProductVersion(DeleteAPIProductVersion {
        id: "v".to_string(),
        product_id: "p".to_string(),
    }));
    let command = command_for(args, None);
    assert_eq!(command.path, "/api-products/p/product-versions/v");
    assert_eq!(command.action, Action::Delete);
    assert!(matches!(command.request, Request::DeleteVersion(r) if r.id == "v"));

    let args = delete(DeleteSubCommand::ApiProductVersionSpecification(
        DeleteApiProductVersionSpec {
            product_id: "p".to_string(),
            product_version_id: "v".to_string(),
            id: "s".to_string(),
        },
    ));
    let command = command_for(args, None);
    assert_eq!(command.path, "/api-products/p/product-versions/v/specifications/s");
    assert_eq!(command.action, Action::Delete);
    assert!(matches!(command.request, Request::DeleteSpecification(r) if r.id == "s"));
}

#[test]
fn patch_commands_patch() {
    let args = patch(PatchSubCommand::ApiProduct(PatchApiProduct {
        id: "42".to_string(),
        name: some("New API Product"),
        description: None,
        labels: None,
        portal_ids: None,
    }));
    assert_eq!(file_to_read(&args), None);
    let command = command_for(args, None);
    assert_eq!(command.path, "/api-products/42");
    assert_eq!(command.action, Action::PatchPruned);
    assert!(matches!(command.request, Request::PatchProduct(r) if r.name == some("New API Product")));

    let args = patch(PatchSubCommand::ApiProductVersionSpecification(
        PatchApiProductVersionSpec {
            product_id: "p".to_string(),
            product_version_id: "v".to_string(),
            id: "s".to_string(),
            path_to_spec_file: "another_spec.yaml".to_string(),
        },
    ));
    assert_eq!(file_to_read(&args), some("another_spec.yaml"));
    let command = command_for(args, None);
    assert_eq!(command.path, "/api-products/p/product-versions/v/specifications/s");
    assert_eq!(command.action, Action::Patch);
    match command.request {
        Request::PatchSpecification(r) => {
            assert_eq!(r.name, "another_spec.yaml");
            assert_eq!(r.content, "NO_CONTENT");
        }
        other => panic!("{:?}", other),
    }
}

#[test]
fn an_action_becomes_an_operation() {
    let body = || {
        JsonValue::Object(vec![
            ("name".to_string(), JsonValue::Text("New API Product".to_string())),
            ("description".to_string(), JsonValue::Null),
            ("labels".to_string(), JsonValue::Object(vec![])),
            ("portal_ids".to_string(), JsonValue::Array(vec![])),
        ])
    };
    assert_eq!(operation_for(Action::Create, body()), Operation::Create);
    assert_eq!(operation_for(Action::Delete, body()), Operation::Delete);
    assert_eq!(
        operation_for(Action::Fetch(FetchFilter::Unfiltered), body()),
        Operation::Fetch(FetchFilter::Unfiltered)
    );
    assert_eq!(operation_for(Action::Patch, body()), Operation::Patch(body()));
    assert_eq!(
        operation_for(Action::PatchPruned, body()),
        Operation::Patch(JsonValue::Object(vec![(
            "name".to_string(),
            JsonValue::Text("New API Product".to_string())
        )]))
    );
}
