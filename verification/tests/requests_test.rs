use konnectctl::api::api_product_version_spec::{
    CreateAPIProductVersionSpecRequest, DeleteAPIProductVersionSpecRequest,
    GetAPIProductVersionSpecRequest, GetAllAPIProductVersionSpecRequest,
    PatchAPIProductVersionSpecRequest,
};
use konnectctl::api::api_product_versions::{
    APIProductVersionRequest, DeleteAPIProductVersionRequest, GetAllApiProductVersionRequest,
    GetApiProductVersionRequest,
};
use konnectctl::api::api_products::{
    APIProductRequest, DeleteAPIProductRequest, GetAPIProductRequest, PatchAPIProductRequest,
};
use konnectctl::cli::api_product_version_spec::{
    CreateApiProductVersionSpec, DeleteApiProductVersionSpec, PatchApiProductVersionSpec,
};
use konnectctl::cli::api_product_versions_cli::{
    CreateApiProductVersion, DeleteAPIProductVersion, PublishStatus,
};
use konnectctl::cli::api_products_cli::{
    CreateApiProduct, DeleteApiProduct, GetApiProduct, PatchApiProduct,
};

fn version_args(gateway: Option<&str>, control_plane: Option<&str>) -> CreateApiProductVersion {
    CreateApiProductVersion {
        product_id: "prod".to_string(),
        name: "v1".to_string(),
        publish_status: PublishStatus::Unpublished,
        deprecated: None,
        gateway_service_id: gateway.map(|s| s.to_string()),
        control_plane_id: control_plane.map(|s| s.to_string()),
    }
}

#[test]
fn version_without_gateway_service_has_none() {
    for (gateway, control_plane) in [
        (None, None),
        (Some("gs"), None),
        (None, Some("cp")),
        (Some(""), Some("cp")),
        (Some("gs"), Some("")),
        (Some(""), Some("")),
    ] {
        let request = APIProductVersionRequest::new(version_args(gateway, control_plane));
        assert!(request.gateway_service.is_none());
        assert_eq!(request.name, "v1");
        assert_eq!(request.publish_status, "unpublished");
        assert!(!request.deprecated);
    }
}

#[test]
fn version_with_gateway_service_has_both_ids() {
    let request = APIProductVersionRequest::new(version_args(Some("gs-1"), Some("cp-2")));
    let service = request.gateway_service.unwrap();
    assert_eq!(service.id, "gs-1");
    assert_eq!(service.control_plane_id, "cp-2");
}

#[test]
fn version_status_and_deprecation_follow_the_arguments() {
    let mut args = version_args(None, None);
    args.publish_status = PublishStatus::Published;
    args.deprecated = Some("true".to_string());
    let request = APIProductVersionRequest::new(args);
    assert_eq!(request.publish_status, "published");
    assert!(request.deprecated);
    for word in ["false", "True", "TRUE", "", "1", "true "] {
        let mut args = version_args(None, None);
        args.deprecated = Some(word.to_string());
        assert!(!APIProductVersionRequest::new(args).deprecated);
    }
}

#[test]
fn product_request_reads_labels_and_portal_ids() {
    let request = APIProductRequest::new(CreateApiProduct {
        name: "Test API Product".to_string(),
        description: "A product".to_string(),
        labels: Some("k1:v1,k2:v2".to_string()),
        portal_ids: Some("portal-1,portal-2".to_string()),
    });
    assert_eq!(request.name, "Test API Product");
    assert_eq!(request.description, "A product");
    let labels = request.labels.unwrap();
    assert_eq!(labels.len(), 2);
    assert_eq!(labels.get(&"k1".to_string()), Some(&"v1".to_string()));
    assert_eq!(labels.get(&"k2".to_string()), Some(&"v2".to_string()));
    assert_eq!(request.portal_ids, Some(vec!["portal-1".to_string(), "portal-2".to_string()]));
}

#[test]
fn product_request_without_labels_has_empty_ones() {
    let request = APIProductRequest::new(CreateApiProduct {
        name: "n".to_string(),
        description: "d".to_string(),
        labels: None,
        portal_ids: None,
    });
    assert_eq!(request.labels.unwrap().len(), 0);
    assert_eq!(request.portal_ids, Some(vec![]));
}

#[test]
fn portal_ids_are_split_at_every_comma() {
    let request = APIProductRequest::new(CreateApiProduct {
        name: "n".to_string(),
        description: "d".to_string(),
        labels: None,
        portal_ids: Some(",a,,b,".to_string()),
    });
    let expected: Vec<String> = ["", "a", "", "b", ""].iter().map(|s| s.to_string()).collect();
    assert_eq!(request.portal_ids, Some(expected));
    let request = APIProductRequest::new(CreateApiProduct {
        name: "n".to_string(),
        description: "d".to_string(),
        labels: None,
        portal_ids: Some("".to_string()),
    });
    assert_eq!(request.portal_ids, Some(vec!["".to_string()]));
}

#[test]
fn product_patch_keeps_what_was_given() {
    let request = PatchAPIProductRequest::new(&PatchApiProduct {
        id: "42".to_string(),
        name: Some("New API Product".to_string()),
        description: None,
        labels: Some("a:b".to_string()),
        portal_ids: None,
    });
    assert_eq!(request.name, Some("New API Product".to_string()));
    assert_eq!(request.description, None);
    let labels = request.labels.unwrap();
    assert_eq!(labels.len(), 1);
    assert_eq!(labels.get(&"a".to_string()), Some(&"b".to_string()));
    assert_eq!(request.portal_ids, Some(vec![]));
}

#[test]
fn requests_that_only_name_a_resource() {
    assert_eq!(DeleteAPIProductRequest::new(DeleteApiProduct { id: "42".to_string() }).id, "42");
    let request = DeleteAPIProductVersionRequest::new(DeleteAPIProductVersion {
        id: "v".to_string(),
        product_id: "p".to_string(),
    });
    assert_eq!((request.id.as_str(), request.product_id.as_str()), ("v", "p"));
    let request = DeleteAPIProductVersionSpecRequest::new(&DeleteApiProductVersionSpec {
        product_id: "p".to_string(),
        product_version_id: "v".to_string(),
        id: "s".to_string(),
    });
    assert_eq!(request.id, "s");
    assert_eq!(request.product_id, "p");
    assert_eq!(request.product_version_id, "v");
    let request = GetAPIProductRequest::new(GetApiProduct { id: None, name: None });
    assert_eq!((request.id.as_str(), request.name.as_str()), ("", ""));
    let request = GetAPIProductRequest::new(GetApiProduct {
        id: Some("42".to_string()),
        name: Some("X".to_string()),
    });
    assert_eq!((request.id.as_str(), request.name.as_str()), ("42", "X"));
    let _ = GetApiProductVersionRequest::new();
    let _ = GetAllApiProductVersionRequest::new();
    let _ = GetAPIProductVersionSpecRequest::new();
    let _ = GetAllAPIProductVersionSpecRequest::new();
}

#[test]
fn upload_takes_name_from_path_and_encodes_the_text() {
    let request = CreateAPIProductVersionSpecRequest::new(
        CreateApiProductVersionSpec {
            product_id: "p".to_string(),
            product_version_id: "v".to_string(),
            path_to_spec_file: "./tests/spec/spec-file.yaml".to_string(),
        },
        Some("foobar".to_string()),
    );
    assert_eq!(request.name, "spec-file.yaml");
    assert_eq!(request.content, "Zm9vYmFy");
}

#[test]
fn upload_of_an_unreadable_file_is_empty() {
    let request = CreateAPIProductVersionSpecRequest::new(
        CreateApiProductVersionSpec {
            product_id: "p".to_string(),
            product_version_id: "v".to_string(),
            path_to_spec_file: "..".to_string(),
        },
        None,
    );
    assert_eq!(request.name, "");
    assert_eq!(request.content, "");
}

#[test]
fn replacement_takes_name_from_path_and_encodes_the_text() {
    let args = PatchApiProductVersionSpec {
        product_id: "p".to_string(),
        product_version_id: "v".to_string(),
        id: "s".to_string(),
        path_to_spec_file: "./tests/spec/another_spec.yaml".to_string(),
    };
    let request = PatchAPIProductVersionSpecRequest::new(&args, Some("fo".to_string()));
    assert_eq!(request.name, "another_spec.yaml");
    assert_eq!(request.content, "Zm8=");
    let request = PatchAPIProductVersionSpecRequest::new(&args, None);
    assert_eq!(request.name, "another_spec.yaml");
    assert_eq!(request.content, "NO_CONTENT");
}
