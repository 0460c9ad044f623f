//! One command, step by step: which request it sends, what its reply
//! yields, and what is shown for it.
//!
//! The caller runs the steps: it sends the request of [`plan`], hands the
//! reply to [`outcome`], and shows what [`report`] gives.

use crate::api::api_products::GetAPIProductRequest;
use crate::utils::json::JsonValue;
use crate::utils::konnect_utils::{
    bearer, filter_query, query_view, read_delete_reply, read_reply, status_text, is_success,
    FetchFilter, HttpReply, HttpRequest, KonnectClient, Method, RequestError,
};
use crate::utils::text::{joined, joined3};
use vstd::prelude::*;

verus! {

/// What to do with a resource.
#[derive(Debug, PartialEq, Eq)]
pub enum Operation {
    /// Read it, or the list of them that the filter leaves.
    Fetch(FetchFilter),
    /// Remove it.
    Delete,
    /// Make it, from the payload of the request.
    Create,
    /// Change it, by the given body.
    Patch(JsonValue),
}

/// Which part of a successful reply is the result.
#[derive(Debug, Clone, Copy, PartialEq, Eq, Structural)]
pub enum Expect {
    /// The body.
    Body,
    /// The status, written in decimal.
    Status,
}

/// A request together with what is expected of its reply.
#[derive(Debug, PartialEq, Eq)]
pub struct Call {
    pub request: HttpRequest,
    pub expect: Expect,
}

/// What is shown for a command.
#[derive(Debug, PartialEq, Eq)]
pub enum Output {
    /// The result, for the standard output.
    Print(String),
    /// A failure, for the log.
    Log(String),
}

/// The method of an operation.
pub open spec fn method_of(operation: Operation) -> Method {
    match operation {
        Operation::Fetch(_) => Method::Get,
        Operation::Delete => Method::Delete,
        Operation::Create => Method::Post,
        Operation::Patch(_) => Method::Patch,
    }
}

/// The query parameter of an operation, if it has one.
pub open spec fn query_of(operation: Operation) -> Option<(Seq<char>, Seq<char>)> {
    match operation {
        Operation::Fetch(filter) => filter_query(filter),
        _ => None,
    }
}

/// The body that an operation sends, if it sends one: a creation sends the
/// payload, an update its own body.
pub open spec fn body_of(operation: Operation, payload: JsonValue) -> Option<JsonValue> {
    match operation {
        Operation::Create => Some(payload),
        Operation::Patch(body) => Some(body),
        _ => None,
    }
}

/// What an operation expects of its reply: a deletion its status, every
/// other its body.
pub open spec fn expect_of(operation: Operation) -> Expect {
    match operation {
        Operation::Delete => Expect::Status,
        _ => Expect::Body,
    }
}

/// The one request of an operation on `path`. `payload` is the request
/// written as JSON; only a creation sends it.
pub fn plan(client: &KonnectClient, path: &str, operation: Operation, payload: JsonValue) -> (call:
    Call)
    ensures
        call.request.method == method_of(operation),
        call.request.url@ == client.url() + path@,
        call.request.authorization@ == bearer(client.auth_token()),
        query_view(call.request.query) == query_of(operation),
        call.request.body == body_of(operation, payload),
        call.expect == expect_of(operation),
{
    match operation {
        Operation::Fetch(filter) => Call {
            request: client.fetch(path, filter),
            expect: Expect::Body,
        },
        Operation::Delete => Call { request: client.delete(path), expect: Expect::Status },
        Operation::Create => Call { request: client.create(path, payload), expect: Expect::Body },
        Operation::Patch(body) => Call {
            request: client.patch(path, body),
            expect: Expect::Body,
        },
    }
}

/// What a reply yields. `Err` as input is a request that got no reply, with
/// the reason.
pub fn outcome(expect: Expect, reply: Result<HttpReply, String>) -> (r: Result<
    String,
    RequestError,
>)
    ensures
        match reply {
            Ok(answer) => if is_success(answer.status) {
                r is Ok && r->Ok_0@ == match expect {
                    Expect::Body => answer.body@,
                    Expect::Status => status_text(answer.status),
                }
            } else {
                r == Err::<String, RequestError>(RequestError::Rejected(answer.body))
            },
            Err(reason) => r == Err::<String, RequestError>(RequestError::Network(reason)),
        },
{
    match expect {
        Expect::Body => read_reply(reply),
        Expect::Status => read_delete_reply(reply),
    }
}

/// The line that is logged for a failed command.
pub open spec fn failure_line(path: Seq<char>, reason: Seq<char>) -> Seq<char> {
    "Error processing request for "@ + path + " : "@ + reason
}

/// What is shown for the outcome of the command on `path`: the result is
/// printed as it is, a failure is logged with the path and its reason.
pub fn report(path: &str, outcome: Result<String, RequestError>) -> (output: Output)
    ensures
        match outcome {
            Ok(text) => output == Output::Print(text),
            Err(error) => output is Log && output->Log_0@ == failure_line(path@, error.text()),
        },
{
    match outcome {
        Ok(text) => Output::Print(text),
        Err(error) => {
            let head = joined3("Error processing request for ", path, " : ");
            let reason = error.message();
            Output::Log(joined(head.as_str(), reason.as_str()))
        },
    }
}

/// The path of the list of products.
pub open spec fn products_path() -> Seq<char> {
    "/api-products"@
}

/// The path of one product.
pub open spec fn product_path(product_id: Seq<char>) -> Seq<char> {
    products_path() + "/"@ + product_id
}

/// The path of the versions of a product.
pub open spec fn versions_path(product_id: Seq<char>) -> Seq<char> {
    product_path(product_id) + "/product-versions"@
}

/// The path of one version.
pub open spec fn version_path(product_id: Seq<char>, version_id: Seq<char>) -> Seq<char> {
    versions_path(product_id) + "/"@ + version_id
}

/// The path of the specification files of a version.
pub open spec fn specifications_path(product_id: Seq<char>, version_id: Seq<char>) -> Seq<char> {
    version_path(product_id, version_id) + "/specifications"@
}

/// The path of one specification file.
pub open spec fn specification_path(
    product_id: Seq<char>,
    version_id: Seq<char>,
    id: Seq<char>,
) -> Seq<char> {
    specifications_path(product_id, version_id) + "/"@ + id
}

/// The path of the list of products.
pub fn api_products_path() -> (r: String)
    ensures
        r@ == products_path(),
{
    String::from_str("/api-products")
}

/// The path of the product `product_id`.
pub fn api_product_path(product_id: &str) -> (r: String)
    ensures
        r@ == product_path(product_id@),
{
    joined3("/api-products", "/", product_id)
}

/// The path of the versions of the product `product_id`.
pub fn product_versions_path(product_id: &str) -> (r: String)
    ensures
        r@ == versions_path(product_id@),
{
    let product = api_product_path(product_id);
    joined(product.as_str(), "/product-versions")
}

/// The path of the version `version_id` of the product `product_id`.
pub fn product_version_path(product_id: &str, version_id: &str) -> (r: String)
    ensures
        r@ == version_path(product_id@, version_id@),
{
    let versions = product_versions_path(product_id);
    joined3(versions.as_str(), "/", version_id)
}

/// The path of the specification files of a version.
pub fn version_specifications_path(product_id: &str, version_id: &str) -> (r: String)
    ensures
        r@ == specifications_path(product_id@, version_id@),
{
    let version = product_version_path(product_id, version_id);
    joined(version.as_str(), "/specifications")
}

/// The path of the specification file `id` of a version.
pub fn version_specification_path(product_id: &str, version_id: &str, id: &str) -> (r: String)
    ensures
        r@ == specification_path(product_id@, version_id@, id@),
{
    let all = version_specifications_path(product_id, version_id);
    joined3(all.as_str(), "/", id)
}

/// Where a fetch of products goes.
#[derive(Debug, PartialEq, Eq)]
pub struct ProductFetch {
    pub path: String,
    pub filter: FetchFilter,
    /// Whether the reply is a list of products, rather than one product.
    pub list: bool,
}

/// Where a fetch of products goes. A name asks for the list of products of
/// that name, whatever the id; without a name, an id asks for that product;
/// without both, the whole list is asked for.
pub fn product_fetch(request: &GetAPIProductRequest) -> (r: ProductFetch)
    ensures
        if request.name@.len() > 0 {
            &&& r.path@ == products_path()
            &&& r.filter matches FetchFilter::FieldName(field, value)
            &&& field@ == "name"@
            &&& value@ == request.name@
            &&& r.list
        } else if request.id@.len() > 0 {
            &&& r.path@ == product_path(request.id@)
            &&& r.filter is Unfiltered
            &&& !r.list
        } else {
            &&& r.path@ == products_path()
            &&& r.filter is Unfiltered
            &&& r.list
        },
{
    if request.name.as_str().unicode_len() > 0 {
        ProductFetch {
            path: api_products_path(),
            filter: FetchFilter::FieldName(String::from_str("name"), request.name.clone()),
            list: true,
        }
    } else if request.id.as_str().unicode_len() > 0 {
        ProductFetch {
            path: api_product_path(request.id.as_str()),
            filter: FetchFilter::Unfiltered,
            list: false,
        }
    } else {
        ProductFetch { path: api_products_path(), filter: FetchFilter::Unfiltered, list: true }
    }
}

} // verus!
