//! Requests and replies for API products.

use crate::api::api_utils::{labels_well_formed, parsed_labels, string_to_hashmap};
use crate::api::common_structs::Meta;
use crate::api::labels::Labels;
use crate::cli::api_products_cli::{
    CreateApiProduct, DeleteApiProduct, GetApiProduct, PatchApiProduct,
};
use crate::utils::text::{split, split_text, texts};
use vstd::prelude::*;

verus! {

/// The mapping that an optional label text denotes; none is the empty
/// mapping.
pub open spec fn labels_of(text: Option<String>) -> Map<Seq<char>, Seq<char>> {
    match text {
        Some(t) => parsed_labels(t@),
        None => Map::empty(),
    }
}

/// The list that an optional comma-separated text denotes; none is the
/// empty list.
pub open spec fn portal_ids_of(text: Option<String>) -> Seq<Seq<char>> {
    match text {
        Some(t) => split(t@, ','),
        None => Seq::empty(),
    }
}

/// The text of an optional string, if there is one.
pub open spec fn text_of(s: Option<String>) -> Option<Seq<char>> {
    match s {
        Some(t) => Some(t@),
        None => None,
    }
}

/// The text of an optional string, and the empty text for none.
pub open spec fn text_or_empty(s: Option<String>) -> Seq<char> {
    match s {
        Some(t) => t@,
        None => Seq::empty(),
    }
}

/// Reads optional labels; without a text the mapping is empty.
fn read_labels(text: &Option<String>) -> (labels: Labels)
    requires
        text is Some ==> labels_well_formed(text->0@),
    ensures
        labels.wf(),
        labels@ == labels_of(*text),
{
    match text {
        Some(t) => string_to_hashmap(t.clone()),
        None => Labels::new(),
    }
}

/// Reads optional portal ids; without a text the list is empty.
fn read_portal_ids(text: &Option<String>) -> (ids: Vec<String>)
    ensures
        texts(ids@) == portal_ids_of(*text),
{
    match text {
        Some(t) => split_text(t.as_str(), ','),
        None => {
            let ids: Vec<String> = Vec::new();
            assert(texts(ids@) =~= Seq::empty());
            ids
        },
    }
}

/// A copy of an optional string.
fn copy_of(s: &Option<String>) -> (r: Option<String>)
    ensures
        text_of(r) == text_of(*s),
{
    match s {
        Some(t) => Some(t.clone()),
        None => None,
    }
}

/// The body of a product update.
#[derive(Debug)]
pub struct PatchAPIProductRequest {
    pub name: Option<String>,
    pub description: Option<String>,
    pub labels: Option<Labels>,
    pub portal_ids: Option<Vec<String>>,
}

impl PatchAPIProductRequest {
    /// Whether this is the update that the arguments ask for: name and
    /// description as given, labels and portal ids present in any case,
    /// empty where the arguments give none.
    pub open spec fn describes(self, args: PatchApiProduct) -> bool {
        &&& text_of(self.name) == text_of(args.name)
        &&& text_of(self.description) == text_of(args.description)
        &&& self.labels is Some
        &&& self.labels->0.wf()
        &&& self.labels->0@ == labels_of(args.labels)
        &&& self.portal_ids is Some
        &&& texts(self.portal_ids->0@) == portal_ids_of(args.portal_ids)
    }

    /// The update that the arguments ask for.
    pub fn new(api_product: &PatchApiProduct) -> (r: Self)
        requires
            api_product.labels is Some ==> labels_well_formed(api_product.labels->0@),
        ensures
            r.describes(*api_product),
    {
        PatchAPIProductRequest {
            name: copy_of(&api_product.name),
            description: copy_of(&api_product.description),
            labels: Some(read_labels(&api_product.labels)),
            portal_ids: Some(read_portal_ids(&api_product.portal_ids)),
        }
    }
}

/// Names the product to delete.
#[derive(Debug)]
pub struct DeleteAPIProductRequest {
    pub id: String,
}

impl DeleteAPIProductRequest {
    /// The request for the product that the arguments name.
    pub fn new(delp: DeleteApiProduct) -> (r: Self)
        ensures
            r.id == delp.id,
    {
        DeleteAPIProductRequest { id: delp.id }
    }
}

/// What a product deletion answers.
#[derive(Debug)]
pub struct DeleteAPIProductResponse {
    pub response_code: i32,
}

/// The error body of the service.
#[derive(Debug)]
pub struct APIProductError {
    pub status: u16,
    pub title: String,
    pub instance: String,
    pub detail: String,
}

/// The body of a product creation.
#[derive(Debug)]
pub struct APIProductRequest {
    pub name: String,
    pub description: String,
    pub labels: Option<Labels>,
    pub portal_ids: Option<Vec<String>>,
}

impl APIProductRequest {
    /// Whether this is the product that the arguments describe: name and
    /// description as given, labels and portal ids present in any case,
    /// empty where the arguments give none.
    pub open spec fn describes(self, args: CreateApiProduct) -> bool {
        &&& self.name == args.name
        &&& self.description == args.description
        &&& self.labels is Some
        &&& self.labels->0.wf()
        &&& self.labels->0@ == labels_of(args.labels)
        &&& self.portal_ids is Some
        &&& texts(self.portal_ids->0@) == portal_ids_of(args.portal_ids)
    }

    /// The product that the arguments describe.
    pub fn new(api_product: CreateApiProduct) -> (r: Self)
        requires
            api_product.labels is Some ==> labels_well_formed(api_product.labels->0@),
        ensures
            r.describes(api_product),
    {
        let labels = read_labels(&api_product.labels);
        let portal_ids = read_portal_ids(&api_product.portal_ids);
        APIProductRequest {
            name: api_product.name,
            description: api_product.description,
            labels: Some(labels),
            portal_ids: Some(portal_ids),
        }
    }
}

/// Names the product to fetch, by id or by name; an empty text stands for
/// none.
#[derive(Debug)]
pub struct GetAPIProductRequest {
    pub id: String,
    pub name: String,
}

impl GetAPIProductRequest {
    /// Whether this names what the arguments name, an absent id or name
    /// being the empty text.
    pub open spec fn describes(self, args: GetApiProduct) -> bool {
        &&& self.id@ == text_or_empty(args.id)
        &&& self.name@ == text_or_empty(args.name)
    }

    /// The request for what the arguments name.
    pub fn new(gap: GetApiProduct) -> (r: Self)
        ensures
            r.describes(gap),
    {
        let id = match gap.id {
            Some(id) => id,
            None => String::new(),
        };
        let name = match gap.name {
            Some(name) => name,
            None => String::new(),
        };
        GetAPIProductRequest { id, name }
    }
}

/// Asks for the list of products.
#[derive(Debug)]
pub struct GetAPIProductsArrayRequest {}

/// A list of products.
#[derive(Debug)]
pub struct APIProductsArrayResponse {
    pub data: Vec<APIProductResponse>,
    pub meta: Meta,
}

/// A product as the service describes it.
#[derive(Debug)]
pub struct APIProductResponse {
    pub id: String,
    pub name: String,
    pub description: Option<String>,
    pub portal_ids: Vec<String>,
    pub created_at: String,
    pub updated_at: String,
    pub labels: Labels,
}

} // verus!
