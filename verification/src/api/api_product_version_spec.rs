//! Requests and replies for the specification file of a product version.

use crate::api::api_utils::{file_name, get_filename_from_path, string_to_base64};
use crate::api::encoding::{base64_len, base64_text};
use crate::api::common_structs::Meta;
use crate::cli::api_product_version_spec::{
    CreateApiProductVersionSpec, DeleteApiProductVersionSpec, PatchApiProductVersionSpec,
};
use vstd::prelude::*;
use vstd::utf8::encode_utf8;

verus! {

/// Whether a file's text, if it was read, is short enough for its base64
/// text to have a length.
pub open spec fn can_encode(file_text: Option<String>) -> bool {
    file_text is Some ==> base64_len(encode_utf8(file_text->0@).len()) <= usize::MAX
}

/// What stands for the content where a file to replace another could not be
/// read.
pub open spec fn no_content() -> Seq<char> {
    "NO_CONTENT"@
}

/// The body that replaces an uploaded file.
#[derive(Debug)]
pub struct PatchAPIProductVersionSpecRequest {
    pub name: String,
    pub content: String,
}

impl PatchAPIProductVersionSpecRequest {
    /// Whether this is the replacement that the arguments ask for: named
    /// as the file of the path, with the file's text in base64 as content,
    /// or a fixed word where the file could not be read.
    pub open spec fn describes(
        self,
        args: PatchApiProductVersionSpec,
        file_text: Option<String>,
    ) -> bool {
        &&& Some(self.name@) == file_name(args.path_to_spec_file@)
        &&& self.content@ == match file_text {
            Some(text) => base64_text(encode_utf8(text@)),
            None => no_content(),
        }
    }

    /// The replacement that the arguments ask for. `file_text` is the text
    /// of the file at the given path, or none if it could not be read: the
    /// request is made all the same.
    pub fn new(spec_cli: &PatchApiProductVersionSpec, file_text: Option<String>) -> (r: Self)
        requires
            file_name(spec_cli.path_to_spec_file@) is Some,
            can_encode(file_text),
        ensures
            r.describes(*spec_cli, file_text),
    {
        let name = match get_filename_from_path(spec_cli.path_to_spec_file.as_str()) {
            Some(name) => String::from_str(name),
            None => String::new(),
        };
        let content = match file_text {
            Some(text) => string_to_base64(text),
            None => String::from_str("NO_CONTENT"),
        };
        PatchAPIProductVersionSpecRequest { name, content }
    }
}

/// Names the uploaded file to delete.
#[derive(Debug)]
pub struct DeleteAPIProductVersionSpecRequest {
    pub id: String,
    pub product_id: String,
    pub product_version_id: String,
}

impl DeleteAPIProductVersionSpecRequest {
    /// The request for the file that the arguments name.
    pub fn new(spec_cli: &DeleteApiProductVersionSpec) -> (r: Self)
        ensures
            r.id == spec_cli.id,
            r.product_id == spec_cli.product_id,
            r.product_version_id == spec_cli.product_version_id,
    {
        DeleteAPIProductVersionSpecRequest {
            id: spec_cli.id.clone(),
            product_id: spec_cli.product_id.clone(),
            product_version_id: spec_cli.product_version_id.clone(),
        }
    }
}

/// What a deletion answers.
#[derive(Debug)]
pub struct DeleteResponse {
    pub respons_code: i32,
}

/// Asks for one uploaded file.
#[derive(Debug)]
pub struct GetAPIProductVersionSpecRequest {}

impl GetAPIProductVersionSpecRequest {
    /// The request; it carries nothing.
    pub fn new() -> Self {
        GetAPIProductVersionSpecRequest {  }
    }
}

/// Asks for the list of uploaded files.
#[derive(Debug)]
pub struct GetAllAPIProductVersionSpecRequest {}

impl GetAllAPIProductVersionSpecRequest {
    /// The request; it carries nothing.
    pub fn new() -> Self {
        GetAllAPIProductVersionSpecRequest {  }
    }
}

/// A list of uploaded files.
#[derive(Debug)]
pub struct GetAllAPIProductVersionSpecResponse {
    pub data: Vec<APIProductVersionSpecResponse>,
    pub meta: Meta,
}

/// The body that uploads a file.
#[derive(Debug)]
pub struct CreateAPIProductVersionSpecRequest {
    pub name: String,
    pub content: String,
}

impl CreateAPIProductVersionSpecRequest {
    /// Whether this is the upload that the arguments ask for: named as the
    /// file of the path, with the file's text in base64 as content. A path
    /// without a file name gives an empty name, and a file that could not
    /// be read an empty content.
    pub open spec fn describes(
        self,
        args: CreateApiProductVersionSpec,
        file_text: Option<String>,
    ) -> bool {
        &&& self.name@ == match file_name(args.path_to_spec_file@) {
            Some(name) => name,
            None => Seq::empty(),
        }
        &&& self.content@ == match file_text {
            Some(text) => base64_text(encode_utf8(text@)),
            None => Seq::empty(),
        }
    }

    /// The upload that the arguments ask for. `file_text` is the text of the
    /// file at the given path, or none if it could not be read: the request
    /// is made all the same.
    pub fn new(spec_cli: CreateApiProductVersionSpec, file_text: Option<String>) -> (r: Self)
        requires
            can_encode(file_text),
        ensures
            r.describes(spec_cli, file_text),
    {
        let name = match get_filename_from_path(spec_cli.path_to_spec_file.as_str()) {
            Some(name) => String::from_str(name),
            None => String::new(),
        };
        let content = match file_text {
            Some(text) => string_to_base64(text),
            None => String::new(),
        };
        CreateAPIProductVersionSpecRequest { name, content }
    }
}

/// An uploaded file as the service describes it.
#[derive(Debug)]
pub struct APIProductVersionSpecResponse {
    pub id: String,
    pub name: String,
    pub content: String,
    pub created_at: String,
    pub updated_at: String,
}

} // verus!
