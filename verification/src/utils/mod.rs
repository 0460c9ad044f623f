pub mod json;
pub mod konnect_utils;
pub mod text;
