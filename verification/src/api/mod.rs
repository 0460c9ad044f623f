pub mod api_product_version_spec;
pub mod api_product_versions;
pub mod api_products;
pub mod api_utils;
pub mod common_structs;
pub mod encoding;
pub mod labels;
