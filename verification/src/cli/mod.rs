pub mod api_product_version_spec;
pub mod api_product_versions_cli;
pub mod api_products_cli;
pub mod cli_utils;
pub mod main_cli;
