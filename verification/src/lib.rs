pub mod text;
pub mod validation;
pub mod decimal;
pub mod http_range;
pub mod paths;
pub mod drop_name;
pub mod crypto;
pub mod errors;
pub mod metadata;
pub mod config;
pub mod sessions;
pub mod vault;
pub mod api;
