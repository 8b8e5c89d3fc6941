//! The request model, editor state and text utilities of an HTTP API
//! workbench, with their contracts.

pub mod text;
pub mod sql_format;
pub mod ids;
pub mod encoding;
pub mod models;
pub mod project_copy;
pub mod global_state;
pub mod api_tab;
pub mod history_storage;
pub mod collections_storage;
pub mod request;
pub mod tab_state;
pub mod json;
pub mod cloud_api;
pub mod user_state;
