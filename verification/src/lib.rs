//! Verified core of the Linkura command-line client: response handling for the
//! game API, configuration resolution, the login flow and the petal-exchange report.

pub mod api;
pub mod archive;
pub mod config;
pub mod json;
pub mod laws;
pub mod login;
pub mod petal;
pub mod text;
