//! The response bodies under their first module path.

pub use crate::net::body::{error_html, Html, Json, SpaPage};
