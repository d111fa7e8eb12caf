//! The header helpers under their first module path.

pub use crate::net::header::{is_accepting_html, AcceptIter, Location, MediaType};
