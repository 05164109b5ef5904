//! The request-independent core of a small single-page-application host:
//! the reply of its one API route and the cross-origin isolation headers
//! that every response leaves with.

pub mod api;
pub mod fields;
pub mod isolation;
pub mod json;
pub mod site;
