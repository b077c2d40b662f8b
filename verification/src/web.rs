//! The web service: its routes, the path it reads an import's id from, and
//! where each request starts.
pub mod extractors;
pub mod handlers;
pub mod router;
pub mod webservice;
