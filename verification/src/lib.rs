//! The import service of the schani photo library: the bookkeeping of an
//! import (its row, the files that belong to it), the decisions that the web
//! handlers make between their I/O steps, the message that announces a
//! finished import, and the transfer of an image to the store.
use vstd::prelude::*;

pub mod decimal;
pub mod models;
pub mod messaging;
pub mod service;
pub mod flow;
pub mod store;
pub mod web;

pub use web::webservice::ImportWebService;
