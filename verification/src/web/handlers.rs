//! Where each request of the web service starts; the rest of its way is
//! [`ImportFlow::step`](crate::flow::ImportFlow::step).
use vstd::prelude::*;
use crate::flow::{FlowAction, ImportFlow};
use crate::models::FileKind;
use crate::service::{ImportQuery, ImportService};
use crate::web::extractors::ImportRequestPath;

verus! {

/// The handlers of the import routes.
#[derive(Clone, Copy, Debug)]
pub struct ImportController;

impl ImportController {
    /// `GET /imports`: reads every import and answers with them.
    pub fn get_imports(service: &ImportService) -> (r: (ImportFlow, FlowAction))
        ensures
            r.0 == ImportFlow::ListingImports,
            r.1 == FlowAction::Query(ImportQuery::LoadAll),
    {
        (ImportFlow::ListingImports, FlowAction::Query(service.get_imports()))
    }

    /// `POST /imports`: reads the request, creates the import it asks for and
    /// answers with the new row.
    pub fn start_import() -> (r: (ImportFlow, FlowAction))
        ensures
            r.0 == ImportFlow::AwaitingImportRequest,
            r.1 == FlowAction::ReadBody,
    {
        (ImportFlow::AwaitingImportRequest, FlowAction::ReadBody)
    }

    /// The upload of the file of `kind` to the import that `path` names.
    pub fn upload(kind: FileKind, path: &ImportRequestPath) -> (r: (ImportFlow, FlowAction))
        ensures
            r.0 == (ImportFlow::AwaitingUpload { kind, import_id: path.import_id() }),
            r.1 == FlowAction::ReadBody,
    {
        (ImportFlow::AwaitingUpload { kind, import_id: path.id() }, FlowAction::ReadBody)
    }

    /// `PUT /imports/:id/raw`: stores the body as the import's raw image and
    /// records the store's id of it.
    pub fn upload_raw_image(path: &ImportRequestPath) -> (r: (ImportFlow, FlowAction))
        ensures
            r.0 == (ImportFlow::AwaitingUpload { kind: FileKind::Raw, import_id: path.import_id() }),
            r.1 == FlowAction::ReadBody,
    {
        Self::upload(FileKind::Raw, path)
    }

    /// `PUT /imports/:id/sidecar`: stores the body as the import's sidecar and
    /// records the store's id of it.
    pub fn upload_sidecar(path: &ImportRequestPath) -> (r: (ImportFlow, FlowAction))
        ensures
            r.0 == (ImportFlow::AwaitingUpload {
                kind: FileKind::Sidecar,
                import_id: path.import_id(),
            }),
            r.1 == FlowAction::ReadBody,
    {
        Self::upload(FileKind::Sidecar, path)
    }

    /// `PUT /imports/:id/image`: stores the body as the import's developed
    /// image and records the store's id of it.
    pub fn upload_image(path: &ImportRequestPath) -> (r: (ImportFlow, FlowAction))
        ensures
            r.0 == (ImportFlow::AwaitingUpload {
                kind: FileKind::Image,
                import_id: path.import_id(),
            }),
            r.1 == FlowAction::ReadBody,
    {
        Self::upload(FileKind::Image, path)
    }

    /// `POST /imports/:id/finish`: finishes the import (see
    /// [`ImportService::finish_import`]) and answers with its deleted row.
    pub fn finish_upload(service: &ImportService, path: &ImportRequestPath) -> (r: (
        ImportFlow,
        FlowAction,
    ))
        ensures
            r.0 == (ImportFlow::DeletingImport { import_id: path.import_id() }),
            r.1 == FlowAction::Query(ImportQuery::Delete { import_id: path.import_id() }),
    {
        service.finish_import(path.id())
    }
}

} // verus!
