//! The import flows: what a request of the web service does between its I/O
//! steps.
//!
//! Each request runs as a small state machine. The caller performs the
//! [`FlowAction`] that the machine asks for (read the request body, run a
//! query, upload a file to the store, hand the import to the library,
//! announce the image, reply) and hands the outcome back as a [`FlowEvent`].
use vstd::prelude::*;
use crate::models::{FileKind, Import, NewImageData, NewImport, NewImportRequestBody};
use crate::service::{ImportQuery, ImportService, StoreUpload};

verus! {

/// The answer to a request: `200 OK` with the JSON of the import or imports.
#[derive(Clone, Debug, PartialEq, Eq)]
pub enum Reply {
    Import(Import),
    Imports(Vec<Import>),
}

/// How a request fails.
#[derive(PartialEq, Eq, Structural, Clone, Copy, Debug)]
pub enum Failure {
    /// The request body could not be read; the web framework answers with its
    /// error response.
    BodyUnreadable,
    /// The request is given up: the service stops handling it with a panic.
    Abort,
}

/// What the flow asks its caller to do next.
#[derive(Clone, Debug, PartialEq, Eq)]
pub enum FlowAction {
    /// Read the whole request body.
    ReadBody,
    /// Read `body` as the UTF-8 JSON of a [`NewImportRequestBody`].
    ParseImportRequest { body: Vec<u8> },
    /// Run a query on the `imports` table.
    Query(ImportQuery),
    /// Upload a file to the store.
    Upload(StoreUpload),
    /// Hand a finished import to the library.
    AddImage(NewImageData),
    /// Announce the library's new image to the processing queue.
    Announce { image_id: i32 },
    /// Answer the request.
    Reply(Reply),
    /// Give up the request.
    Fail(Failure),
}

/// The outcome of the action that the flow asked for.
#[derive(Debug, PartialEq, Eq)]
pub enum FlowEvent {
    BodyRead(Vec<u8>),
    BodyFailed,
    RequestParsed(NewImportRequestBody),
    RequestInvalid,
    ImportsLoaded(Vec<Import>),
    ImportReturned(Import),
    /// The store's answer to an upload: the id it gave the file, or a failure.
    FileStored(Result<String, ()>),
    /// The library's answer: the id of the new image, or a failure.
    ImageAdded(Result<i32, ()>),
    Announced,
}

/// Where a request is.
#[derive(Clone, Debug, PartialEq, Eq)]
pub enum ImportFlow {
    ListingImports,
    AwaitingImportRequest,
    ParsingImportRequest,
    CreatingImport,
    AwaitingUpload { kind: FileKind, import_id: i32 },
    StoringFile { kind: FileKind, import_id: i32 },
    SavingFileId { kind: FileKind, import_id: i32 },
    DeletingImport { import_id: i32 },
    AddingImage { import: Import },
    Announcing { import: Import },
    Done,
}

impl ImportFlow {
    /// Whether `event` is an outcome of the action that this flow waits for.
    pub open spec fn awaits(self, event: FlowEvent) -> bool {
        match self {
            ImportFlow::ListingImports => event is ImportsLoaded,
            ImportFlow::AwaitingImportRequest => event is BodyRead || event is BodyFailed,
            ImportFlow::ParsingImportRequest => event is RequestParsed || event is RequestInvalid,
            ImportFlow::CreatingImport => event is ImportReturned,
            ImportFlow::AwaitingUpload { .. } => event is BodyRead || event is BodyFailed,
            ImportFlow::StoringFile { .. } => event is FileStored,
            ImportFlow::SavingFileId { .. } => event is ImportReturned,
            ImportFlow::DeletingImport { .. } => event is ImportReturned,
            ImportFlow::AddingImage { .. } => event is ImageAdded,
            ImportFlow::Announcing { .. } => event is Announced,
            ImportFlow::Done => false,
        }
    }

    /// The flow after `event`, and what it asks for next.
    pub open spec fn next(self, event: FlowEvent) -> (ImportFlow, FlowAction) {
        match (self, event) {
            (ImportFlow::ListingImports, FlowEvent::ImportsLoaded(imports)) => (
                ImportFlow::Done,
                FlowAction::Reply(Reply::Imports(imports)),
            ),
            (ImportFlow::AwaitingImportRequest, FlowEvent::BodyRead(body)) => (
                ImportFlow::ParsingImportRequest,
                FlowAction::ParseImportRequest { body },
            ),
            (ImportFlow::ParsingImportRequest, FlowEvent::RequestParsed(request)) => (
                ImportFlow::CreatingImport,
                FlowAction::Query(ImportQuery::Insert { new_import: request.new_import() }),
            ),
            (ImportFlow::ParsingImportRequest, FlowEvent::RequestInvalid) => (
                ImportFlow::Done,
                FlowAction::Fail(Failure::Abort),
            ),
            (ImportFlow::CreatingImport, FlowEvent::ImportReturned(import)) => (
                ImportFlow::Done,
                FlowAction::Reply(Reply::Import(import)),
            ),
            (ImportFlow::AwaitingUpload { kind, import_id }, FlowEvent::BodyRead(data)) => (
                ImportFlow::StoringFile { kind, import_id },
                FlowAction::Upload(StoreUpload { kind, data }),
            ),
            (ImportFlow::StoringFile { kind, import_id }, FlowEvent::FileStored(stored)) => {
                match stored {
                    Ok(file_id) => (
                        ImportFlow::SavingFileId { kind, import_id },
                        FlowAction::Query(ImportQuery::SetFileId { import_id, kind, file_id }),
                    ),
                    Err(_) => (ImportFlow::Done, FlowAction::Fail(Failure::Abort)),
                }
            },
            (ImportFlow::SavingFileId { .. }, FlowEvent::ImportReturned(import)) => (
                ImportFlow::Done,
                FlowAction::Reply(Reply::Import(import)),
            ),
            (ImportFlow::DeletingImport { .. }, FlowEvent::ImportReturned(import)) => (
                ImportFlow::AddingImage { import },
                FlowAction::AddImage(import.image_data()),
            ),
            (ImportFlow::AddingImage { import }, FlowEvent::ImageAdded(added)) => {
                match added {
                    Ok(image_id) => (
                        ImportFlow::Announcing { import },
                        FlowAction::Announce { image_id },
                    ),
                    Err(_) => (ImportFlow::Done, FlowAction::Fail(Failure::Abort)),
                }
            },
            (ImportFlow::Announcing { import }, FlowEvent::Announced) => (
                ImportFlow::Done,
                FlowAction::Reply(Reply::Import(import)),
            ),
            (_, FlowEvent::BodyFailed) => (ImportFlow::Done, FlowAction::Fail(Failure::BodyUnreadable)),
            (flow, _) => (flow, FlowAction::Fail(Failure::Abort)),
        }
    }

    /// An upper bound on the number of steps left before the request is answered.
    pub open spec fn remaining(self) -> nat {
        match self {
            ImportFlow::ListingImports => 1,
            ImportFlow::AwaitingImportRequest => 3,
            ImportFlow::ParsingImportRequest => 2,
            ImportFlow::CreatingImport => 1,
            ImportFlow::AwaitingUpload { .. } => 3,
            ImportFlow::StoringFile { .. } => 2,
            ImportFlow::SavingFileId { .. } => 1,
            ImportFlow::DeletingImport { .. } => 3,
            ImportFlow::AddingImage { .. } => 2,
            ImportFlow::Announcing { .. } => 1,
            ImportFlow::Done => 0,
        }
    }

    /// Takes the outcome of the action in progress and says what to do next.
    pub fn step(self, service: &ImportService, event: FlowEvent) -> (r: (ImportFlow, FlowAction))
        requires
            self.awaits(event),
        ensures
            r == self.next(event),
    {
        match self {
            ImportFlow::ListingImports => match event {
                FlowEvent::ImportsLoaded(imports) => (
                    ImportFlow::Done,
                    FlowAction::Reply(Reply::Imports(imports)),
                ),
                _ => (ImportFlow::Done, FlowAction::Fail(Failure::Abort)),
            },
            ImportFlow::AwaitingImportRequest => match event {
                FlowEvent::BodyRead(body) => (
                    ImportFlow::ParsingImportRequest,
                    FlowAction::ParseImportRequest { body },
                ),
                _ => (ImportFlow::Done, FlowAction::Fail(Failure::BodyUnreadable)),
            },
            ImportFlow::ParsingImportRequest => match event {
                FlowEvent::RequestParsed(request) => {
                    let new_import: NewImport = NewImport::from(request);
                    (ImportFlow::CreatingImport, FlowAction::Query(service.create_import(new_import)))
                },
                _ => (ImportFlow::Done, FlowAction::Fail(Failure::Abort)),
            },
            ImportFlow::CreatingImport => match event {
                FlowEvent::ImportReturned(import) => (
                    ImportFlow::Done,
                    FlowAction::Reply(Reply::Import(import)),
                ),
                _ => (ImportFlow::Done, FlowAction::Fail(Failure::Abort)),
            },
            ImportFlow::AwaitingUpload { kind, import_id } => match event {
                FlowEvent::BodyRead(data) => (
                    ImportFlow::StoringFile { kind, import_id },
                    FlowAction::Upload(service.add_file(kind, data)),
                ),
                _ => (ImportFlow::Done, FlowAction::Fail(Failure::BodyUnreadable)),
            },
            ImportFlow::StoringFile { kind, import_id } => match event {
                FlowEvent::FileStored(Ok(file_id)) => (
                    ImportFlow::SavingFileId { kind, import_id },
                    FlowAction::Query(service.save_file_id(import_id, kind, file_id)),
                ),
                _ => (ImportFlow::Done, FlowAction::Fail(Failure::Abort)),
            },
            ImportFlow::SavingFileId { .. } => match event {
                FlowEvent::ImportReturned(import) => (
                    ImportFlow::Done,
                    FlowAction::Reply(Reply::Import(import)),
                ),
                _ => (ImportFlow::Done, FlowAction::Fail(Failure::Abort)),
            },
            ImportFlow::DeletingImport { .. } => match event {
                FlowEvent::ImportReturned(import) => {
                    let data = import.new_image_data();
                    (ImportFlow::AddingImage { import }, FlowAction::AddImage(data))
                },
                _ => (ImportFlow::Done, FlowAction::Fail(Failure::Abort)),
            },
            ImportFlow::AddingImage { import } => match event {
                FlowEvent::ImageAdded(Ok(image_id)) => (
                    ImportFlow::Announcing { import },
                    FlowAction::Announce { image_id },
                ),
                _ => (ImportFlow::Done, FlowAction::Fail(Failure::Abort)),
            },
            ImportFlow::Announcing { import } => (
                ImportFlow::Done,
                FlowAction::Reply(Reply::Import(import)),
            ),
            ImportFlow::Done => (ImportFlow::Done, FlowAction::Fail(Failure::Abort)),
        }
    }
}

impl ImportService {
    /// Finishes the import `import_id`: its row is deleted, the library is
    /// told the files it collected, the library's new image is announced to
    /// the processing queue, and the deleted row is the result.
    pub fn finish_import(&self, import_id: i32) -> (r: (ImportFlow, FlowAction))
        ensures
            r.0 == (ImportFlow::DeletingImport { import_id }),
            r.1 == FlowAction::Query(ImportQuery::Delete { import_id }),
    {
        (ImportFlow::DeletingImport { import_id }, FlowAction::Query(self.delete_import(import_id)))
    }
}

/// Every request is answered or given up after finitely many steps: each
/// awaited outcome brings the flow closer to its end, the flow asks for an
/// answer or a failure exactly when it ends, and an ended flow awaits nothing.
pub proof fn lemma_flow_terminates(flow: ImportFlow, event: FlowEvent)
    ensures
        flow.awaits(event) ==> flow.next(event).0.remaining() < flow.remaining(),
        flow.awaits(event) ==> (flow.next(event).0 is Done <==> (flow.next(event).1 is Reply
            || flow.next(event).1 is Fail)),
        flow is Done ==> !flow.awaits(event),
{
}

/// An upload of the file of `kind` for the import `import_id` stores exactly
/// the body it read, records exactly the id that the store gave the file in
/// the column of `kind` of that import, and answers with the row that the
/// database yields then. A store failure gives the request up.
pub proof fn lemma_upload_records_store_id(
    kind: FileKind,
    import_id: i32,
    body: Vec<u8>,
    file_id: String,
    row: Import,
)
    ensures
        ({
            let (storing, upload) = (ImportFlow::AwaitingUpload { kind, import_id }).next(
                FlowEvent::BodyRead(body),
            );
            let (saving, query) = storing.next(FlowEvent::FileStored(Ok(file_id)));
            let (done, reply) = saving.next(FlowEvent::ImportReturned(row));
            &&& upload == FlowAction::Upload(StoreUpload { kind, data: body })
            &&& query == FlowAction::Query(ImportQuery::SetFileId { import_id, kind, file_id })
            &&& reply == FlowAction::Reply(Reply::Import(row))
            &&& done is Done
            &&& storing.next(FlowEvent::FileStored(Err(()))).1 == FlowAction::Fail(Failure::Abort)
        }),
{
}

/// Finishing an import hands the library exactly the files recorded in the
/// deleted row and its user, announces exactly the id that the library gave
/// the image, and answers with the deleted row.
pub proof fn lemma_finish_forwards_deleted_row(import_id: i32, row: Import, image_id: i32)
    ensures
        ({
            let (adding, add) = (ImportFlow::DeletingImport { import_id }).next(
                FlowEvent::ImportReturned(row),
            );
            let (announcing, announce) = adding.next(FlowEvent::ImageAdded(Ok(image_id)));
            let (done, reply) = announcing.next(FlowEvent::Announced);
            &&& add == FlowAction::AddImage(
                NewImageData {
                    raw_id: row.raw_image_id,
                    sidecar_id: row.sidecar_id,
                    image_id: row.image_id,
                    user_id: row.user_id,
                },
            )
            &&& announce == FlowAction::Announce { image_id }
            &&& reply == FlowAction::Reply(Reply::Import(row))
            &&& done is Done
            &&& adding.next(FlowEvent::ImageAdded(Err(()))).1 == FlowAction::Fail(Failure::Abort)
        }),
{
}

/// Starting an import inserts exactly the title and user of the request, and
/// answers with the row that the database created; a body that is not such a
/// request gives the request up.
pub proof fn lemma_start_inserts_requested_import(
    body: Vec<u8>,
    request: NewImportRequestBody,
    row: Import,
)
    ensures
        ({
            let (parsing, parse) = ImportFlow::AwaitingImportRequest.next(FlowEvent::BodyRead(body));
            let (creating, insert) = parsing.next(FlowEvent::RequestParsed(request));
            let (done, reply) = creating.next(FlowEvent::ImportReturned(row));
            &&& parse == FlowAction::ParseImportRequest { body }
            &&& insert == FlowAction::Query(ImportQuery::Insert {
                new_import: NewImport { title: request.title, user_id: request.user_id },
            })
            &&& reply == FlowAction::Reply(Reply::Import(row))
            &&& done is Done
            &&& parsing.next(FlowEvent::RequestInvalid).1 == FlowAction::Fail(Failure::Abort)
        }),
{
}

/// The query that the upload of the file of `kind` runs once the store has
/// given the file the id `file_id`.
pub open spec fn upload_query(kind: FileKind, import_id: i32, body: Vec<u8>, file_id: String) -> FlowAction {
    (ImportFlow::AwaitingUpload { kind, import_id }).next(FlowEvent::BodyRead(body)).0.next(
        FlowEvent::FileStored(Ok(file_id)),
    ).1
}

/// An import's uploads reach the library: when the raw image, the sidecar and
/// the image of an import are uploaded, in any order, and the database runs
/// each upload's query on the import's row, finishing the import hands the
/// library exactly the three ids that the store gave the files, and the
/// import's user.
pub proof fn lemma_uploads_reach_the_library(
    row: Import,
    first: FileKind,
    second: FileKind,
    third: FileKind,
    bodies: (Vec<u8>, Vec<u8>, Vec<u8>),
    raw_id: String,
    sidecar_id: String,
    image_id: String,
)
    requires
        first != second,
        second != third,
        first != third,
    ensures
        ({
            let id_of = |k: FileKind|
                match k {
                    FileKind::Raw => raw_id,
                    FileKind::Sidecar => sidecar_id,
                    FileKind::Image => image_id,
                };
            let q1 = upload_query(first, row.id, bodies.0, id_of(first));
            let q2 = upload_query(second, row.id, bodies.1, id_of(second));
            let q3 = upload_query(third, row.id, bodies.2, id_of(third));
            &&& q1 is Query && q2 is Query && q3 is Query
            &&& {
                let row1 = q1->Query_0.yields_from(row);
                let row2 = q2->Query_0.yields_from(row1);
                let row3 = q3->Query_0.yields_from(row2);
                (ImportFlow::DeletingImport { import_id: row.id }).next(
                    FlowEvent::ImportReturned(row3),
                ).1 == FlowAction::AddImage(
                    NewImageData {
                        raw_id: Some(raw_id),
                        sidecar_id: Some(sidecar_id),
                        image_id: Some(image_id),
                        user_id: row.user_id,
                    },
                )
            }
        }),
{
}

/// Listing the imports answers with the list of the rows that were loaded,
/// all of them and in their order, whatever their number, and ends the request.
pub proof fn lemma_listing_answers_every_row(imports: Vec<Import>)
    ensures
        ImportFlow::ListingImports.next(FlowEvent::ImportsLoaded(imports)).0 is Done,
        ImportFlow::ListingImports.next(FlowEvent::ImportsLoaded(imports)).1 matches FlowAction::Reply(
            Reply::Imports(rows),
        ) && rows == imports,
{
}

/// A request body that cannot be read ends the request with that failure,
/// whether it was to start an import or to upload a file.
pub proof fn lemma_unreadable_body_fails(kind: FileKind, import_id: i32)
    ensures
        ImportFlow::AwaitingImportRequest.next(FlowEvent::BodyFailed).0 is Done,
        ImportFlow::AwaitingImportRequest.next(FlowEvent::BodyFailed).1 == FlowAction::Fail(
            Failure::BodyUnreadable,
        ),
        (ImportFlow::AwaitingUpload { kind, import_id }).next(FlowEvent::BodyFailed).0 is Done,
        (ImportFlow::AwaitingUpload { kind, import_id }).next(FlowEvent::BodyFailed).1
            == FlowAction::Fail(Failure::BodyUnreadable),
{
}

} // verus!
