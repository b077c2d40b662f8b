//! The import service: which rows it reads and writes, and which files it
//! hands to the store.
//!
//! The database and the store are reached over the network; what this module
//! decides is the query or the upload that each operation of the service
//! performs, and the message with which it gives up when the database
//! refuses the query.
use vstd::prelude::*;
use crate::decimal::{i32_text, int_text};
use crate::models::{FileKind, Import, NewImport};

verus! {

/// A query on the `imports` table; each one yields the rows it read or wrote.
#[derive(Clone, Debug, PartialEq, Eq)]
pub enum ImportQuery {
    /// Every row.
    LoadAll,
    /// The row with the id `import_id`.
    Find { import_id: i32 },
    /// Insert `new_import`; the database assigns the id and yields the new row.
    Insert { new_import: NewImport },
    /// Set the column of `kind` in the row `import_id` to `file_id`, and yield
    /// the row as it is then (`Import::with_file_id`).
    SetFileId { import_id: i32, kind: FileKind, file_id: String },
    /// Delete the row `import_id`, and yield the row as it was.
    Delete { import_id: i32 },
}

impl ImportQuery {
    /// The row that this query yields when it runs on the row `before` of
    /// its import: a `SetFileId` sets the column of its kind, a `Find` or a
    /// `Delete` yields the row as it is.
    pub open spec fn yields_from(self, before: Import) -> Import {
        match self {
            ImportQuery::SetFileId { kind, file_id, .. } => before.with_file_id(kind, file_id),
            _ => before,
        }
    }

    /// The message with which the service gives up when the database refuses this query.
    pub open spec fn failure_text(self) -> Seq<char> {
        match self {
            ImportQuery::LoadAll => "Error loading imports"@,
            ImportQuery::Find { import_id } => "Error loading import with id="@ + int_text(
                import_id as int,
            ),
            ImportQuery::Insert { .. } => "Error saving new import"@,
            ImportQuery::SetFileId { kind, .. } => match kind {
                FileKind::Raw => "Could set raw image id"@,
                FileKind::Sidecar => "Could not set sidecar id"@,
                FileKind::Image => "Could not set image id"@,
            },
            ImportQuery::Delete { .. } => "Could not delete import"@,
        }
    }

    /// The message with which the service gives up when the database refuses this query.
    pub fn failure_message(&self) -> (r: String)
        ensures
            r@ == self.failure_text(),
    {
        match self {
            ImportQuery::LoadAll => String::from_str("Error loading imports"),
            ImportQuery::Find { import_id } => {
                let mut r = String::from_str("Error loading import with id=");
                let id = i32_text(*import_id);
                r.append(id.as_str());
                r
            },
            ImportQuery::Insert { .. } => String::from_str("Error saving new import"),
            ImportQuery::SetFileId { kind, .. } => match kind {
                FileKind::Raw => String::from_str("Could set raw image id"),
                FileKind::Sidecar => String::from_str("Could not set sidecar id"),
                FileKind::Image => String::from_str("Could not set image id"),
            },
            ImportQuery::Delete { .. } => String::from_str("Could not delete import"),
        }
    }
}

/// A file to upload to the store; the store answers with the id it gave the file.
#[derive(Clone, Debug, PartialEq, Eq)]
pub struct StoreUpload {
    pub kind: FileKind,
    pub data: Vec<u8>,
}

/// The import service, with the addresses of the library and of the store.
#[derive(Clone, Debug)]
pub struct ImportService {
    library_uri: String,
    store_uri: String,
}

impl ImportService {
    /// The address of the library.
    pub closed spec fn library_address(self) -> Seq<char> {
        self.library_uri@
    }

    /// The address of the store.
    pub closed spec fn store_address(self) -> Seq<char> {
        self.store_uri@
    }

    pub fn new(library_uri: String, store_uri: String) -> (r: ImportService)
        ensures
            r.library_address() == library_uri@,
            r.store_address() == store_uri@,
    {
        ImportService { library_uri, store_uri }
    }

    /// The address of the library.
    pub fn library_uri(&self) -> (r: &str)
        ensures
            r@ == self.library_address(),
    {
        self.library_uri.as_str()
    }

    /// The address of the store.
    pub fn store_uri(&self) -> (r: &str)
        ensures
            r@ == self.store_address(),
    {
        self.store_uri.as_str()
    }

    /// Reads every import.
    pub fn get_imports(&self) -> (r: ImportQuery)
        ensures
            r == ImportQuery::LoadAll,
    {
        ImportQuery::LoadAll
    }

    /// Reads the import `import_id`.
    pub fn get_import(&self, import_id: i32) -> (r: ImportQuery)
        ensures
            r == (ImportQuery::Find { import_id }),
    {
        ImportQuery::Find { import_id }
    }

    /// Creates an import.
    pub fn create_import(&self, new_import: NewImport) -> (r: ImportQuery)
        ensures
            r == (ImportQuery::Insert { new_import }),
    {
        ImportQuery::Insert { new_import }
    }

    /// Records the store's id of the file of `kind` for the import `import_id`.
    pub fn save_file_id(&self, import_id: i32, kind: FileKind, file_id: String) -> (r: ImportQuery)
        ensures
            r == (ImportQuery::SetFileId { import_id, kind, file_id }),
    {
        ImportQuery::SetFileId { import_id, kind, file_id }
    }

    /// Records the store's id of the raw image of the import `import_id`.
    pub fn save_raw_image_id(&self, import_id: i32, raw_id: String) -> (r: ImportQuery)
        ensures
            r == (ImportQuery::SetFileId { import_id, kind: FileKind::Raw, file_id: raw_id }),
    {
        self.save_file_id(import_id, FileKind::Raw, raw_id)
    }

    /// Records the store's id of the sidecar of the import `import_id`.
    pub fn save_sidecar_id(&self, import_id: i32, sc_id: String) -> (r: ImportQuery)
        ensures
            r == (ImportQuery::SetFileId { import_id, kind: FileKind::Sidecar, file_id: sc_id }),
    {
        self.save_file_id(import_id, FileKind::Sidecar, sc_id)
    }

    /// Records the store's id of the developed image of the import `import_id`.
    pub fn save_image_id(&self, import_id: i32, img_id: String) -> (r: ImportQuery)
        ensures
            r == (ImportQuery::SetFileId { import_id, kind: FileKind::Image, file_id: img_id }),
    {
        self.save_file_id(import_id, FileKind::Image, img_id)
    }

    /// Deletes the import `import_id`.
    pub fn delete_import(&self, import_id: i32) -> (r: ImportQuery)
        ensures
            r == (ImportQuery::Delete { import_id }),
    {
        ImportQuery::Delete { import_id }
    }

    /// Uploads a file of `kind` to the store.
    pub fn add_file(&self, kind: FileKind, data: Vec<u8>) -> (r: StoreUpload)
        ensures
            r == (StoreUpload { kind, data }),
    {
        StoreUpload { kind, data }
    }

    /// Uploads a raw image to the store.
    pub fn add_raw_file(&self, data: Vec<u8>) -> (r: StoreUpload)
        ensures
            r == (StoreUpload { kind: FileKind::Raw, data }),
    {
        self.add_file(FileKind::Raw, data)
    }

    /// Uploads a sidecar to the store.
    pub fn add_sidecar(&self, data: Vec<u8>) -> (r: StoreUpload)
        ensures
            r == (StoreUpload { kind: FileKind::Sidecar, data }),
    {
        self.add_file(FileKind::Sidecar, data)
    }

    /// Uploads a developed image to the store.
    pub fn add_image(&self, data: Vec<u8>) -> (r: StoreUpload)
        ensures
            r == (StoreUpload { kind: FileKind::Image, data }),
    {
        self.add_file(FileKind::Image, data)
    }
}

/// A query that records a file id yields the row with exactly that column
/// set to the id and every other column as it was; the other queries yield
/// the row as it is.
pub proof fn lemma_queries_yield_rows(row: Import, import_id: i32, file_id: String)
    ensures
        (ImportQuery::SetFileId { import_id, kind: FileKind::Raw, file_id }).yields_from(row) == (
        Import { raw_image_id: Some(file_id), ..row }),
        (ImportQuery::SetFileId { import_id, kind: FileKind::Sidecar, file_id }).yields_from(row)
            == (Import { sidecar_id: Some(file_id), ..row }),
        (ImportQuery::SetFileId { import_id, kind: FileKind::Image, file_id }).yields_from(row) == (
        Import { image_id: Some(file_id), ..row }),
        (ImportQuery::Delete { import_id }).yields_from(row) == row,
        (ImportQuery::Find { import_id }).yields_from(row) == row,
{
}

/// The service gives up a refused query with the message of its kind; the
/// message for a missing import ends with the decimal text of its id.
pub proof fn lemma_failure_texts(import_id: i32, kind: FileKind, file_id: String, new_import: NewImport)
    ensures
        ImportQuery::LoadAll.failure_text() == "Error loading imports"@,
        (ImportQuery::Find { import_id }).failure_text() == "Error loading import with id="@
            + int_text(import_id as int),
        (ImportQuery::Insert { new_import }).failure_text() == "Error saving new import"@,
        (ImportQuery::SetFileId { import_id, kind: FileKind::Raw, file_id }).failure_text()
            == "Could set raw image id"@,
        (ImportQuery::SetFileId { import_id, kind: FileKind::Sidecar, file_id }).failure_text()
            == "Could not set sidecar id"@,
        (ImportQuery::SetFileId { import_id, kind: FileKind::Image, file_id }).failure_text()
            == "Could not set image id"@,
        (ImportQuery::Delete { import_id }).failure_text() == "Could not delete import"@,
{
}

} // verus!
