//! The rows of the `imports` table and the values built from them.
use vstd::prelude::*;

verus! {

/// One import: a row of the `imports` table.
///
/// An import collects three files in the store (the raw image, its sidecar
/// and the developed image); the row records the store's id of each once it
/// has been uploaded.
#[derive(Clone, Debug, PartialEq, Eq)]
pub struct Import {
    pub id: i32,
    pub title: Option<String>,
    pub raw_image_id: Option<String>,
    pub sidecar_id: Option<String>,
    pub image_id: Option<String>,
    pub user_id: i32,
}

/// The values of a new row of the `imports` table; the database assigns the id.
#[derive(Clone, Debug, PartialEq, Eq)]
pub struct NewImport {
    pub title: Option<String>,
    pub user_id: i32,
}

/// The JSON body of a request that starts an import.
#[derive(Clone, Debug, PartialEq, Eq)]
pub struct NewImportRequestBody {
    pub title: Option<String>,
    pub user_id: i32,
}

/// What the library is told of a finished import: the store's ids of its
/// three files and the user who imported them.
#[derive(Clone, Debug, PartialEq, Eq)]
pub struct NewImageData {
    pub raw_id: Option<String>,
    pub sidecar_id: Option<String>,
    pub image_id: Option<String>,
    pub user_id: i32,
}

/// The three files that an import collects.
#[derive(PartialEq, Eq, Structural, Clone, Copy, Debug)]
pub enum FileKind {
    Raw,
    Sidecar,
    Image,
}

/// A copy of an optional text, equal to it.
pub fn copy_text(text: &Option<String>) -> (r: Option<String>)
    ensures
        r == *text,
{
    match text {
        Some(s) => Some(s.clone()),
        None => None,
    }
}

impl Import {
    /// The store's id of the file of `kind` that the row records.
    pub open spec fn file_id(self, kind: FileKind) -> Option<String> {
        match kind {
            FileKind::Raw => self.raw_image_id,
            FileKind::Sidecar => self.sidecar_id,
            FileKind::Image => self.image_id,
        }
    }

    /// The row after its column for `kind` has been set to `file_id`.
    pub open spec fn with_file_id(self, kind: FileKind, file_id: String) -> Import {
        match kind {
            FileKind::Raw => Import { raw_image_id: Some(file_id), ..self },
            FileKind::Sidecar => Import { sidecar_id: Some(file_id), ..self },
            FileKind::Image => Import { image_id: Some(file_id), ..self },
        }
    }

    /// What the library is told when this import is finished.
    pub open spec fn image_data(self) -> NewImageData {
        NewImageData {
            raw_id: self.raw_image_id,
            sidecar_id: self.sidecar_id,
            image_id: self.image_id,
            user_id: self.user_id,
        }
    }

    /// The data that hands this import over to the library.
    pub fn new_image_data(&self) -> (r: NewImageData)
        ensures
            r == self.image_data(),
            r.raw_id == self.raw_image_id,
            r.sidecar_id == self.sidecar_id,
            r.image_id == self.image_id,
            r.user_id == self.user_id,
    {
        NewImageData {
            raw_id: copy_text(&self.raw_image_id),
            sidecar_id: copy_text(&self.sidecar_id),
            image_id: copy_text(&self.image_id),
            user_id: self.user_id,
        }
    }
}

impl NewImportRequestBody {
    /// The new row that this request asks for.
    pub open spec fn new_import(self) -> NewImport {
        NewImport { title: self.title, user_id: self.user_id }
    }
}

impl From<NewImportRequestBody> for NewImport {
    fn from(body: NewImportRequestBody) -> (r: NewImport) {
        NewImport { title: body.title, user_id: body.user_id }
    }
}

impl vstd::std_specs::convert::FromSpecImpl<NewImportRequestBody> for NewImport {
    open spec fn obeys_from_spec() -> bool {
        true
    }

    open spec fn from_spec(body: NewImportRequestBody) -> NewImport {
        body.new_import()
    }
}

/// Setting the file id of one kind leaves the other file ids, the id, the
/// title and the user of the row as they were, and records the new id.
pub proof fn lemma_file_id_update_is_isolated(
    row: Import,
    kind: FileKind,
    other: FileKind,
    file_id: String,
)
    ensures
        row.with_file_id(kind, file_id).file_id(kind) == Some(file_id),
        kind != other ==> row.with_file_id(kind, file_id).file_id(other) == row.file_id(other),
        row.with_file_id(kind, file_id).id == row.id,
        row.with_file_id(kind, file_id).title == row.title,
        row.with_file_id(kind, file_id).user_id == row.user_id,
{
}

/// Whatever the order in which the raw image, the sidecar and the image of
/// an import were saved, the library is told exactly those three ids and the
/// import's user.
pub proof fn lemma_finished_import_forwards_saved_files(
    row: Import,
    first: FileKind,
    second: FileKind,
    third: FileKind,
    raw_id: String,
    sidecar_id: String,
    image_id: String,
)
    requires
        first != second,
        second != third,
        first != third,
    ensures
        ({
            let id_of = |k: FileKind|
                match k {
                    FileKind::Raw => raw_id,
                    FileKind::Sidecar => sidecar_id,
                    FileKind::Image => image_id,
                };
            row.with_file_id(first, id_of(first)).with_file_id(second, id_of(second)).with_file_id(
                third,
                id_of(third),
            ).image_data() == NewImageData {
                raw_id: Some(raw_id),
                sidecar_id: Some(sidecar_id),
                image_id: Some(image_id),
                user_id: row.user_id,
            }
        }),
{
}

/// The library is told each file column of the import as the row holds it,
/// field by field, including the files that were never uploaded, and the
/// import's user.
pub proof fn lemma_image_data_copies_row(row: Import)
    ensures
        row.image_data().raw_id == row.raw_image_id,
        row.image_data().sidecar_id == row.sidecar_id,
        row.image_data().image_id == row.image_id,
        row.image_data().user_id == row.user_id,
{
}

/// Setting a file id writes exactly its own column and leaves every other
/// column of the row as it was.
pub proof fn lemma_with_file_id_writes_one_column(row: Import, file_id: String)
    ensures
        row.with_file_id(FileKind::Raw, file_id) == (Import { raw_image_id: Some(file_id), ..row }),
        row.with_file_id(FileKind::Sidecar, file_id) == (Import { sidecar_id: Some(file_id), ..row }),
        row.with_file_id(FileKind::Image, file_id) == (Import { image_id: Some(file_id), ..row }),
        row.file_id(FileKind::Raw) == row.raw_image_id,
        row.file_id(FileKind::Sidecar) == row.sidecar_id,
        row.file_id(FileKind::Image) == row.image_id,
{
}

/// A request to start an import asks for a row with its own title and user.
pub proof fn lemma_request_asks_for_its_title_and_user(body: NewImportRequestBody)
    ensures
        body.new_import().title == body.title,
        body.new_import().user_id == body.user_id,
{
}

} // verus!
