use schani_import::flow::{Failure, FlowAction, FlowEvent, ImportFlow, Reply};
use schani_import::models::{FileKind, Import, NewImageData, NewImport, NewImportRequestBody};
use schani_import::service::{ImportQuery, ImportService, StoreUpload};
use schani_import::web::extractors::ImportRequestPath;
use schani_import::web::handlers::ImportController;

fn service() -> ImportService {
    ImportService::new("http://library:8000".to_string(), "http://store:8000".to_string())
}

fn row(id: i32) -> Import {
    Import {
        id,
        title: Some("holiday".to_string()),
        raw_image_id: Some("raw-1".to_string()),
        sidecar_id: None,
        image_id: Some("img-1".to_string()),
        user_id: 9,
    }
}

#[test]
fn service_keeps_its_addresses() {
    let s = service();
    assert_eq!(s.library_uri(), "http://library:8000");
    assert_eq!(s.store_uri(), "http://store:8000");
}

#[test]
fn service_queries() {
    let s = service();
    assert_eq!(s.get_imports(), ImportQuery::LoadAll);
    assert_eq!(s.get_import(4), ImportQuery::Find { import_id: 4 });
    assert_eq!(s.delete_import(4), ImportQuery::Delete { import_id: 4 });
    assert_eq!(
        s.save_raw_image_id(4, "r".to_string()),
        ImportQuery::SetFileId { import_id: 4, kind: FileKind::Raw, file_id: "r".to_string() }
    );
    assert_eq!(
        s.save_sidecar_id(4, "s".to_string()),
        ImportQuery::SetFileId { import_id: 4, kind: FileKind::Sidecar, file_id: "s".to_string() }
    );
    assert_eq!(
        s.save_image_id(4, "i".to_string()),
        ImportQuery::SetFileId { import_id: 4, kind: FileKind::Image, file_id: "i".to_string() }
    );
    let new_import = NewImport { title: None, user_id: 2 };
    assert_eq!(s.create_import(new_import.clone()), ImportQuery::Insert { new_import });
    assert_eq!(s.add_raw_file(vec![1, 2]), StoreUpload { kind: FileKind::Raw, data: vec![1, 2] });
    assert_eq!(s.add_sidecar(vec![3]), StoreUpload { kind: FileKind::Sidecar, data: vec![3] });
    assert_eq!(s.add_image(vec![]), StoreUpload { kind: FileKind::Image, data: vec![] });
}

#[test]
fn query_failure_messages() {
    assert_eq!(ImportQuery::LoadAll.failure_message(), "Error loading imports");
    assert_eq!(
        ImportQuery::Find { import_id: 12 }.failure_message(),
        "Error loading import with id=12"
    );
    assert_eq!(
        ImportQuery::Insert { new_import: NewImport { title: None, user_id: 1 } }.failure_message(),
        "Error saving new import"
    );
    let set = |kind| ImportQuery::SetFileId { import_id: 1, kind, file_id: String::new() };
    assert_eq!(set(FileKind::Raw).failure_message(), "Could set raw image id");
    assert_eq!(set(FileKind::Sidecar).failure_message(), "Could not set sidecar id");
    assert_eq!(set(FileKind::Image).failure_message(), "Could not set image id");
    assert_eq!(ImportQuery::Delete { import_id: 1 }.failure_message(), "Could not delete import");
}

#[test]
fn request_body_becomes_new_import() {
    let body = NewImportRequestBody { title: Some("t".to_string()), user_id: 5 };
    let new_import: NewImport = body.into();
    assert_eq!(new_import, NewImport { title: Some("t".to_string()), user_id: 5 });
}

#[test]
fn new_image_data_copies_the_files_and_user() {
    assert_eq!(
        row(3).new_image_data(),
        NewImageData {
            raw_id: Some("raw-1".to_string()),
            sidecar_id: None,
            image_id: Some("img-1".to_string()),
            user_id: 9,
        }
    );
}

#[test]
fn listing_answers_with_the_rows() {
    let s = service();
    let (flow, action) = ImportController::get_imports(&s);
    assert_eq!(action, FlowAction::Query(ImportQuery::LoadAll));
    let (flow, action) = flow.step(&s, FlowEvent::ImportsLoaded(vec![row(1), row(2)]));
    assert_eq!(flow, ImportFlow::Done);
    assert_eq!(action, FlowAction::Reply(Reply::Imports(vec![row(1), row(2)])));
}

#[test]
fn starting_an_import_inserts_the_request() {
    let s = service();
    let (flow, action) = ImportController::start_import();
    assert_eq!(action, FlowAction::ReadBody);
    let body = br#"{"title": null, "user_id": 8}"#.to_vec();
    let (flow, action) = flow.step(&s, FlowEvent::BodyRead(body.clone()));
    assert_eq!(action, FlowAction::ParseImportRequest { body });
    let request = NewImportRequestBody { title: None, user_id: 8 };
    let (flow, action) = flow.step(&s, FlowEvent::RequestParsed(request));
    assert_eq!(
        action,
        FlowAction::Query(ImportQuery::Insert { new_import: NewImport { title: None, user_id: 8 } })
    );
    let (flow, action) = flow.step(&s, FlowEvent::ImportReturned(row(30)));
    assert_eq!(flow, ImportFlow::Done);
    assert_eq!(action, FlowAction::Reply(Reply::Import(row(30))));
}

#[test]
fn invalid_import_request_aborts() {
    let s = service();
    let (flow, _) = ImportController::start_import();
    let (flow, _) = flow.step(&s, FlowEvent::BodyRead(b"nonsense".to_vec()));
    let (flow, action) = flow.step(&s, FlowEvent::RequestInvalid);
    assert_eq!(flow, ImportFlow::Done);
    assert_eq!(action, FlowAction::Fail(Failure::Abort));
}

#[test]
fn unreadable_body_fails() {
    let s = service();
    let (flow, _) = ImportController::start_import();
    let (flow, action) = flow.step(&s, FlowEvent::BodyFailed);
    assert_eq!(flow, ImportFlow::Done);
    assert_eq!(action, FlowAction::Fail(Failure::BodyUnreadable));
    let (flow, _) = ImportController::upload_sidecar(&ImportRequestPath::new(1));
    let (_, action) = flow.step(&s, FlowEvent::BodyFailed);
    assert_eq!(action, FlowAction::Fail(Failure::BodyUnreadable));
}

#[test]
fn uploads_record_the_store_id_in_their_column() {
    let s = service();
    let path = ImportRequestPath::new(21);
    assert_eq!(path.id(), 21);
    for (kind, start) in [
        (FileKind::Raw, ImportController::upload_raw_image(&path)),
        (FileKind::Sidecar, ImportController::upload_sidecar(&path)),
        (FileKind::Image, ImportController::upload_image(&path)),
    ] {
        let (flow, action) = start;
        assert_eq!(flow, ImportFlow::AwaitingUpload { kind, import_id: 21 });
        assert_eq!(action, FlowAction::ReadBody);
        let (flow, action) = flow.step(&s, FlowEvent::BodyRead(vec![0xff, 0xd8]));
        assert_eq!(action, FlowAction::Upload(StoreUpload { kind, data: vec![0xff, 0xd8] }));
        let (flow, action) = flow.step(&s, FlowEvent::FileStored(Ok("f-77".to_string())));
        assert_eq!(
            action,
            FlowAction::Query(ImportQuery::SetFileId {
                import_id: 21,
                kind,
                file_id: "f-77".to_string()
            })
        );
        let (flow, action) = flow.step(&s, FlowEvent::ImportReturned(row(21)));
        assert_eq!(flow, ImportFlow::Done);
        assert_eq!(action, FlowAction::Reply(Reply::Import(row(21))));
    }
}

#[test]
fn store_failure_aborts_the_upload() {
    let s = service();
    let (flow, _) = ImportController::upload_raw_image(&ImportRequestPath::new(2));
    let (flow, _) = flow.step(&s, FlowEvent::BodyRead(vec![1]));
    let (flow, action) = flow.step(&s, FlowEvent::FileStored(Err(())));
    assert_eq!(flow, ImportFlow::Done);
    assert_eq!(action, FlowAction::Fail(Failure::Abort));
}

#[test]
fn finishing_forwards_the_deleted_row() {
    let s = service();
    let (flow, action) = ImportController::finish_upload(&s, &ImportRequestPath::new(3));
    assert_eq!(flow, ImportFlow::DeletingImport { import_id: 3 });
    assert_eq!(action, FlowAction::Query(ImportQuery::Delete { import_id: 3 }));
    let (flow, action) = flow.step(&s, FlowEvent::ImportReturned(row(3)));
    assert_eq!(action, FlowAction::AddImage(row(3).new_image_data()));
    let (flow, action) = flow.step(&s, FlowEvent::ImageAdded(Ok(555)));
    assert_eq!(action, FlowAction::Announce { image_id: 555 });
    let (flow, action) = flow.step(&s, FlowEvent::Announced);
    assert_eq!(flow, ImportFlow::Done);
    assert_eq!(action, FlowAction::Reply(Reply::Import(row(3))));
}

#[test]
fn library_failure_aborts_the_finish() {
    let s = service();
    let (flow, _) = s.finish_import(3);
    let (flow, _) = flow.step(&s, FlowEvent::ImportReturned(row(3)));
    let (flow, action) = flow.step(&s, FlowEvent::ImageAdded(Err(())));
    assert_eq!(flow, ImportFlow::Done);
    assert_eq!(action, FlowAction::Fail(Failure::Abort));
}

#[test]
fn saved_files_reach_the_library_in_any_order() {
    // The database applies each saved id to its own column; the row it then
    // yields for the finish carries all three.
    let mut saved = row(4);
    saved.raw_image_id = None;
    saved.image_id = None;
    for (kind, id) in [(FileKind::Image, "i"), (FileKind::Raw, "r"), (FileKind::Sidecar, "s")] {
        match kind {
            FileKind::Raw => saved.raw_image_id = Some(id.to_string()),
            FileKind::Sidecar => saved.sidecar_id = Some(id.to_string()),
            FileKind::Image => saved.image_id = Some(id.to_string()),
        }
    }
    let s = service();
    let (flow, _) = s.finish_import(4);
    let (_, action) = flow.step(&s, FlowEvent::ImportReturned(saved));
    assert_eq!(
        action,
        FlowAction::AddImage(NewImageData {
            raw_id: Some("r".to_string()),
            sidecar_id: Some("s".to_string()),
            image_id: Some("i".to_string()),
            user_id: 9,
        })
    );
}
