use schani_import::store::{
    build_new_image_body, raw_image_url, start_transfer, transfer_image_to_store, HttpStatus,
    RawImageData, TransferAbort, TransferAction, TransferError, TransferEvent, TransferState,
    HTTP_CREATED, STORE_RAW_IMAGES_URL,
};

fn created() -> HttpStatus {
    HttpStatus { code: HTTP_CREATED, text: "201 Created".to_string() }
}

fn data() -> RawImageData {
    RawImageData {
        user_id: 12,
        camera: "Fuji X-T2".to_string(),
        latitude: "48.2".to_string(),
        longitude: "16.37".to_string(),
    }
}

#[test]
fn new_image_body_is_a_form() {
    let body = build_new_image_body(
        7,
        &"Canon EOS 5D".to_string(),
        &"16.37".to_string(),
        &"48.2".to_string(),
    );
    assert_eq!(body, "user_id=7&camera=Canon+EOS+5D&longitude=16.37&latitude=48.2");
}

#[test]
fn new_image_body_escapes_reserved_characters() {
    let body = build_new_image_body(-1, &"a&b=c".to_string(), &"-0.5".to_string(), &"1e-7".to_string());
    assert_eq!(body, "user_id=-1&camera=a%26b%3Dc&longitude=-0.5&latitude=1e-7");
}

#[test]
fn raw_image_address() {
    assert_eq!(STORE_RAW_IMAGES_URL, "http://store:8000/api/raw_images");
    assert_eq!(raw_image_url(0), "http://store:8000/api/raw_images/0");
    assert_eq!(raw_image_url(4711), "http://store:8000/api/raw_images/4711");
}

#[test]
fn transfer_sends_data_then_file() {
    let (state, action) = start_transfer(&data());
    assert_eq!(state, TransferState::SendingData);
    // The image's latitude goes under `longitude`, its longitude under `latitude`.
    assert_eq!(
        action,
        TransferAction::SendData {
            body: "user_id=12&camera=Fuji+X-T2&longitude=48.2&latitude=16.37".to_string()
        }
    );
    let (state, action) = transfer_image_to_store(state, TransferEvent::DataSent(Ok(created())));
    assert_eq!(state, TransferState::ReadingReply);
    assert_eq!(action, TransferAction::ReadReply);
    let reply = r#"{"id": 99, "user_id": 12}"#.to_string();
    let (state, action) = transfer_image_to_store(state, TransferEvent::ReplyRead(Ok(reply)));
    assert_eq!(state, TransferState::SendingFile { raw_file_id: 99 });
    assert_eq!(
        action,
        TransferAction::SendFile {
            raw_file_id: 99,
            url: "http://store:8000/api/raw_images/99".to_string()
        }
    );
    let (state, action) = transfer_image_to_store(state, TransferEvent::FileSent(Ok(created())));
    assert_eq!(state, TransferState::Done);
    assert_eq!(action, TransferAction::Finish(Ok(99)));
}

#[test]
fn transfer_reports_send_failure() {
    let (state, _) = start_transfer(&data());
    let (state, action) =
        transfer_image_to_store(state, TransferEvent::DataSent(Err("connection refused".to_string())));
    assert_eq!(state, TransferState::Done);
    let error = TransferError::SendFailed("connection refused".to_string());
    assert_eq!(error.message(), "could not save image data to store: connection refused");
    assert_eq!(action, TransferAction::Finish(Err(error)));
}

#[test]
fn transfer_reports_unexpected_status() {
    let status = HttpStatus { code: 500, text: "500 Internal Server Error".to_string() };
    let (state, action) =
        transfer_image_to_store(TransferState::SendingData, TransferEvent::DataSent(Ok(status)));
    assert_eq!(state, TransferState::Done);
    let error = TransferError::UnexpectedStatus("500 Internal Server Error".to_string());
    assert_eq!(
        error.message(),
        "unexpected HTTP status 500 Internal Server Error when sending image data to store"
    );
    assert_eq!(action, TransferAction::Finish(Err(error)));
}

#[test]
fn transfer_reports_unreadable_reply() {
    let (_, action) = transfer_image_to_store(
        TransferState::ReadingReply,
        TransferEvent::ReplyRead(Err("timed out".to_string())),
    );
    let error = TransferError::ReadFailed("timed out".to_string());
    assert_eq!(error.message(), "could not read response: timed out");
    assert_eq!(action, TransferAction::Finish(Err(error)));
}

#[test]
fn transfer_reports_invalid_json() {
    let (state, action) = transfer_image_to_store(
        TransferState::ReadingReply,
        TransferEvent::ReplyRead(Ok("not json".to_string())),
    );
    assert_eq!(state, TransferState::Done);
    match action {
        TransferAction::Finish(Err(error @ TransferError::InvalidJson(_))) => {
            let message = error.message();
            assert!(message.starts_with("could not read response JSON: "));
            assert!(message.len() > "could not read response JSON: ".len());
        }
        other => panic!("unexpected action {:?}", other),
    }
}

#[test]
fn transfer_aborts_without_id() {
    for reply in [r#"{"name": "x"}"#, r#"{"id": -4}"#, r#"{"id": "7"}"#, "[]", "null"] {
        let (state, action) = transfer_image_to_store(
            TransferState::ReadingReply,
            TransferEvent::ReplyRead(Ok(reply.to_string())),
        );
        assert_eq!(state, TransferState::Done);
        assert_eq!(action, TransferAction::Abort(TransferAbort::MissingId));
    }
}

#[test]
fn transfer_reports_file_failure_and_aborts_on_refusal() {
    let sending = TransferState::SendingFile { raw_file_id: 5 };
    let (_, action) =
        transfer_image_to_store(sending, TransferEvent::FileSent(Err("broken pipe".to_string())));
    let error = TransferError::FileFailed("broken pipe".to_string());
    assert_eq!(error.message(), "broken pipe");
    assert_eq!(action, TransferAction::Finish(Err(error)));
    let refused = HttpStatus { code: 400, text: "400 Bad Request".to_string() };
    let (state, action) = transfer_image_to_store(sending, TransferEvent::FileSent(Ok(refused)));
    assert_eq!(state, TransferState::Done);
    assert_eq!(action, TransferAction::Abort(TransferAbort::FileNotCreated));
}
