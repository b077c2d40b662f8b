//! Sending an image to the store: first its data (user, camera, position) as
//! a form, which the store answers with the id of a new raw image, then the
//! file itself to that raw image.
//!
//! The HTTP exchanges are I/O. This module builds the form and the address of
//! the file, reads the store's answers, and decides after each exchange
//! whether to go on, to report an error, or to give up.
use vstd::prelude::*;
use crate::decimal::{i32_text, int_text, lemma_int_text_denotes, lemma_nat_text_denotes, nat_text, text_value, u64_text};

verus! {

/// Where the store takes the data of new raw images.
pub const STORE_RAW_IMAGES_URL: &'static str = "http://store:8000/api/raw_images";

/// The status with which the store accepts what it was sent: `201 Created`.
pub const HTTP_CREATED: u16 = 201;

#[verifier::external_type_specification]
#[verifier::external_body]
pub struct ExUrlencodedError(serde_urlencoded::ser::Error);

/// The text that `serde_urlencoded::to_string` makes of a sequence of
/// key/value pairs: their `application/x-www-form-urlencoded` form.
pub uninterp spec fn form_urlencoded(pairs: Seq<(Seq<char>, Seq<char>)>) -> Seq<char>;

/// Calls `serde_urlencoded::to_string` on a sequence of string pairs. Its
/// source serialises each pair through `form_urlencoded`'s `append_pair` and
/// refuses no string key or value, so the call succeeds; the text is named by
/// `form_urlencoded`.
#[verifier::external_body]
fn urlencode_pairs(pairs: &Vec<(String, String)>) -> (r: Result<
    String,
    serde_urlencoded::ser::Error,
>)
    ensures
        r is Ok,
        r matches Ok(text) ==> text@ == form_urlencoded(
            pairs@.map_values(|p: (String, String)| (p.0@, p.1@)),
        ),
{
    serde_urlencoded::to_string(pairs)
}

/// What `serde_json::from_str` makes of `text` as a `serde_json::Value`, read
/// at its member `key` with `as_u64`: the number when that member is an
/// unsigned integer that fits, none when there is no such member or it holds
/// something else, and the message of the parse error when `text` is no JSON.
pub uninterp spec fn json_member_u64(text: Seq<char>, key: Seq<char>) -> Result<
    Option<u64>,
    Seq<char>,
>;

/// Parses `text` with `serde_json::from_str` into a `serde_json::Value` and
/// reads its member `key` with `as_u64` (indexing a missing member gives
/// `Null`, so nothing panics); a parse error is turned into its message. The
/// outcome is named by `json_member_u64`.
#[verifier::external_body]
fn read_json_member_u64(text: &str, key: &str) -> (r: Result<Option<u64>, String>)
    ensures
        match r {
            Ok(n) => json_member_u64(text@, key@) == Ok::<Option<u64>, Seq<char>>(n),
            Err(e) => json_member_u64(text@, key@) == Err::<Option<u64>, Seq<char>>(e@),
        },
{
    match serde_json::from_str::<serde_json::Value>(text) {
        Ok(value) => Ok(value[key].as_u64()),
        Err(error) => Err(error.to_string()),
    }
}

/// The form that announces a new raw image to the store.
pub open spec fn new_image_form(
    user_id: i32,
    camera: Seq<char>,
    longitude: Seq<char>,
    latitude: Seq<char>,
) -> Seq<char> {
    form_urlencoded(
        seq![
            ("user_id"@, int_text(user_id as int)),
            ("camera"@, camera),
            ("longitude"@, longitude),
            ("latitude"@, latitude),
        ],
    )
}

/// The form that announces a new raw image to the store: the user, the
/// camera, and the two coordinates (the decimal text of each).
pub fn build_new_image_body(
    user_id: i32,
    camera: &String,
    longitude: &String,
    latitude: &String,
) -> (r: String)
    ensures
        r@ == new_image_form(user_id, camera@, longitude@, latitude@),
        r@ == form_urlencoded(
            seq![
                ("user_id"@, int_text(user_id as int)),
                ("camera"@, camera@),
                ("longitude"@, longitude@),
                ("latitude"@, latitude@),
            ],
        ),
{
    let mut pairs: Vec<(String, String)> = Vec::new();
    pairs.push((String::from_str("user_id"), i32_text(user_id)));
    pairs.push((String::from_str("camera"), camera.clone()));
    pairs.push((String::from_str("longitude"), longitude.clone()));
    pairs.push((String::from_str("latitude"), latitude.clone()));
    let encoded = urlencode_pairs(&pairs);
    assert(pairs@.map_values(|p: (String, String)| (p.0@, p.1@)) =~= seq![
        ("user_id"@, int_text(user_id as int)),
        ("camera"@, camera@),
        ("longitude"@, longitude@),
        ("latitude"@, latitude@),
    ]);
    match encoded {
        Ok(text) => text,
        Err(_) => String::new(),
    }
}

/// The address of the file of the raw image `raw_file_id` in the store.
pub open spec fn raw_image_address(raw_file_id: u64) -> Seq<char> {
    "http://store:8000/api/raw_images/"@ + nat_text(raw_file_id as nat)
}

/// The address of the file of the raw image `raw_file_id` in the store.
pub fn raw_image_url(raw_file_id: u64) -> (r: String)
    ensures
        r@ == raw_image_address(raw_file_id),
{
    let mut url = String::from_str("http://store:8000/api/raw_images/");
    let id = u64_text(raw_file_id);
    url.append(id.as_str());
    url
}

/// What is sent to the store of an image: its user, its camera and where it
/// was taken. The coordinates are the decimal text of the numbers.
#[derive(Clone, Debug, PartialEq, Eq)]
pub struct RawImageData {
    pub user_id: i32,
    pub camera: String,
    pub latitude: String,
    pub longitude: String,
}

/// The status of an HTTP answer: its code, and its status line as the client
/// shows it (such as `201 Created`).
#[derive(Clone, Debug, PartialEq, Eq)]
pub struct HttpStatus {
    pub code: u16,
    pub text: String,
}

/// Why a transfer to the store failed.
#[derive(Clone, Debug, PartialEq, Eq)]
pub enum TransferError {
    /// The data could not be sent; the client's message.
    SendFailed(String),
    /// The store did not accept the data; its status line.
    UnexpectedStatus(String),
    /// The store's answer could not be read; the client's message.
    ReadFailed(String),
    /// The store's answer is no JSON; the parser's message.
    InvalidJson(String),
    /// The file could not be sent; the client's message.
    FileFailed(String),
}

impl TransferError {
    /// The message that reports this error.
    pub open spec fn message_text(self) -> Seq<char> {
        match self {
            TransferError::SendFailed(e) => "could not save image data to store: "@ + e@,
            TransferError::UnexpectedStatus(s) => "unexpected HTTP status "@ + s@
                + " when sending image data to store"@,
            TransferError::ReadFailed(e) => "could not read response: "@ + e@,
            TransferError::InvalidJson(e) => "could not read response JSON: "@ + e@,
            TransferError::FileFailed(e) => e@,
        }
    }

    /// The message that reports this error.
    pub fn message(&self) -> (r: String)
        ensures
            r@ == self.message_text(),
    {
        match self {
            TransferError::SendFailed(e) => {
                let mut r = String::from_str("could not save image data to store: ");
                r.append(e.as_str());
                r
            },
            TransferError::UnexpectedStatus(s) => {
                let mut r = String::from_str("unexpected HTTP status ");
                r.append(s.as_str());
                r.append(" when sending image data to store");
                r
            },
            TransferError::ReadFailed(e) => {
                let mut r = String::from_str("could not read response: ");
                r.append(e.as_str());
                r
            },
            TransferError::InvalidJson(e) => {
                let mut r = String::from_str("could not read response JSON: ");
                r.append(e.as_str());
                r
            },
            TransferError::FileFailed(e) => e.clone(),
        }
    }
}

/// Why a transfer is given up: the service stops with a panic.
#[derive(PartialEq, Eq, Structural, Clone, Copy, Debug)]
pub enum TransferAbort {
    /// The store's answer to the data has no unsigned integer `id`.
    MissingId,
    /// The store did not answer the file with `201 Created`.
    FileNotCreated,
}

/// Where a transfer is.
#[derive(PartialEq, Eq, Structural, Clone, Copy, Debug)]
pub enum TransferState {
    SendingData,
    ReadingReply,
    SendingFile { raw_file_id: u64 },
    Done,
}

/// The outcome of the exchange in progress.
#[derive(Debug, PartialEq, Eq)]
pub enum TransferEvent {
    /// The store's status for the data, or the client's message.
    DataSent(Result<HttpStatus, String>),
    /// The text of the store's answer to the data, or the client's message.
    ReplyRead(Result<String, String>),
    /// The store's status for the file, or the message of what failed while
    /// reading it or sending it.
    FileSent(Result<HttpStatus, String>),
}

/// What the transfer asks for next.
#[derive(Debug, PartialEq, Eq)]
pub enum TransferAction {
    /// Post `body` as a form to [`STORE_RAW_IMAGES_URL`].
    SendData { body: String },
    /// Read the text of the store's answer.
    ReadReply,
    /// Read the whole file and post it to `url` with its length.
    SendFile { raw_file_id: u64, url: String },
    /// The transfer is over: the id of the store's raw image, or the error.
    Finish(Result<u64, TransferError>),
    /// The transfer is given up.
    Abort(TransferAbort),
}

impl TransferState {
    /// Whether `event` is an outcome of the exchange that this state waits for.
    pub open spec fn awaits(self, event: TransferEvent) -> bool {
        match self {
            TransferState::SendingData => event is DataSent,
            TransferState::ReadingReply => event is ReplyRead,
            TransferState::SendingFile { .. } => event is FileSent,
            TransferState::Done => false,
        }
    }

    /// An upper bound on the exchanges left.
    pub open spec fn remaining(self) -> nat {
        match self {
            TransferState::SendingData => 3,
            TransferState::ReadingReply => 2,
            TransferState::SendingFile { .. } => 1,
            TransferState::Done => 0,
        }
    }

    /// Whether `r` is the state and the action that follow `event` in this state.
    pub open spec fn transition(self, event: TransferEvent, r: (TransferState, TransferAction)) -> bool {
        match event {
            TransferEvent::DataSent(Err(e)) => r.0 == TransferState::Done && (r.1 matches TransferAction::Finish(
                Err(TransferError::SendFailed(m)),
            ) && m@ == e@),
            TransferEvent::DataSent(Ok(status)) => if status.code == HTTP_CREATED {
                r.0 == TransferState::ReadingReply && r.1 is ReadReply
            } else {
                r.0 == TransferState::Done && (r.1 matches TransferAction::Finish(
                    Err(TransferError::UnexpectedStatus(s)),
                ) && s@ == status.text@)
            },
            TransferEvent::ReplyRead(Err(e)) => r.0 == TransferState::Done && (r.1 matches TransferAction::Finish(
                Err(TransferError::ReadFailed(m)),
            ) && m@ == e@),
            TransferEvent::ReplyRead(Ok(text)) => match json_member_u64(text@, "id"@) {
                Err(m) => r.0 == TransferState::Done && (r.1 matches TransferAction::Finish(
                    Err(TransferError::InvalidJson(x)),
                ) && x@ == m),
                Ok(None) => r.0 == TransferState::Done && r.1 == TransferAction::Abort(
                    TransferAbort::MissingId,
                ),
                Ok(Some(id)) => r.0 == (TransferState::SendingFile { raw_file_id: id }) && (
                r.1 matches TransferAction::SendFile { raw_file_id, url } && raw_file_id == id
                    && url@ == raw_image_address(id)),
            },
            TransferEvent::FileSent(Err(e)) => r.0 == TransferState::Done && (r.1 matches TransferAction::Finish(
                Err(TransferError::FileFailed(m)),
            ) && m@ == e@),
            TransferEvent::FileSent(Ok(status)) => r.0 == TransferState::Done && match self {
                TransferState::SendingFile { raw_file_id } => if status.code == HTTP_CREATED {
                    r.1 matches TransferAction::Finish(Ok(n)) && n == raw_file_id
                } else {
                    r.1 == TransferAction::Abort(TransferAbort::FileNotCreated)
                },
                _ => false,
            },
        }
    }
}

/// Starts sending an image to the store: its data goes first.
///
/// The form gets the image's latitude under `longitude` and its longitude
/// under `latitude`: the data is handed to [`build_new_image_body`] in that
/// order.
pub fn start_transfer(import: &RawImageData) -> (r: (TransferState, TransferAction))
    ensures
        r.0 == TransferState::SendingData,
        r.1 matches TransferAction::SendData { body } && body@ == new_image_form(
            import.user_id,
            import.camera@,
            import.latitude@,
            import.longitude@,
        ),
{
    let body = build_new_image_body(import.user_id, &import.camera, &import.latitude, &import.longitude);
    (TransferState::SendingData, TransferAction::SendData { body })
}

/// Takes the outcome of the exchange in progress with the store and says
/// what to do next: the data is accepted with `201 Created` and an answer
/// whose `id` names the new raw image, the file is then sent to that raw
/// image, and the transfer yields the id once the store has accepted the file.
pub fn transfer_image_to_store(state: TransferState, event: TransferEvent) -> (r: (
    TransferState,
    TransferAction,
))
    requires
        state.awaits(event),
    ensures
        state.transition(event, r),
{
    match event {
        TransferEvent::DataSent(Err(e)) => (
            TransferState::Done,
            TransferAction::Finish(Err(TransferError::SendFailed(e))),
        ),
        TransferEvent::DataSent(Ok(status)) => {
            if status.code == HTTP_CREATED {
                (TransferState::ReadingReply, TransferAction::ReadReply)
            } else {
                (
                    TransferState::Done,
                    TransferAction::Finish(Err(TransferError::UnexpectedStatus(status.text))),
                )
            }
        },
        TransferEvent::ReplyRead(Err(e)) => (
            TransferState::Done,
            TransferAction::Finish(Err(TransferError::ReadFailed(e))),
        ),
        TransferEvent::ReplyRead(Ok(text)) => {
            let key = "id";
            match read_json_member_u64(text.as_str(), key) {
                Err(m) => (
                    TransferState::Done,
                    TransferAction::Finish(Err(TransferError::InvalidJson(m))),
                ),
                Ok(None) => (TransferState::Done, TransferAction::Abort(TransferAbort::MissingId)),
                Ok(Some(id)) => {
                    let url = raw_image_url(id);
                    (
                        TransferState::SendingFile { raw_file_id: id },
                        TransferAction::SendFile { raw_file_id: id, url },
                    )
                },
            }
        },
        TransferEvent::FileSent(Err(e)) => (
            TransferState::Done,
            TransferAction::Finish(Err(TransferError::FileFailed(e))),
        ),
        TransferEvent::FileSent(Ok(status)) => {
            match state {
                TransferState::SendingFile { raw_file_id } => {
                    if status.code == HTTP_CREATED {
                        (TransferState::Done, TransferAction::Finish(Ok(raw_file_id)))
                    } else {
                        (TransferState::Done, TransferAction::Abort(TransferAbort::FileNotCreated))
                    }
                },
                _ => (TransferState::Done, TransferAction::Abort(TransferAbort::FileNotCreated)),
            }
        },
    }
}

/// Each exchange brings a transfer closer to its end, and an ended transfer
/// awaits nothing.
pub proof fn lemma_transfer_terminates(
    state: TransferState,
    event: TransferEvent,
    r: (TransferState, TransferAction),
)
    requires
        state.awaits(event),
        state.transition(event, r),
    ensures
        r.0.remaining() < state.remaining(),
        state is Done ==> !state.awaits(event),
{
}

/// A transfer succeeds only when the store has accepted the file with
/// `201 Created`, and what it yields is the id of the raw image that the file
/// was sent to.
pub proof fn lemma_transfer_yields_accepted_file(
    state: TransferState,
    event: TransferEvent,
    r: (TransferState, TransferAction),
    n: u64,
)
    requires
        state.awaits(event),
        state.transition(event, r),
        r.1 matches TransferAction::Finish(Ok(m)) && m == n,
    ensures
        state == (TransferState::SendingFile { raw_file_id: n }),
        event matches TransferEvent::FileSent(Ok(status)) && status.code == HTTP_CREATED,
{
}

/// The raw image that the file is sent to is the one named by the `id` of the
/// store's answer to the data, at the address built from that id.
pub proof fn lemma_file_goes_to_announced_raw_image(
    text: String,
    r: (TransferState, TransferAction),
    id: u64,
)
    requires
        TransferState::ReadingReply.transition(TransferEvent::ReplyRead(Ok(text)), r),
        json_member_u64(text@, "id"@) == Ok::<Option<u64>, Seq<char>>(Some(id)),
    ensures
        r.0 == (TransferState::SendingFile { raw_file_id: id }),
        r.1 matches TransferAction::SendFile { raw_file_id, url } && raw_file_id == id && url@
            == raw_image_address(id),
{
}

/// The form announcing a new raw image is the urlencoded form of exactly four
/// pairs, in this order: `user_id` with the decimal text of the user (which
/// denotes the user), then `camera`, `longitude` and `latitude`, each with the
/// text it was given, unchanged.
pub proof fn lemma_new_image_form_passes_values(
    user_id: i32,
    camera: Seq<char>,
    longitude: Seq<char>,
    latitude: Seq<char>,
)
    ensures
        exists|pairs: Seq<(Seq<char>, Seq<char>)>|
            {
                &&& new_image_form(user_id, camera, longitude, latitude) == form_urlencoded(pairs)
                &&& pairs.len() == 4
                &&& pairs[0].0 == "user_id"@ && pairs[1].0 == "camera"@
                &&& pairs[2].0 == "longitude"@ && pairs[3].0 == "latitude"@
                &&& pairs[1].1 == camera && pairs[2].1 == longitude && pairs[3].1 == latitude
                &&& pairs[0].1 == int_text(user_id as int)
                &&& (user_id >= 0 ==> text_value(pairs[0].1) == user_id)
                &&& (user_id < 0 ==> pairs[0].1[0] == '-' && text_value(pairs[0].1.drop_first())
                    == -user_id)
            },
{
    lemma_int_text_denotes(user_id as int);
    let pairs = seq![
        ("user_id"@, int_text(user_id as int)),
        ("camera"@, camera),
        ("longitude"@, longitude),
        ("latitude"@, latitude),
    ];
    assert(new_image_form(user_id, camera, longitude, latitude) == form_urlencoded(pairs));
}

/// The address of a raw image's file is the store's raw-image address, a
/// slash, and then digits that denote exactly the raw image's id: the address
/// names the raw image the file belongs to, and no other.
pub proof fn lemma_raw_image_address_names_id(raw_file_id: u64)
    ensures
        raw_image_address(raw_file_id).len() > 33,
        raw_image_address(raw_file_id).take(33) == "http://store:8000/api/raw_images/"@,
        text_value(raw_image_address(raw_file_id).skip(33)) == raw_file_id,
        forall|i: int|
            33 <= i < raw_image_address(raw_file_id).len() ==> '0' <= #[trigger] raw_image_address(
                raw_file_id,
            )[i] <= '9',
{
    reveal_strlit("http://store:8000/api/raw_images/");
    lemma_nat_text_denotes(raw_file_id as nat);
    let a = raw_image_address(raw_file_id);
    assert(a.take(33) =~= "http://store:8000/api/raw_images/"@);
    assert(a.skip(33) =~= nat_text(raw_file_id as nat));
    assert forall|i: int| 33 <= i < a.len() implies '0' <= #[trigger] a[i] <= '9' by {
        assert(a[i] == nat_text(raw_file_id as nat)[i - 33]);
    }
}

/// Distinct raw images have distinct file addresses.
pub proof fn lemma_raw_image_address_injective(a: u64, b: u64)
    requires
        raw_image_address(a) == raw_image_address(b),
    ensures
        a == b,
{
    lemma_raw_image_address_names_id(a);
    lemma_raw_image_address_names_id(b);
}

/// Each failure of a transfer ends it and reports what went wrong with the
/// text it came with, unchanged: a send failure or an unreadable answer with
/// the client's message, a refused data with the store's status line, an
/// answer that is no JSON with the parser's message, a failed file with its
/// message; an answer without an id, or a refused file, gives the transfer up.
pub proof fn lemma_transfer_reports_failures(
    event: TransferEvent,
    state: TransferState,
    r: (TransferState, TransferAction),
)
    requires
        state.awaits(event),
        state.transition(event, r),
    ensures
        event matches TransferEvent::DataSent(Err(e)) ==> r.0 == TransferState::Done && (
        r.1 matches TransferAction::Finish(Err(TransferError::SendFailed(m))) && m@ == e@),
        event matches TransferEvent::DataSent(Ok(st)) ==> (st.code == 201 <==> r.1 is ReadReply),
        event matches TransferEvent::DataSent(Ok(st)) ==> (st.code != 201 ==> r.0
            == TransferState::Done && (r.1 matches TransferAction::Finish(
            Err(TransferError::UnexpectedStatus(m)),
        ) && m@ == st.text@)),
        event matches TransferEvent::ReplyRead(Err(e)) ==> r.0 == TransferState::Done && (
        r.1 matches TransferAction::Finish(Err(TransferError::ReadFailed(m))) && m@ == e@),
        event matches TransferEvent::ReplyRead(Ok(text)) ==> (json_member_u64(text@, "id"@)
            matches Err(msg) ==> r.1 matches TransferAction::Finish(
            Err(TransferError::InvalidJson(m)),
        ) && m@ == msg),
        event matches TransferEvent::ReplyRead(Ok(text)) ==> (json_member_u64(text@, "id"@)
            == Ok::<Option<u64>, Seq<char>>(None) ==> r.1 == TransferAction::Abort(
            TransferAbort::MissingId,
        )),
        event matches TransferEvent::FileSent(Err(e)) ==> r.0 == TransferState::Done && (
        r.1 matches TransferAction::Finish(Err(TransferError::FileFailed(m))) && m@ == e@),
        event matches TransferEvent::FileSent(Ok(st)) ==> (st.code != 201 ==> r.1
            == TransferAction::Abort(TransferAbort::FileNotCreated)),
{
}

/// The message of a transfer error keeps the text it carries whole, after a
/// fixed lead that says which step failed (the status line sits between the
/// lead and a fixed tail); a failed file is reported by its own message.
pub proof fn lemma_error_messages_keep_their_text(e: String)
    ensures
        TransferError::SendFailed(e).message_text() == "could not save image data to store: "@ + e@,
        TransferError::UnexpectedStatus(e).message_text() == "unexpected HTTP status "@ + e@
            + " when sending image data to store"@,
        TransferError::ReadFailed(e).message_text() == "could not read response: "@ + e@,
        TransferError::InvalidJson(e).message_text() == "could not read response JSON: "@ + e@,
        TransferError::FileFailed(e).message_text() == e@,
{
}

} // verus!
