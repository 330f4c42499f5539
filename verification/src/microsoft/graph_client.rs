//! The requests the application sends to the drive, and how it reads the
//! status of a reply.

use vstd::prelude::*;

use crate::error::OrgError;
use crate::hash::{sha256, sha256_digest, upper_hex};
use crate::microsoft::data::DriveItem;

verus! {

/// The ledger workbook's content.
pub const LEDGER_CONTENT_URI: &'static str =
    "https://graph.microsoft.com/v1.0/me/drive/root:/org/ledger.xlsx:/content";

/// The folder that keeps the uploaded exports; a file's item is this
/// followed by the file's name.
pub const SOURCE_FOLDER_URI: &'static str =
    "https://graph.microsoft.com/v1.0/me/drive/root:/org/source/";

/// What follows an item's address to address its content.
pub const CONTENT_SUFFIX: &'static str = ":/content";

/// Opens a session on the ledger workbook.
pub const CREATE_SESSION_URI: &'static str =
    "https://graph.microsoft.com/v1.0/me/drive/root:/org/ledger.xlsx:/workbook/createSession";

/// Closes a session on the ledger workbook.
pub const CLOSE_SESSION_URI: &'static str =
    "https://graph.microsoft.com/v1.0/me/drive/root:/org/ledger.xlsx:/workbook/closeSession";

/// The rows of the ledger's table.
pub const TABLE_ROWS_URI: &'static str =
    "https://graph.microsoft.com/v1.0/me/drive/root:/org/ledger.xlsx:/workbook/tables/Table1/rows";

/// The media type of a workbook.
pub const WORKBOOK_CONTENT_TYPE: &'static str =
    "application/vnd.openxmlformats-officedocument.spreadsheetml.sheet";

/// The body that asks for a session whose changes are kept.
pub const PERSISTENT_SESSION_BODY: &'static str = "{\"persistChanges\":true}";

/// The text `serde_json` writes for a string: the string as a JSON literal.
pub uninterp spec fn json_string_text(value: Seq<char>) -> Seq<char>;

/// Calls `serde_json::to_string` on a string. Claimed: the text is
/// `json_string_text` of the string, and there always is one (a string is
/// written into a byte vector, which cannot fail).
#[verifier::external_body]
fn json_string(value: &str) -> (res: Option<String>)
    ensures
        res is Some,
        res matches Some(text) ==> text@ == json_string_text(value@),
{
    serde_json::to_string(value).ok()
}

/// The text `http` displays a status code with (the number, a space and the
/// reason phrase).
pub uninterp spec fn status_code_text(code: u16) -> Seq<char>;

/// Calls `reqwest::StatusCode::from_u16` and displays the code with
/// `to_string`. Claimed: the text is `status_code_text` of the code.
/// `from_u16` refuses codes outside 100..=999, hence the bound.
#[verifier::external_body]
fn display_status_code(code: u16) -> (res: String)
    requires
        100 <= code <= 999,
    ensures
        res@ == status_code_text(code),
{
    match reqwest::StatusCode::from_u16(code) {
        Ok(status) => status.to_string(),
        Err(_) => String::new(),
    }
}

/// The method of a request.
#[derive(Debug, Clone, Copy, PartialEq, Eq, Structural)]
pub enum HttpMethod {
    Get,
    Put,
    Post,
}

/// The body of a request.
#[derive(Debug, Clone, PartialEq, Eq)]
pub enum RequestBody {
    Empty,
    Binary(Vec<u8>),
    Json(String),
}

/// A body taken as plain values.
pub enum RequestBodyView {
    Empty,
    Binary(Seq<u8>),
    Json(Seq<char>),
}

/// A request to the drive, to be sent with the user's access token.
#[derive(Debug, Clone, PartialEq, Eq)]
pub struct GraphRequest {
    pub method: HttpMethod,
    pub uri: String,
    pub headers: Vec<(String, String)>,
    pub body: RequestBody,
}

/// A request taken as plain values.
pub struct GraphRequestView {
    pub method: HttpMethod,
    pub uri: Seq<char>,
    pub headers: Seq<(Seq<char>, Seq<char>)>,
    pub body: RequestBodyView,
}

impl View for RequestBody {
    type V = RequestBodyView;

    open spec fn view(&self) -> RequestBodyView {
        match self {
            RequestBody::Empty => RequestBodyView::Empty,
            RequestBody::Binary(bytes) => RequestBodyView::Binary(bytes@),
            RequestBody::Json(text) => RequestBodyView::Json(text@),
        }
    }
}

impl View for GraphRequest {
    type V = GraphRequestView;

    open spec fn view(&self) -> GraphRequestView {
        GraphRequestView {
            method: self.method,
            uri: self.uri@,
            headers: self.headers.deep_view(),
            body: self.body@,
        }
    }
}

/// The address of an export's item in the source folder.
pub open spec fn source_item_uri(name: Seq<char>) -> Seq<char> {
    SOURCE_FOLDER_URI@ + name
}

/// The address of an export's content in the source folder.
pub open spec fn source_content_uri(name: Seq<char>) -> Seq<char> {
    SOURCE_FOLDER_URI@ + name + CONTENT_SUFFIX@
}

/// Stores the empty ledger workbook in its place.
pub open spec fn create_ledger_request_spec(ledger: Seq<u8>) -> GraphRequestView {
    GraphRequestView {
        method: HttpMethod::Put,
        uri: LEDGER_CONTENT_URI@,
        headers: seq![("Content-Type"@, WORKBOOK_CONTENT_TYPE@)],
        body: RequestBodyView::Binary(ledger),
    }
}

/// Asks for an export's item in the source folder.
pub open spec fn file_exists_request_spec(name: Seq<char>) -> GraphRequestView {
    GraphRequestView {
        method: HttpMethod::Get,
        uri: source_item_uri(name),
        headers: Seq::empty(),
        body: RequestBodyView::Empty,
    }
}

/// Stores an export's content in the source folder.
pub open spec fn upload_to_source_request_spec(name: Seq<char>, content: Seq<u8>) -> GraphRequestView {
    GraphRequestView {
        method: HttpMethod::Put,
        uri: source_content_uri(name),
        headers: seq![("Content-Type"@, "text/plain"@)],
        body: RequestBodyView::Binary(content),
    }
}

/// Storing an export puts its whole content, unchanged, as the body, at the
/// source folder's address for the name followed by `:/content`; storing the
/// empty ledger likewise sends the whole workbook.
pub proof fn lemma_stored_content_is_whole(name: Seq<char>, content: Seq<u8>)
    ensures
        upload_to_source_request_spec(name, content).body == RequestBodyView::Binary(content),
        upload_to_source_request_spec(name, content).method == HttpMethod::Put,
        upload_to_source_request_spec(name, content).uri == SOURCE_FOLDER_URI@ + name
            + CONTENT_SUFFIX@,
        create_ledger_request_spec(content).body == RequestBodyView::Binary(content),
        create_ledger_request_spec(content).method == HttpMethod::Put,
        create_ledger_request_spec(content).uri == LEDGER_CONTENT_URI@,
{
}

/// The address asked for an export is the source folder's address followed
/// by the whole name, and the address it is stored at adds `:/content`.
pub proof fn lemma_source_addresses(name: Seq<char>)
    ensures
        file_exists_request_spec(name).uri == SOURCE_FOLDER_URI@ + name,
        file_exists_request_spec(name).method == HttpMethod::Get,
        upload_to_source_request_spec(name, Seq::empty()).uri == file_exists_request_spec(
            name,
        ).uri + CONTENT_SUFFIX@,
{
}

/// Opens a session on the ledger whose changes are kept.
pub open spec fn create_session_request_spec() -> GraphRequestView {
    GraphRequestView {
        method: HttpMethod::Post,
        uri: CREATE_SESSION_URI@,
        headers: seq![("Content-Type"@, "application/json"@)],
        body: RequestBodyView::Json(PERSISTENT_SESSION_BODY@),
    }
}

/// Closes a session on the ledger.
pub open spec fn close_session_request_spec(session: Seq<char>) -> GraphRequestView {
    GraphRequestView {
        method: HttpMethod::Post,
        uri: CLOSE_SESSION_URI@,
        headers: seq![("workbook-session-id"@, session), ("Content-Length"@, "0"@)],
        body: RequestBodyView::Empty,
    }
}

/// Adds a row to the ledger's table within a session.
pub open spec fn create_row_request_spec(session: Seq<char>, values: Seq<char>) -> GraphRequestView {
    GraphRequestView {
        method: HttpMethod::Post,
        uri: TABLE_ROWS_URI@,
        headers: seq![("workbook-session-id"@, session), ("Content-Type"@, "application/json"@)],
        body: RequestBodyView::Json("{\"values\":"@ + json_string_text(values) + "}"@),
    }
}

/// Closing a session and writing a row name the whole session id; a row's
/// body holds the whole JSON text of its values between the fixed prefix and
/// suffix.
pub proof fn lemma_session_requests_carry_session(session: Seq<char>, values: Seq<char>)
    ensures
        close_session_request_spec(session).headers.len() == 2,
        close_session_request_spec(session).headers[0] == ("workbook-session-id"@, session),
        close_session_request_spec(session).method == HttpMethod::Post,
        create_row_request_spec(session, values).headers.len() == 2,
        create_row_request_spec(session, values).headers[0] == ("workbook-session-id"@, session),
        create_row_request_spec(session, values).method == HttpMethod::Post,
        create_row_request_spec(session, values).body == RequestBodyView::Json(
            "{\"values\":"@ + json_string_text(values) + "}"@,
        ),
{
}

fn text(s: &str) -> (res: String)
    ensures
        res@ == s@,
{
    String::from_str(s)
}

fn concat(a: &str, b: &str) -> (res: String)
    ensures
        res@ == a@ + b@,
{
    let mut res = String::from_str(a);
    res.append(b);
    res
}

fn one_header(name: &str, value: &str) -> (res: Vec<(String, String)>)
    ensures
        res.deep_view() == seq![(name@, value@)],
{
    let mut res = Vec::new();
    res.push((text(name), text(value)));
    assert(res.deep_view() =~= seq![(name@, value@)]);
    res
}

fn two_headers(name1: &str, value1: &str, name2: &str, value2: &str) -> (res: Vec<(String, String)>)
    ensures
        res.deep_view() == seq![(name1@, value1@), (name2@, value2@)],
{
    let mut res = Vec::new();
    res.push((text(name1), text(value1)));
    res.push((text(name2), text(value2)));
    assert(res.deep_view() =~= seq![(name1@, value1@), (name2@, value2@)]);
    res
}

/// The request that stores the empty ledger workbook.
pub fn create_ledger_request(ledger: Vec<u8>) -> (res: GraphRequest)
    ensures
        res@ == create_ledger_request_spec(ledger@),
{
    GraphRequest {
        method: HttpMethod::Put,
        uri: text(LEDGER_CONTENT_URI),
        headers: one_header("Content-Type", WORKBOOK_CONTENT_TYPE),
        body: RequestBody::Binary(ledger),
    }
}

/// The request that asks for an export's item in the source folder.
pub fn file_exists_request(name: &str) -> (res: GraphRequest)
    ensures
        res@ == file_exists_request_spec(name@),
{
    let headers: Vec<(String, String)> = Vec::new();
    assert(headers.deep_view() =~= Seq::<(Seq<char>, Seq<char>)>::empty());
    GraphRequest {
        method: HttpMethod::Get,
        uri: concat(SOURCE_FOLDER_URI, name),
        headers,
        body: RequestBody::Empty,
    }
}

/// The request that stores an export's content in the source folder.
pub fn upload_to_source_request(name: &str, content: Vec<u8>) -> (res: GraphRequest)
    ensures
        res@ == upload_to_source_request_spec(name@, content@),
{
    let mut uri = concat(SOURCE_FOLDER_URI, name);
    uri.append(CONTENT_SUFFIX);
    GraphRequest {
        method: HttpMethod::Put,
        uri,
        headers: one_header("Content-Type", "text/plain"),
        body: RequestBody::Binary(content),
    }
}

/// The request that opens a session on the ledger.
pub fn create_session_request() -> (res: GraphRequest)
    ensures
        res@ == create_session_request_spec(),
{
    GraphRequest {
        method: HttpMethod::Post,
        uri: text(CREATE_SESSION_URI),
        headers: one_header("Content-Type", "application/json"),
        body: RequestBody::Json(text(PERSISTENT_SESSION_BODY)),
    }
}

/// The request that closes a session on the ledger.
pub fn close_session_request(session: &str) -> (res: GraphRequest)
    ensures
        res@ == close_session_request_spec(session@),
{
    GraphRequest {
        method: HttpMethod::Post,
        uri: text(CLOSE_SESSION_URI),
        headers: two_headers("workbook-session-id", session, "Content-Length", "0"),
        body: RequestBody::Empty,
    }
}

/// The request that adds a row, given as JSON text, to the ledger's table.
pub fn create_row_request(session: &str, values: &str) -> (res: GraphRequest)
    ensures
        res@ == create_row_request_spec(session@, values@),
{
    let literal = json_string(values).unwrap();
    let mut body = text("{\"values\":");
    body.append(literal.as_str());
    body.append("}");
    GraphRequest {
        method: HttpMethod::Post,
        uri: text(TABLE_ROWS_URI),
        headers: two_headers("workbook-session-id", session, "Content-Type", "application/json"),
        body: RequestBody::Json(body),
    }
}

/// A reply status in 200..=299.
pub open spec fn is_success_status(code: u16) -> bool {
    200 <= code <= 299
}

/// Whether a reply status reports success (200..=299).
pub fn is_success(code: u16) -> (res: bool)
    ensures
        res == is_success_status(code),
{
    200 <= code && code <= 299
}

/// The status of a reply that reports the requested item absent.
pub const NOT_FOUND: u16 = 404;

/// Statuses with which the drive accepts a stored export: 200 (replaced) and
/// 201 (created).
pub open spec fn upload_accepted_status(code: u16) -> bool {
    code == 200 || code == 201
}

/// Whether the drive accepted a stored export.
pub fn upload_accepted(code: u16) -> (res: bool)
    ensures
        res == upload_accepted_status(code),
{
    code == 200 || code == 201
}

/// The error text for an export the drive did not accept.
pub open spec fn upload_failure_text(code: u16, reply: Seq<char>) -> Seq<char> {
    "Failed uploading to drive code:"@ + status_code_text(code) + " text:"@ + reply
}

/// The error text for a refused export ends with the whole reply text, after
/// the status code's text.
pub proof fn lemma_upload_failure_text_ends_with_reply(code: u16, reply: Seq<char>)
    ensures
        upload_failure_text(code, reply).len() >= reply.len(),
        upload_failure_text(code, reply).subrange(
            upload_failure_text(code, reply).len() - reply.len(),
            upload_failure_text(code, reply).len() as int,
        ) == reply,
{
    let t = upload_failure_text(code, reply);
    let head = "Failed uploading to drive code:"@ + status_code_text(code) + " text:"@;
    assert(t =~= head + reply);
    assert(t.subrange(t.len() - reply.len(), t.len() as int) =~= reply);
}

/// The error for an export the drive did not accept, given the reply's status
/// and text.
pub fn upload_failure(code: u16, reply: &str) -> (res: OrgError)
    requires
        100 <= code <= 999,
    ensures
        res matches OrgError::MicrosoftDrive(t) && t@ == upload_failure_text(code, reply@),
{
    let mut message = text("Failed uploading to drive code:");
    let status = display_status_code(code);
    message.append(status.as_str());
    message.append(" text:");
    message.append(reply);
    OrgError::MicrosoftDrive(message)
}

/// Whether a stored export's content is the local file's: the drive's
/// SHA-256 equals that of the local content.
pub open spec fn content_matches(drive_hash: Seq<char>, content: Seq<u8>) -> bool {
    drive_hash == upper_hex(sha256(content))
}

/// The drive holds this very content exactly when its hash is the upper-case
/// hex of SHA-256 over the whole content: an item carrying that text matches,
/// and an item that matches carries that text.
pub proof fn lemma_content_matches_whole_hash(drive_hash: Seq<char>, content: Seq<u8>)
    ensures
        content_matches(upper_hex(sha256(content)), content),
        content_matches(drive_hash, content) ==> drive_hash == upper_hex(sha256(content)),
        drive_hash != upper_hex(sha256(content)) ==> !content_matches(drive_hash, content),
{
}

/// Two contents with the same SHA-256 are matched by the same items.
pub proof fn lemma_content_matches_by_digest(drive_hash: Seq<char>, a: Seq<u8>, b: Seq<u8>)
    requires
        sha256(a) == sha256(b),
    ensures
        content_matches(drive_hash, a) == content_matches(drive_hash, b),
{
}

/// Whether the drive's item holds the given content, judged by the SHA-256
/// the drive reports.
pub fn matches_drive_item(item: &DriveItem, content: &[u8]) -> (res: bool)
    requires
        content@.len() < 0x2000_0000_0000_0000,
    ensures
        res == content_matches(item.file.hashes.sha256_hash@, content@),
{
    let digest = sha256_digest(content);
    let local = crate::hash::digest_to_upper_hex(digest);
    item.file.hashes.sha256_hash == local
}

} // verus!
