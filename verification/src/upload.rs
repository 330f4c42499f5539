//! The decisions of an upload: which request goes out next, and what a reply
//! means. The caller performs each action and reports back with an event.

use vstd::prelude::*;

use crate::error::OrgError;
use crate::ledger::{diff_records, records_missing_from};
use crate::microsoft::data::DriveItem;
use crate::microsoft::graph_client::{
    close_session_request, close_session_request_spec, content_matches, create_ledger_request,
    create_ledger_request_spec, create_session_request, create_session_request_spec,
    create_row_request, create_row_request_spec, file_exists_request, file_exists_request_spec, is_success, is_success_status,
    matches_drive_item, upload_accepted, upload_accepted_status, upload_failure,
    upload_failure_text, upload_to_source_request, upload_to_source_request_spec, GraphRequest,
    GraphRequestView, HttpMethod, NOT_FOUND, SOURCE_FOLDER_URI,
};
use crate::microsoft::{record_values, Record};

verus! {

/// The name an export is stored under: its name, a dot and the extension of
/// its content type.
pub open spec fn upload_file_name_spec(name: Seq<char>, extension: Seq<char>) -> Seq<char> {
    name + "."@ + extension
}

/// The name an export is stored under.
pub fn upload_file_name(name: &str, extension: &str) -> (res: String)
    ensures
        res@ == upload_file_name_spec(name@, extension@),
{
    let mut res = String::from_str(name);
    res.append(".");
    res.append(extension);
    res
}

/// The stored name is the form's whole name, a dot, and the whole extension:
/// nothing of either is dropped or changed.
pub proof fn lemma_upload_file_name_is_whole(name: Seq<char>, extension: Seq<char>)
    ensures
        upload_file_name_spec(name, extension).len() == name.len() + 1 + extension.len(),
        upload_file_name_spec(name, extension).subrange(0, name.len() as int) == name,
        upload_file_name_spec(name, extension)[name.len() as int] == '.',
        upload_file_name_spec(name, extension).subrange(
            (name.len() + 1) as int,
            (name.len() + 1 + extension.len()) as int,
        ) == extension,
{
    reveal_strlit(".");
    let n = upload_file_name_spec(name, extension);
    assert(n =~= name + seq!['.'] + extension);
    assert(n.subrange(0, name.len() as int) =~= name);
    assert(n.subrange((name.len() + 1) as int, (name.len() + 1 + extension.len()) as int)
        =~= extension);
}

/// Where an upload stands, and what it waits for.
#[derive(Debug)]
pub enum UploadStep {
    /// Asked whether the export is stored already; waits for the status.
    CheckingSource,
    /// The export is stored; waits for the drive's item.
    ReadingDriveItem,
    /// Waits for the local content, to compare it with the drive's hash.
    HashingSource { drive_hash: String },
    /// Waits for the local content, to store it.
    ReadingSource,
    /// Stored the export; waits for the status.
    StoringSource,
    /// The export was refused; waits for the reply's text.
    ReadingStoreFailure { code: u16 },
    /// Asked for a session on the ledger; waits for the status.
    OpeningSession { ledger_created: bool },
    /// The session is open; waits for its id.
    ReadingSessionId,
    /// The session was refused; waits for the reply's text.
    ReadingSessionFailure,
    /// The ledger is missing; waits for the empty workbook.
    ReadingLedgerTemplate,
    /// Stored the empty workbook; waits for the status.
    CreatingLedger,
    /// The workbook was refused; waits for the reply's text.
    ReadingLedgerFailure,
    /// Waits for the records the ledger holds.
    LoadingLedgerRecords { session: String },
    /// Waits for the records of the export.
    LoadingExportRecords { session: String, known: Vec<Record> },
    /// Sent the row of the record at `index` of the records handed over;
    /// waits for the status.
    WritingRow { session: String, index: usize },
    /// A row was refused; waits for the reply's text.
    ReadingRowFailure,
    /// Closed the session; waits for the status.
    ClosingSession,
    /// Closing was refused; waits for the reply's text.
    ReadingCloseFailure,
    /// Done; the last action said how it ended.
    Finished,
}

/// An upload in progress.
#[derive(Debug)]
pub struct UploadFlow {
    /// The name the export is stored under.
    pub file_name: String,
    pub step: UploadStep,
    /// Whether the drive held this very export before it was stored again;
    /// nothing until that is known.
    pub source_unchanged: Option<bool>,
    /// The records written to the ledger's table, in the order they are written.
    pub uploaded: Vec<Record>,
}

/// What the caller reports back.
#[derive(Debug)]
pub enum UploadEvent {
    /// The status of the reply to the request sent.
    Status(u16),
    /// The text of the reply.
    Text(String),
    /// The drive's item, read from the reply.
    Item(DriveItem),
    /// The content of a local file.
    FileContents(Vec<u8>),
    /// The session's id, read from the reply.
    SessionId(String),
    /// Records, from the ledger or from the export.
    Records(Vec<Record>),
    /// The action failed with this error.
    Failed(OrgError),
}

/// What the caller is to do next.
#[derive(Debug)]
pub enum UploadAction {
    /// Send this request with the user's access token.
    Send(GraphRequest),
    /// Read the text of the reply.
    ReadText,
    /// Read the drive's item from the reply.
    ReadDriveItem,
    /// Read the export's local content.
    ReadSourceFile,
    /// Read the empty ledger workbook.
    ReadLedgerTemplate,
    /// Read the session's id from the reply.
    ReadSessionId,
    /// Read the records the ledger holds, within this session.
    LoadLedgerRecords(String),
    /// Read the export's records.
    LoadExportRecords,
    /// Stop, with this outcome.
    Finish(Result<(), OrgError>),
}

/// A row being written is one of the records handed over.
pub open spec fn well_formed(flow: UploadFlow) -> bool {
    flow.step matches UploadStep::WritingRow { index, .. } ==> index < flow.uploaded@.len()
}

/// The events an upload waits for. A reply's status is a valid HTTP status,
/// content to be hashed is short enough for SHA-256, and a row being written
/// is one of the records handed over; a failure can end any step but the last.
pub open spec fn expects(flow: UploadFlow, event: UploadEvent) -> bool {
    let step = flow.step;
    &&& well_formed(flow)
    &&& match event {
        UploadEvent::Failed(_) => !(step is Finished),
        UploadEvent::Status(code) => 100 <= code <= 999 && match step {
            UploadStep::CheckingSource => true,
            UploadStep::StoringSource => true,
            UploadStep::OpeningSession { .. } => true,
            UploadStep::CreatingLedger => true,
            UploadStep::WritingRow { .. } => true,
            UploadStep::ClosingSession => true,
            _ => false,
        },
        UploadEvent::Text(_) => match step {
            UploadStep::ReadingStoreFailure { code } => 100 <= code <= 999,
            UploadStep::ReadingSessionFailure => true,
            UploadStep::ReadingLedgerFailure => true,
            UploadStep::ReadingRowFailure => true,
            UploadStep::ReadingCloseFailure => true,
            _ => false,
        },
        UploadEvent::Item(_) => step is ReadingDriveItem,
        UploadEvent::FileContents(content) => (step is HashingSource && content@.len()
            < 0x2000_0000_0000_0000) || step is ReadingSource || step is ReadingLedgerTemplate,
        UploadEvent::SessionId(_) => step is ReadingSessionId,
        UploadEvent::Records(_) => step is LoadingLedgerRecords || step is LoadingExportRecords,
    }
}

/// The action that ends an upload with an error from the drive carrying
/// `text`.
pub open spec fn finishes_with_drive_error(action: UploadAction, text: Seq<char>) -> bool {
    action matches UploadAction::Finish(Err(OrgError::MicrosoftDrive(t))) && t@ == text
}

/// The action that sends a request equal to `request`.
pub open spec fn sends(action: UploadAction, request: GraphRequestView) -> bool {
    action matches UploadAction::Send(r) && r@ == request
}

/// One step of an upload: from `before`, on `event`, the upload moves to
/// `after` and asks for `action`. The name, what is known of the stored
/// export and the records handed over change only where said.
pub open spec fn upload_transition(
    before: UploadFlow,
    event: UploadEvent,
    after: UploadFlow,
    action: UploadAction,
) -> bool {
    &&& after.file_name@ == before.file_name@
    &&& (action is Finish <==> after.step is Finished)
    &&& (after.uploaded.deep_view() == before.uploaded.deep_view() || (before.step is LoadingExportRecords
        && event is Records))
    &&& (after.source_unchanged == before.source_unchanged || (before.step is CheckingSource
        || before.step is HashingSource))
    &&& match event {
        UploadEvent::Failed(e) => action matches UploadAction::Finish(Err(x)) && x == e,
        UploadEvent::Status(code) => match before.step {
            UploadStep::CheckingSource => if code == NOT_FOUND {
                &&& after.step is ReadingSource
                &&& after.source_unchanged == Some(false)
                &&& action is ReadSourceFile
            } else {
                &&& after.step is ReadingDriveItem
                &&& after.source_unchanged == before.source_unchanged
                &&& action is ReadDriveItem
            },
            UploadStep::StoringSource => if upload_accepted_status(code) {
                &&& after.step == (UploadStep::OpeningSession { ledger_created: false })
                &&& sends(action, create_session_request_spec())
            } else {
                &&& after.step == (UploadStep::ReadingStoreFailure { code })
                &&& action is ReadText
            },
            UploadStep::OpeningSession { ledger_created } => if is_success_status(code) {
                &&& after.step is ReadingSessionId
                &&& action is ReadSessionId
            } else if code == NOT_FOUND && !ledger_created {
                &&& after.step is ReadingLedgerTemplate
                &&& action is ReadLedgerTemplate
            } else if code == NOT_FOUND {
                action matches UploadAction::Finish(Err(OrgError::MicrosoftDrive404))
            } else {
                &&& after.step is ReadingSessionFailure
                &&& action is ReadText
            },
            UploadStep::CreatingLedger => if is_success_status(code) {
                &&& after.step == (UploadStep::OpeningSession { ledger_created: true })
                &&& sends(action, create_session_request_spec())
            } else {
                &&& after.step is ReadingLedgerFailure
                &&& action is ReadText
            },
            UploadStep::WritingRow { session, index } => if !is_success_status(code) {
                &&& after.step is ReadingRowFailure
                &&& action is ReadText
            } else if index + 1 < before.uploaded@.len() {
                &&& after.step matches UploadStep::WritingRow { session: s, index: i } && s@
                    == session@ && i == index + 1
                &&& sends(
                    action,
                    create_row_request_spec(
                        session@,
                        record_values(before.uploaded.deep_view()[index + 1]),
                    ),
                )
            } else {
                &&& after.step is ClosingSession
                &&& sends(action, close_session_request_spec(session@))
            },
            UploadStep::ClosingSession => if is_success_status(code) {
                action matches UploadAction::Finish(Ok(()))
            } else {
                &&& after.step is ReadingCloseFailure
                &&& action is ReadText
            },
            _ => false,
        },
        UploadEvent::Text(reply) => match before.step {
            UploadStep::ReadingStoreFailure { code } => finishes_with_drive_error(
                action,
                upload_failure_text(code, reply@),
            ),
            UploadStep::ReadingSessionFailure => finishes_with_drive_error(action, reply@),
            UploadStep::ReadingLedgerFailure => finishes_with_drive_error(action, reply@),
            UploadStep::ReadingRowFailure => finishes_with_drive_error(action, reply@),
            UploadStep::ReadingCloseFailure => finishes_with_drive_error(action, reply@),
            _ => false,
        },
        UploadEvent::Item(item) => {
            &&& after.step matches UploadStep::HashingSource { drive_hash }
            &&& drive_hash@ == item.file.hashes.sha256_hash@
            &&& action is ReadSourceFile
        },
        UploadEvent::FileContents(content) => match before.step {
            UploadStep::HashingSource { drive_hash } => {
                &&& after.step is ReadingSource
                &&& after.source_unchanged == Some(content_matches(drive_hash@, content@))
                &&& action is ReadSourceFile
            },
            UploadStep::ReadingSource => {
                &&& after.step is StoringSource
                &&& sends(action, upload_to_source_request_spec(before.file_name@, content@))
            },
            UploadStep::ReadingLedgerTemplate => {
                &&& after.step is CreatingLedger
                &&& sends(action, create_ledger_request_spec(content@))
            },
            _ => false,
        },
        UploadEvent::SessionId(id) => {
            &&& after.step matches UploadStep::LoadingLedgerRecords { session } && session@ == id@
            &&& action matches UploadAction::LoadLedgerRecords(s) && s@ == id@
        },
        UploadEvent::Records(records) => match before.step {
            UploadStep::LoadingLedgerRecords { session } => {
                &&& after.step matches UploadStep::LoadingExportRecords { session: s, known }
                    && s@ == session@ && known.deep_view() == records.deep_view()
                &&& action is LoadExportRecords
            },
            UploadStep::LoadingExportRecords { session, known } => {
                let missing = records_missing_from(known.deep_view(), records.deep_view());
                &&& after.uploaded.deep_view() == missing
                &&& if missing.len() == 0 {
                    &&& after.step is ClosingSession
                    &&& sends(action, close_session_request_spec(session@))
                } else {
                    &&& after.step matches UploadStep::WritingRow { session: s, index: i } && s@
                        == session@ && i == 0
                    &&& sends(action, create_row_request_spec(session@, record_values(missing[0])))
                }
            },
            _ => false,
        },
    }
}

/// How an upload begins: the form must name a stored temporary file, the
/// file's name and its content type's extension; the first request asks
/// whether the export is stored already.
pub open spec fn upload_start(
    has_path: bool,
    name: Option<Seq<char>>,
    extension: Option<Seq<char>>,
    flow: UploadFlow,
    action: UploadAction,
) -> bool {
    &&& flow.uploaded@.len() == 0
    &&& flow.source_unchanged is None
    &&& if !has_path {
        &&& flow.step is Finished
        &&& action matches UploadAction::Finish(Err(OrgError::BadTempPath))
    } else if name is None {
        &&& flow.step is Finished
        &&& action matches UploadAction::Finish(Err(OrgError::MissingName))
    } else if extension is None {
        &&& flow.step is Finished
        &&& action matches UploadAction::Finish(Err(OrgError::BadTempPath))
    } else {
        &&& flow.file_name@ == upload_file_name_spec(name.unwrap(), extension.unwrap())
        &&& flow.step is CheckingSource
        &&& sends(action, file_exists_request_spec(flow.file_name@))
    }
}

/// How far an upload has come: every step ranks above the steps it can be
/// reached from. Writing the row at `index` ranks by the index; the steps
/// after the rows rank above every row of the records handed over.
pub open spec fn flow_rank(flow: UploadFlow) -> int {
    let written = flow.uploaded@.len() as int;
    match flow.step {
        UploadStep::CheckingSource => 0,
        UploadStep::ReadingDriveItem => 1,
        UploadStep::HashingSource { .. } => 2,
        UploadStep::ReadingSource => 3,
        UploadStep::StoringSource => 4,
        UploadStep::ReadingStoreFailure { .. } => 5,
        UploadStep::OpeningSession { ledger_created } => if ledger_created { 10 } else { 6 },
        UploadStep::ReadingLedgerTemplate => 7,
        UploadStep::CreatingLedger => 8,
        UploadStep::ReadingLedgerFailure => 9,
        UploadStep::ReadingSessionFailure => 11,
        UploadStep::ReadingSessionId => 12,
        UploadStep::LoadingLedgerRecords { .. } => 13,
        UploadStep::LoadingExportRecords { .. } => 14,
        UploadStep::WritingRow { index, .. } => 15 + 2 * index,
        UploadStep::ReadingRowFailure => 15 + 2 * written,
        UploadStep::ClosingSession => 16 + 2 * written,
        UploadStep::ReadingCloseFailure => 17 + 2 * written,
        UploadStep::Finished => 18 + 2 * written,
    }
}

/// Every event moves an upload forward: no step is visited twice, so an
/// upload ends after at most 18 events plus two for each row it writes, and
/// the empty ledger is stored at most once.
pub proof fn lemma_upload_moves_forward(
    before: UploadFlow,
    event: UploadEvent,
    after: UploadFlow,
    action: UploadAction,
)
    requires
        expects(before, event),
        upload_transition(before, event, after, action),
    ensures
        flow_rank(after) > flow_rank(before),
        0 <= flow_rank(after) <= 18 + 2 * after.uploaded@.len(),
{
    assert(after.uploaded@.len() == after.uploaded.deep_view().len());
    assert(before.uploaded@.len() == before.uploaded.deep_view().len());
}

/// A row the drive refuses ends the upload: the refusal's text is read and
/// the upload finishes with the drive's error carrying that text.
pub proof fn lemma_refused_row_ends_upload(
    writing: UploadFlow,
    code: u16,
    reading: UploadFlow,
    read_text: UploadAction,
    reply: String,
    done: UploadFlow,
    finish: UploadAction,
)
    requires
        writing.step is WritingRow,
        upload_transition(writing, UploadEvent::Status(code), reading, read_text),
        !is_success_status(code),
        upload_transition(reading, UploadEvent::Text(reply), done, finish),
    ensures
        read_text is ReadText,
        done.step is Finished,
        finish matches UploadAction::Finish(Err(OrgError::MicrosoftDrive(t))) && t@ == reply@,
{
}

/// A row the drive accepts leads to the next record's row, or, after the
/// last record, to closing the session.
pub proof fn lemma_accepted_row_moves_on(
    writing: UploadFlow,
    code: u16,
    after: UploadFlow,
    action: UploadAction,
)
    requires
        well_formed(writing),
        upload_transition(writing, UploadEvent::Status(code), after, action),
        is_success_status(code),
        writing.step matches UploadStep::WritingRow { index, .. } && index + 1 < writing.uploaded@.len(),
    ensures
        writing.step matches UploadStep::WritingRow { session, index } && sends(
            action,
            create_row_request_spec(session@, record_values(writing.uploaded@[index + 1]@)),
        ),
{
}

/// A finished upload waits for nothing more.
pub proof fn lemma_finished_is_final(flow: UploadFlow, event: UploadEvent)
    ensures
        !expects(UploadFlow { step: UploadStep::Finished, ..flow }, event),
{
}

/// Every step but the last can be ended by a failure, and the failure is
/// what the upload ends with.
pub proof fn lemma_failure_ends_upload(
    before: UploadFlow,
    error: OrgError,
    after: UploadFlow,
    action: UploadAction,
)
    requires
        well_formed(before),
        !(before.step is Finished),
        upload_transition(before, UploadEvent::Failed(error), after, action),
    ensures
        expects(before, UploadEvent::Failed(error)),
        after.step is Finished,
        action matches UploadAction::Finish(Err(e)) && e == error,
{
}

/// An upload begun from a form with a path, a name and an extension asks first
/// for the item named by the whole name, a dot and the whole extension in the
/// source folder, and keeps that name.
pub proof fn lemma_upload_starts_with_whole_name(
    name: Seq<char>,
    extension: Seq<char>,
    flow: UploadFlow,
    action: UploadAction,
)
    requires
        upload_start(true, Some(name), Some(extension), flow, action),
    ensures
        flow.file_name@ == name + seq!['.'] + extension,
        action matches UploadAction::Send(r) && r@.method == HttpMethod::Get && r@.uri
            == SOURCE_FOLDER_URI@ + name + seq!['.'] + extension,
{
    reveal_strlit(".");
    assert(upload_file_name_spec(name, extension) =~= name + seq!['.'] + extension);
}

fn finished(file_name: String, error: OrgError) -> (res: (UploadFlow, UploadAction))
    ensures
        res.0.file_name == file_name,
        res.0.step is Finished,
        res.0.uploaded@.len() == 0,
        res.0.source_unchanged is None,
        res.1 matches UploadAction::Finish(Err(e)) && e == error,
{
    (
        UploadFlow {
            file_name,
            step: UploadStep::Finished,
            source_unchanged: None,
            uploaded: Vec::new(),
        },
        UploadAction::Finish(Err(error)),
    )
}

impl UploadFlow {
    /// Begins an upload from what the form holds: whether the temporary file
    /// has a path, the file's name, and its content type's extension.
    pub fn start(has_path: bool, name: Option<&str>, extension: Option<&str>) -> (res: (
        UploadFlow,
        UploadAction,
    ))
        ensures
            upload_start(
                has_path,
                match name {
                    Some(n) => Some(n@),
                    None => None,
                },
                match extension {
                    Some(e) => Some(e@),
                    None => None,
                },
                res.0,
                res.1,
            ),
            well_formed(res.0),
    {
        if !has_path {
            return finished(String::new(), OrgError::BadTempPath);
        }
        let name = match name {
            Some(n) => n,
            None => {
                return finished(String::new(), OrgError::MissingName);
            },
        };
        let extension = match extension {
            Some(e) => e,
            None => {
                return finished(String::new(), OrgError::BadTempPath);
            },
        };
        let file_name = upload_file_name(name, extension);
        let request = file_exists_request(file_name.as_str());
        (
            UploadFlow {
                file_name,
                step: UploadStep::CheckingSource,
                source_unchanged: None,
                uploaded: Vec::new(),
            },
            UploadAction::Send(request),
        )
    }

    /// Whether the upload waits for this event.
    pub fn accepts(&self, event: &UploadEvent) -> (res: bool)
        ensures
            res == expects(*self, *event),
    {
        let finished = match self.step {
            UploadStep::Finished => true,
            _ => false,
        };
        let well_formed = match self.step {
            UploadStep::WritingRow { index, .. } => index < self.uploaded.len(),
            _ => true,
        };
        well_formed && match event {
            UploadEvent::Failed(_) => !finished,
            UploadEvent::Status(code) => 100 <= *code && *code <= 999 && match self.step {
                UploadStep::CheckingSource
                | UploadStep::StoringSource
                | UploadStep::OpeningSession { .. }
                | UploadStep::CreatingLedger
                | UploadStep::ClosingSession => true,
                UploadStep::WritingRow { .. } => true,
                _ => false,
            },
            UploadEvent::Text(_) => match self.step {
                UploadStep::ReadingStoreFailure { code } => 100 <= code && code <= 999,
                UploadStep::ReadingSessionFailure
                | UploadStep::ReadingLedgerFailure
                | UploadStep::ReadingRowFailure
                | UploadStep::ReadingCloseFailure => true,
                _ => false,
            },
            UploadEvent::Item(_) => match self.step {
                UploadStep::ReadingDriveItem => true,
                _ => false,
            },
            UploadEvent::FileContents(content) => match self.step {
                UploadStep::HashingSource { .. } => (content.len() as u64) < 0x2000_0000_0000_0000u64,
                UploadStep::ReadingSource | UploadStep::ReadingLedgerTemplate => true,
                _ => false,
            },
            UploadEvent::SessionId(_) => match self.step {
                UploadStep::ReadingSessionId => true,
                _ => false,
            },
            UploadEvent::Records(_) => match self.step {
                UploadStep::LoadingLedgerRecords { .. } | UploadStep::LoadingExportRecords { .. } => true,
                _ => false,
            },
        }
    }

    /// Moves the upload on by one event.
    pub fn next(self, event: UploadEvent) -> (res: (UploadFlow, UploadAction))
        requires
            expects(self, event),
        ensures
            upload_transition(self, event, res.0, res.1),
            well_formed(res.0),
    {
        let UploadFlow { file_name, step, source_unchanged, uploaded } = self;
        let ghost before_uploaded = uploaded.deep_view();
        match event {
            UploadEvent::Failed(error) => {
                let res = (
                    UploadFlow { file_name, step: UploadStep::Finished, source_unchanged, uploaded },
                    UploadAction::Finish(Err(error)),
                );
                res
            },
            UploadEvent::Status(code) => match step {
                UploadStep::CheckingSource => {
                    if code == NOT_FOUND {
                        (
                            UploadFlow {
                                file_name,
                                step: UploadStep::ReadingSource,
                                source_unchanged: Some(false),
                                uploaded,
                            },
                            UploadAction::ReadSourceFile,
                        )
                    } else {
                        (
                            UploadFlow {
                                file_name,
                                step: UploadStep::ReadingDriveItem,
                                source_unchanged,
                                uploaded,
                            },
                            UploadAction::ReadDriveItem,
                        )
                    }
                },
                UploadStep::StoringSource => {
                    if upload_accepted(code) {
                        (
                            UploadFlow {
                                file_name,
                                step: UploadStep::OpeningSession { ledger_created: false },
                                source_unchanged,
                                uploaded,
                            },
                            UploadAction::Send(create_session_request()),
                        )
                    } else {
                        (
                            UploadFlow {
                                file_name,
                                step: UploadStep::ReadingStoreFailure { code },
                                source_unchanged,
                                uploaded,
                            },
                            UploadAction::ReadText,
                        )
                    }
                },
                UploadStep::OpeningSession { ledger_created } => {
                    if is_success(code) {
                        (
                            UploadFlow {
                                file_name,
                                step: UploadStep::ReadingSessionId,
                                source_unchanged,
                                uploaded,
                            },
                            UploadAction::ReadSessionId,
                        )
                    } else if code == NOT_FOUND && !ledger_created {
                        (
                            UploadFlow {
                                file_name,
                                step: UploadStep::ReadingLedgerTemplate,
                                source_unchanged,
                                uploaded,
                            },
                            UploadAction::ReadLedgerTemplate,
                        )
                    } else if code == NOT_FOUND {
                        (
                            UploadFlow {
                                file_name,
                                step: UploadStep::Finished,
                                source_unchanged,
                                uploaded,
                            },
                            UploadAction::Finish(Err(OrgError::MicrosoftDrive404)),
                        )
                    } else {
                        (
                            UploadFlow {
                                file_name,
                                step: UploadStep::ReadingSessionFailure,
                                source_unchanged,
                                uploaded,
                            },
                            UploadAction::ReadText,
                        )
                    }
                },
                UploadStep::CreatingLedger => {
                    if is_success(code) {
                        (
                            UploadFlow {
                                file_name,
                                step: UploadStep::OpeningSession { ledger_created: true },
                                source_unchanged,
                                uploaded,
                            },
                            UploadAction::Send(create_session_request()),
                        )
                    } else {
                        (
                            UploadFlow {
                                file_name,
                                step: UploadStep::ReadingLedgerFailure,
                                source_unchanged,
                                uploaded,
                            },
                            UploadAction::ReadText,
                        )
                    }
                },
                UploadStep::WritingRow { session, index } => {
                    if !is_success(code) {
                        (
                            UploadFlow {
                                file_name,
                                step: UploadStep::ReadingRowFailure,
                                source_unchanged,
                                uploaded,
                            },
                            UploadAction::ReadText,
                        )
                    } else if index < uploaded.len() - 1 {
                        let next_index = index + 1;
                        let values = uploaded[next_index].row_values();
                        let request = create_row_request(session.as_str(), values.as_str());
                        (
                            UploadFlow {
                                file_name,
                                step: UploadStep::WritingRow { session, index: next_index },
                                source_unchanged,
                                uploaded,
                            },
                            UploadAction::Send(request),
                        )
                    } else {
                        let request = close_session_request(session.as_str());
                        (
                            UploadFlow {
                                file_name,
                                step: UploadStep::ClosingSession,
                                source_unchanged,
                                uploaded,
                            },
                            UploadAction::Send(request),
                        )
                    }
                },
                _ => {
                    // ClosingSession: the only step left that waits for a status.
                    if is_success(code) {
                        (
                            UploadFlow {
                                file_name,
                                step: UploadStep::Finished,
                                source_unchanged,
                                uploaded,
                            },
                            UploadAction::Finish(Ok(())),
                        )
                    } else {
                        (
                            UploadFlow {
                                file_name,
                                step: UploadStep::ReadingCloseFailure,
                                source_unchanged,
                                uploaded,
                            },
                            UploadAction::ReadText,
                        )
                    }
                },
            },
            UploadEvent::Text(reply) => {
                let error = match step {
                    UploadStep::ReadingStoreFailure { code } => upload_failure(code, reply.as_str()),
                    _ => OrgError::MicrosoftDrive(reply),
                };
                (
                    UploadFlow { file_name, step: UploadStep::Finished, source_unchanged, uploaded },
                    UploadAction::Finish(Err(error)),
                )
            },
            UploadEvent::Item(item) => (
                UploadFlow {
                    file_name,
                    step: UploadStep::HashingSource { drive_hash: item.file.hashes.sha256_hash },
                    source_unchanged,
                    uploaded,
                },
                UploadAction::ReadSourceFile,
            ),
            UploadEvent::FileContents(content) => match step {
                UploadStep::HashingSource { drive_hash } => {
                    let item = DriveItem {
                        file: crate::microsoft::data::DriveItemFile {
                            hashes: crate::microsoft::data::DriveItemHashes {
                                sha256_hash: drive_hash,
                            },
                        },
                    };
                    let unchanged = matches_drive_item(&item, content.as_slice());
                    (
                        UploadFlow {
                            file_name,
                            step: UploadStep::ReadingSource,
                            source_unchanged: Some(unchanged),
                            uploaded,
                        },
                        UploadAction::ReadSourceFile,
                    )
                },
                UploadStep::ReadingSource => {
                    let request = upload_to_source_request(file_name.as_str(), content);
                    (
                        UploadFlow {
                            file_name,
                            step: UploadStep::StoringSource,
                            source_unchanged,
                            uploaded,
                        },
                        UploadAction::Send(request),
                    )
                },
                _ => (
                    UploadFlow {
                        file_name,
                        step: UploadStep::CreatingLedger,
                        source_unchanged,
                        uploaded,
                    },
                    UploadAction::Send(create_ledger_request(content)),
                ),
            },
            UploadEvent::SessionId(id) => {
                let action = UploadAction::LoadLedgerRecords(id.clone());
                (
                    UploadFlow {
                        file_name,
                        step: UploadStep::LoadingLedgerRecords { session: id },
                        source_unchanged,
                        uploaded,
                    },
                    action,
                )
            },
            UploadEvent::Records(records) => match step {
                UploadStep::LoadingLedgerRecords { session } => (
                    UploadFlow {
                        file_name,
                        step: UploadStep::LoadingExportRecords { session, known: records },
                        source_unchanged,
                        uploaded,
                    },
                    UploadAction::LoadExportRecords,
                ),
                UploadStep::LoadingExportRecords { session, known } => {
                    let missing = diff_records(known, records);
                    if missing.len() == 0 {
                        let request = close_session_request(session.as_str());
                        (
                            UploadFlow {
                                file_name,
                                step: UploadStep::ClosingSession,
                                source_unchanged,
                                uploaded: missing,
                            },
                            UploadAction::Send(request),
                        )
                    } else {
                        let values = missing[0].row_values();
                        let request = create_row_request(session.as_str(), values.as_str());
                        (
                            UploadFlow {
                                file_name,
                                step: UploadStep::WritingRow { session, index: 0 },
                                source_unchanged,
                                uploaded: missing,
                            },
                            UploadAction::Send(request),
                        )
                    }
                },
                other => {
                    proof {
                        // Only the two steps above wait for records.
                        assert(false);
                    }
                    (
                        UploadFlow { file_name, step: other, source_unchanged, uploaded },
                        UploadAction::ReadText,
                    )
                },
            },
        }
    }
}

} // verus!
