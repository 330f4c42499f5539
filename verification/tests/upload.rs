use org::error::OrgError;
use org::hash::{digest_to_upper_hex, sha256_digest};
use org::microsoft::data::{DriveItem, DriveItemFile, DriveItemHashes};
use org::microsoft::graph_client::{
    close_session_request, create_ledger_request, create_row_request, create_session_request,
    file_exists_request,
    upload_to_source_request,
};
use org::microsoft::{DateTime, Record};
use org::upload::{upload_file_name, UploadAction, UploadEvent, UploadFlow, UploadStep};

fn record(minute: u32) -> Record {
    Record {
        date_time: DateTime { year: 2021, month: 3, day: 10, hour: 14, minute, second: 0 },
        transaction_code: "Trade".to_string(),
        transaction_subcode: "Sell to Close".to_string(),
        symbol: None,
        buy_sell: None,
        open_close: None,
        quantity: 1,
        price: None,
        fees: "0".to_string(),
        amount: "10.00".to_string(),
        description: "Sold".to_string(),
        account_reference: "ACCT".to_string(),
    }
}

fn step(flow: UploadFlow, event: UploadEvent) -> (UploadFlow, UploadAction) {
    assert!(flow.accepts(&event));
    flow.next(event)
}

fn sent(action: UploadAction) -> org::microsoft::graph_client::GraphRequest {
    match action {
        UploadAction::Send(request) => request,
        other => panic!("expected a request, got {:?}", other),
    }
}

#[test]
fn upload_file_name_joins_name_and_extension() {
    assert_eq!(upload_file_name("export", "csv"), "export.csv");
}

#[test]
fn start_reports_what_the_form_lacks() {
    let (flow, action) = UploadFlow::start(false, Some("export"), Some("csv"));
    assert!(matches!(flow.step, UploadStep::Finished));
    assert!(matches!(action, UploadAction::Finish(Err(OrgError::BadTempPath))));
    let (_, action) = UploadFlow::start(true, None, Some("csv"));
    assert!(matches!(action, UploadAction::Finish(Err(OrgError::MissingName))));
    let (_, action) = UploadFlow::start(true, Some("export"), None);
    assert!(matches!(action, UploadAction::Finish(Err(OrgError::BadTempPath))));
}

#[test]
fn upload_of_a_new_export_hands_over_the_missing_records() {
    let (flow, action) = UploadFlow::start(true, Some("export"), Some("csv"));
    assert_eq!(flow.file_name, "export.csv");
    assert_eq!(sent(action), file_exists_request("export.csv"));
    let (flow, action) = step(flow, UploadEvent::Status(404));
    assert!(matches!(action, UploadAction::ReadSourceFile));
    assert_eq!(flow.source_unchanged, Some(false));
    let (flow, action) = step(flow, UploadEvent::FileContents(b"x".to_vec()));
    assert_eq!(sent(action), upload_to_source_request("export.csv", b"x".to_vec()));
    let (flow, action) = step(flow, UploadEvent::Status(201));
    assert_eq!(sent(action), create_session_request());
    let (flow, action) = step(flow, UploadEvent::Status(201));
    assert!(matches!(action, UploadAction::ReadSessionId));
    let (flow, action) = step(flow, UploadEvent::SessionId("s-1".to_string()));
    assert!(matches!(action, UploadAction::LoadLedgerRecords(ref s) if s == "s-1"));
    let (flow, action) = step(flow, UploadEvent::Records(vec![record(1)]));
    assert!(matches!(action, UploadAction::LoadExportRecords));
    let (flow, action) = step(flow, UploadEvent::Records(vec![record(2), record(1), record(3)]));
    assert_eq!(flow.uploaded, vec![record(2), record(3)]);
    assert_eq!(sent(action), create_row_request("s-1", &record(2).row_values()));
    let (flow, action) = step(flow, UploadEvent::Status(201));
    assert_eq!(sent(action), create_row_request("s-1", &record(3).row_values()));
    let (flow, action) = step(flow, UploadEvent::Status(201));
    assert_eq!(sent(action), close_session_request("s-1"));
    let (flow, action) = step(flow, UploadEvent::Status(204));
    assert!(matches!(action, UploadAction::Finish(Ok(()))));
    assert!(matches!(flow.step, UploadStep::Finished));
    assert!(!flow.accepts(&UploadEvent::Status(200)));
    assert!(!flow.accepts(&UploadEvent::Failed(OrgError::MissingName)));
}

#[test]
fn upload_compares_a_stored_export_with_the_local_one() {
    let hash = digest_to_upper_hex(sha256_digest(b"x"));
    let item = DriveItem { file: DriveItemFile { hashes: DriveItemHashes { sha256_hash: hash } } };
    let (flow, _) = UploadFlow::start(true, Some("export"), Some("csv"));
    let (flow, action) = step(flow, UploadEvent::Status(200));
    assert!(matches!(action, UploadAction::ReadDriveItem));
    let (flow, action) = step(flow, UploadEvent::Item(item));
    assert!(matches!(action, UploadAction::ReadSourceFile));
    let (flow, action) = step(flow, UploadEvent::FileContents(b"x".to_vec()));
    assert!(matches!(action, UploadAction::ReadSourceFile));
    assert_eq!(flow.source_unchanged, Some(true));
    let (flow, action) = step(flow, UploadEvent::FileContents(b"x".to_vec()));
    assert_eq!(sent(action), upload_to_source_request("export.csv", b"x".to_vec()));
    assert!(matches!(flow.step, UploadStep::StoringSource));
}

#[test]
fn upload_creates_a_missing_ledger_once() {
    let (flow, _) = UploadFlow::start(true, Some("export"), Some("csv"));
    let (flow, _) = step(flow, UploadEvent::Status(404));
    let (flow, _) = step(flow, UploadEvent::FileContents(b"x".to_vec()));
    let (flow, _) = step(flow, UploadEvent::Status(200));
    let (flow, action) = step(flow, UploadEvent::Status(404));
    assert!(matches!(action, UploadAction::ReadLedgerTemplate));
    let (flow, action) = step(flow, UploadEvent::FileContents(vec![7, 7]));
    assert_eq!(sent(action), create_ledger_request(vec![7, 7]));
    let (flow, action) = step(flow, UploadEvent::Status(201));
    assert_eq!(sent(action), create_session_request());
    let (flow, action) = step(flow, UploadEvent::Status(404));
    assert!(matches!(action, UploadAction::Finish(Err(OrgError::MicrosoftDrive404))));
    assert!(matches!(flow.step, UploadStep::Finished));
}

#[test]
fn upload_reports_a_refused_export_with_its_status() {
    let (flow, _) = UploadFlow::start(true, Some("export"), Some("csv"));
    let (flow, _) = step(flow, UploadEvent::Status(404));
    let (flow, _) = step(flow, UploadEvent::FileContents(b"x".to_vec()));
    let (flow, action) = step(flow, UploadEvent::Status(500));
    assert!(matches!(action, UploadAction::ReadText));
    let (_, action) = step(flow, UploadEvent::Text("boom".to_string()));
    match action {
        UploadAction::Finish(Err(error)) => assert_eq!(
            error,
            OrgError::MicrosoftDrive(
                "Failed uploading to drive code:500 Internal Server Error text:boom".to_string()
            )
        ),
        other => panic!("unexpected {:?}", other),
    }
}

#[test]
fn upload_reports_a_refused_session_with_the_reply() {
    let (flow, _) = UploadFlow::start(true, Some("export"), Some("csv"));
    let (flow, _) = step(flow, UploadEvent::Status(404));
    let (flow, _) = step(flow, UploadEvent::FileContents(b"x".to_vec()));
    let (flow, _) = step(flow, UploadEvent::Status(200));
    let (flow, action) = step(flow, UploadEvent::Status(401));
    assert!(matches!(action, UploadAction::ReadText));
    let (_, action) = step(flow, UploadEvent::Text("denied".to_string()));
    assert!(matches!(action, UploadAction::Finish(Err(OrgError::MicrosoftDrive(ref t))) if t == "denied"));
}

#[test]
fn upload_stops_at_a_failure() {
    let (flow, _) = UploadFlow::start(true, Some("export"), Some("csv"));
    let (flow, action) = step(flow, UploadEvent::Failed(OrgError::Io("gone".to_string())));
    assert!(matches!(action, UploadAction::Finish(Err(OrgError::Io(ref t))) if t == "gone"));
    assert!(matches!(flow.step, UploadStep::Finished));
}

#[test]
fn upload_refuses_an_event_it_does_not_wait_for() {
    let (flow, _) = UploadFlow::start(true, Some("export"), Some("csv"));
    assert!(!flow.accepts(&UploadEvent::Text("x".to_string())));
    assert!(!flow.accepts(&UploadEvent::Status(42)));
    assert!(flow.accepts(&UploadEvent::Status(200)));
}

fn flow_at_export_records(known: Vec<Record>) -> UploadFlow {
    let (flow, _) = UploadFlow::start(true, Some("export"), Some("csv"));
    let (flow, _) = step(flow, UploadEvent::Status(404));
    let (flow, _) = step(flow, UploadEvent::FileContents(b"x".to_vec()));
    let (flow, _) = step(flow, UploadEvent::Status(200));
    let (flow, _) = step(flow, UploadEvent::Status(200));
    let (flow, _) = step(flow, UploadEvent::SessionId("s-2".to_string()));
    let (flow, _) = step(flow, UploadEvent::Records(known));
    flow
}

#[test]
fn upload_with_nothing_missing_closes_the_session_at_once() {
    let flow = flow_at_export_records(vec![record(1), record(2)]);
    let (flow, action) = step(flow, UploadEvent::Records(vec![record(2), record(1)]));
    assert!(flow.uploaded.is_empty());
    assert_eq!(sent(action), close_session_request("s-2"));
}

#[test]
fn upload_reports_a_refused_row_with_the_reply() {
    let flow = flow_at_export_records(Vec::new());
    let (flow, action) = step(flow, UploadEvent::Records(vec![record(5), record(6)]));
    assert_eq!(sent(action), create_row_request("s-2", &record(5).row_values()));
    let (flow, action) = step(flow, UploadEvent::Status(400));
    assert!(matches!(action, UploadAction::ReadText));
    assert!(matches!(flow.step, UploadStep::ReadingRowFailure));
    let (flow, action) = step(flow, UploadEvent::Text("bad row".to_string()));
    assert!(matches!(action, UploadAction::Finish(Err(OrgError::MicrosoftDrive(ref t))) if t == "bad row"));
    assert!(matches!(flow.step, UploadStep::Finished));
}

#[test]
fn upload_refuses_a_row_index_outside_the_records() {
    let flow = UploadFlow {
        file_name: "export.csv".to_string(),
        step: UploadStep::WritingRow { session: "s".to_string(), index: 1 },
        source_unchanged: None,
        uploaded: vec![record(1)],
    };
    assert!(!flow.accepts(&UploadEvent::Status(200)));
    assert!(!flow.accepts(&UploadEvent::Failed(OrgError::MissingName)));
}
