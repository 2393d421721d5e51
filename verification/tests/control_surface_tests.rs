use diag_capture::diag::{
    accepted_response, check_writable, delete_all_recordings, delete_recording,
    get_analysis_report, start_recording, stop_recording, AnalysisOutcome, DiagDeviceCtrlMessage,
    Orchestrator,
};
use diag_capture::display::DisplayState;
use diag_capture::store::RecordingStore;

#[test]
fn debug_mode_rejects_every_mutating_request() {
    assert!(check_writable(false).is_ok());
    let err = check_writable(true).unwrap_err();
    assert_eq!(err.status, 403);
    assert_eq!(err.body, "server is in debug mode");
    assert_eq!(start_recording(true).unwrap_err().status, 403);
    assert_eq!(stop_recording(true).unwrap_err().status, 403);
    let mut store = RecordingStore::new();
    store.new_entry("a".to_string());
    assert_eq!(
        delete_recording(&mut store, true, &"a".to_string())
            .unwrap_err()
            .status,
        403
    );
    assert_eq!(store.len(), 1);
    assert_eq!(delete_all_recordings(&mut store, true).unwrap_err().status, 403);
    assert_eq!(store.len(), 1);
}

#[test]
fn start_and_stop_requests_forward_their_messages() {
    assert_eq!(
        start_recording(false),
        Ok(DiagDeviceCtrlMessage::StartRecording)
    );
    assert_eq!(
        stop_recording(false),
        Ok(DiagDeviceCtrlMessage::StopRecording)
    );
    let accepted = accepted_response();
    assert_eq!(accepted.status, 202);
    assert_eq!(accepted.body, "ok");
}

#[test]
fn live_report_with_no_recording_is_503() {
    let store = RecordingStore::new();
    let err = get_analysis_report(&store, &"live".to_string()).unwrap_err();
    assert_eq!(err.status, 503);
}

#[test]
fn live_report_resolves_the_current_entry() {
    let mut store = RecordingStore::new();
    store.new_entry("a".to_string());
    store.close_current_entry();
    store.new_entry("b".to_string());
    assert_eq!(get_analysis_report(&store, &"live".to_string()), Ok(1));
}

#[test]
fn named_report_resolves_or_404s() {
    let mut store = RecordingStore::new();
    store.new_entry("a".to_string());
    assert_eq!(get_analysis_report(&store, &"a".to_string()), Ok(0));
    let err = get_analysis_report(&store, &"missing".to_string()).unwrap_err();
    assert_eq!(err.status, 404);
}

#[test]
fn an_entry_named_live_is_shadowed_by_the_live_keyword() {
    // "live" always addresses the current entry, never an entry of that name.
    let mut store = RecordingStore::new();
    store.new_entry("live".to_string());
    store.close_current_entry();
    let err = get_analysis_report(&store, &"live".to_string()).unwrap_err();
    assert_eq!(err.status, 503);
}

#[test]
fn delete_unknown_recording_is_400_and_changes_nothing() {
    let mut store = RecordingStore::new();
    store.new_entry("a".to_string());
    let err = delete_recording(&mut store, false, &"ghost".to_string()).unwrap_err();
    assert_eq!(err.status, 400);
    assert_eq!(store.len(), 1);
    assert_eq!(store.entry_at(0).name, "a");
}

#[test]
fn delete_current_recording_stops_capture_with_one_paused_signal() {
    let mut store = RecordingStore::new();
    let mut o = Orchestrator::new();
    o.handle_start_recording(&mut store, "a".to_string());
    let (resp, was_current) = delete_recording(&mut store, false, &"a".to_string()).unwrap();
    assert_eq!(resp.status, 202);
    assert!(was_current);
    // The control surface reacts by forwarding one stop message; its
    // processing emits the single Paused signal.
    let (notify, signal) = o.handle_stop_recording(&mut store);
    assert_eq!(signal, DisplayState::Paused);
    assert_eq!(notify, None);
    assert!(!o.is_active());
}

#[test]
fn delete_other_recording_leaves_capture_running() {
    let mut store = RecordingStore::new();
    let mut o = Orchestrator::new();
    o.handle_start_recording(&mut store, "a".to_string());
    o.handle_start_recording(&mut store, "b".to_string());
    let (resp, was_current) = delete_recording(&mut store, false, &"a".to_string()).unwrap();
    assert_eq!(resp.status, 202);
    assert!(!was_current);
    assert!(o.is_active());
    let quiet = AnalysisOutcome { findings: 0, warning: false };
    assert_eq!(o.record_frame(&mut store, 9, &quiet), Ok(None));
}

#[test]
fn delete_all_recordings_after_stop_empties_the_store() {
    let mut store = RecordingStore::new();
    let mut o = Orchestrator::new();
    o.handle_start_recording(&mut store, "a".to_string());
    // The caller stops capture first, then clears the store.
    o.handle_stop_recording(&mut store);
    let resp = delete_all_recordings(&mut store, false).unwrap();
    assert_eq!(resp.status, 202);
    assert_eq!(store.len(), 0);
    assert!(store.get_current_entry().is_none());
}
