use diag_capture::diag::{AnalysisOutcome, DataType, Orchestrator};
use diag_capture::display::DisplayState;
use diag_capture::store::{EntryType, RecordingStore, RecordingStoreError};

fn quiet(len_hint: u64) -> AnalysisOutcome {
    let _ = len_hint;
    AnalysisOutcome { findings: 0, warning: false }
}

#[test]
fn init_starts_capture_against_a_fresh_entry() {
    let mut store = RecordingStore::new();
    let o = Orchestrator::init(&mut store, "boot".to_string());
    assert!(o.is_active());
    assert_eq!(o.total_written(), Some(0));
    assert_eq!(o.records_written(), Some(0));
    let (_, entry) = store.get_current_entry().expect("startup entry should be current");
    assert_eq!(entry.name, "boot");
    assert_eq!(entry.size_bytes, 0);
}

#[test]
fn should_process_only_userspace_while_active() {
    let mut store = RecordingStore::new();
    let paused = Orchestrator::new();
    assert!(!paused.should_process(&DataType::UserSpace));
    let active = Orchestrator::init(&mut store, "boot".to_string());
    assert!(active.should_process(&DataType::UserSpace));
    assert!(!active.should_process(&DataType::Other));
}

#[test]
fn three_quiet_frames_then_stop() {
    // One recording of three user-space frames, none warning: one entry,
    // size the sum of the payload lengths, signals [Recording, Paused].
    let mut store = RecordingStore::new();
    let mut o = Orchestrator::new();
    let mut signals: Vec<DisplayState> = Vec::new();
    signals.push(o.handle_start_recording(&mut store, "s".to_string()));
    for len in [3usize, 4, 5] {
        let r = o.record_frame(&mut store, len, &quiet(len as u64));
        assert_eq!(r, Ok(None));
    }
    let (notify, paused) = o.handle_stop_recording(&mut store);
    signals.push(paused);
    assert_eq!(notify, Some("s".to_string()));
    assert_eq!(signals, vec![DisplayState::Recording, DisplayState::Paused]);
    assert_eq!(store.len(), 1);
    assert_eq!(store.entry_at(0).size_bytes, 12);
    assert_eq!(store.entry_at(0).entry_type, EntryType::Closed);
    assert!(!o.is_active());
}

#[test]
fn warning_frame_signals_and_appends_one_record() {
    // One frame on which the analyzers warn: signals
    // [Recording, WarningDetected] and exactly one analysis record.
    let mut store = RecordingStore::new();
    let mut o = Orchestrator::new();
    let mut signals: Vec<DisplayState> = Vec::new();
    signals.push(o.handle_start_recording(&mut store, "s".to_string()));
    let outcome = AnalysisOutcome { findings: 1, warning: true };
    let r = o.record_frame(&mut store, 8, &outcome);
    assert_eq!(r, Ok(Some(DisplayState::WarningDetected)));
    if let Ok(Some(signal)) = r {
        signals.push(signal);
    }
    assert_eq!(
        signals,
        vec![DisplayState::Recording, DisplayState::WarningDetected]
    );
    assert_eq!(o.records_written(), Some(1));
    assert_eq!(o.total_written(), Some(8));
}

#[test]
fn start_while_active_closes_the_superseded_entry() {
    let mut store = RecordingStore::new();
    let mut o = Orchestrator::new();
    o.handle_start_recording(&mut store, "a".to_string());
    o.record_frame(&mut store, 5, &quiet(5)).unwrap();
    let signal = o.handle_start_recording(&mut store, "b".to_string());
    assert_eq!(signal, DisplayState::Recording);
    assert_eq!(store.entry_at(0).entry_type, EntryType::Closed);
    assert_eq!(store.entry_at(0).size_bytes, 5);
    let (i, entry) = store.get_current_entry().expect("b should be current");
    assert_eq!(i, 1);
    assert_eq!(entry.name, "b");
    assert_eq!(entry.size_bytes, 0);
    assert_eq!(o.total_written(), Some(0));
}

#[test]
fn stop_with_nothing_active_is_safe() {
    let mut store = RecordingStore::new();
    let mut o = Orchestrator::new();
    let (notify, signal) = o.handle_stop_recording(&mut store);
    assert_eq!(notify, None);
    assert_eq!(signal, DisplayState::Paused);
    assert_eq!(store.len(), 0);
    assert!(!o.is_active());
}

#[test]
fn frame_after_current_entry_vanished_is_fatal() {
    let mut store = RecordingStore::new();
    let mut o = Orchestrator::new();
    o.handle_start_recording(&mut store, "a".to_string());
    store.delete_entry(&"a".to_string()).unwrap();
    let r = o.record_frame(&mut store, 4, &quiet(4));
    assert_eq!(r, Err(RecordingStoreError::NotCurrentError));
    assert_eq!(store.len(), 0);
}

#[test]
fn deleting_another_entry_does_not_disturb_capture() {
    let mut store = RecordingStore::new();
    let mut o = Orchestrator::new();
    o.handle_start_recording(&mut store, "a".to_string());
    o.record_frame(&mut store, 2, &quiet(2)).unwrap();
    o.handle_start_recording(&mut store, "b".to_string());
    o.record_frame(&mut store, 6, &quiet(6)).unwrap();
    store.delete_entry(&"a".to_string()).unwrap();
    // Capture goes on against the same entry; accounting still works.
    assert!(o.is_active());
    assert_eq!(o.record_frame(&mut store, 4, &quiet(4)), Ok(None));
    let (_, entry) = store.get_current_entry().expect("b should still be current");
    assert_eq!(entry.name, "b");
    assert_eq!(entry.size_bytes, 10);
}

#[test]
fn entries_track_start_messages_across_interleaved_frames() {
    // Three starts in a run of starts, stops and quiet frames: exactly
    // three entries, and the control-driven signals in message order.
    let mut store = RecordingStore::new();
    let mut o = Orchestrator::new();
    let mut signals: Vec<DisplayState> = Vec::new();
    signals.push(o.handle_start_recording(&mut store, "a".to_string()));
    o.record_frame(&mut store, 1, &quiet(1)).unwrap();
    o.record_frame(&mut store, 2, &quiet(2)).unwrap();
    let (_, paused) = o.handle_stop_recording(&mut store);
    signals.push(paused);
    signals.push(o.handle_start_recording(&mut store, "b".to_string()));
    o.record_frame(&mut store, 3, &quiet(3)).unwrap();
    // A start while already active: stop-then-start in one message.
    signals.push(o.handle_start_recording(&mut store, "c".to_string()));
    let (_, paused) = o.handle_stop_recording(&mut store);
    signals.push(paused);
    assert_eq!(store.len(), 3);
    assert_eq!(
        signals,
        vec![
            DisplayState::Recording,
            DisplayState::Paused,
            DisplayState::Recording,
            DisplayState::Recording,
            DisplayState::Paused,
        ]
    );
    assert_eq!(store.entry_at(0).size_bytes, 3);
    assert_eq!(store.entry_at(1).size_bytes, 3);
    assert_eq!(store.entry_at(2).size_bytes, 0);
    for i in 0..store.len() {
        assert_eq!(store.entry_at(i).entry_type, EntryType::Closed);
    }
}

#[test]
fn exit_reports_pending_records_only_while_active() {
    let mut store = RecordingStore::new();
    let mut o = Orchestrator::new();
    o.handle_start_recording(&mut store, "a".to_string());
    let outcome = AnalysisOutcome { findings: 2, warning: false };
    o.record_frame(&mut store, 1, &outcome).unwrap();
    assert_eq!(o.handle_exit(), Some(2));

    let paused = Orchestrator::new();
    assert_eq!(paused.handle_exit(), None);
}
