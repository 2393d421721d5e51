//! The capture orchestrator and the control-surface decision logic.
//!
//! The orchestrator is the long-lived control loop that multiplexes the
//! modem frame stream against operator control messages. Here it is a
//! state machine over plain values: the caller waits on its channels,
//! performs file writes and runs the analyzers, and hands the outcomes
//! to the step functions below, which make every decision — what the
//! store records, which writers are live, which indicator signal goes
//! out — under contract. The control-surface functions at the bottom
//! carry the same split: they decide the response status and the
//! follow-up actions; the caller does the sending.

use vstd::prelude::*;

verus! {

use crate::display::DisplayState;
use crate::store::close_current_model;
use crate::store::current_has_name;
use crate::store::delete_entry_model;
use crate::store::lemma_close_preserves_names;
use crate::store::start_model;
use crate::store::store_has_name;
use crate::store::update_size_model;
use crate::store::EntryType;
use crate::store::RecordingStore;
use crate::store::RecordingStoreError;
use crate::store::StoreModel;

/// Control messages the orchestrator multiplexes against the modem
/// frame stream. A closed control channel is treated like `Exit`.
#[derive(Clone, Copy, PartialEq, Eq, Structural, Debug)]
pub enum DiagDeviceCtrlMessage {
    StopRecording,
    StartRecording,
    Exit,
}

/// Origin tag of a captured frame. Only `UserSpace` frames are
/// meaningful downstream; everything else is discarded.
#[derive(Clone, Copy, PartialEq, Eq, Structural, Debug)]
pub enum DataType {
    UserSpace,
    Other,
}

/// What the analyzers made of one frame: how many structured records
/// they produced (one per finding, appended to the analysis file by the
/// caller) and whether any finding was warning-level. A warning implies
/// at least one finding.
#[derive(Clone, Copy, PartialEq, Eq, Structural, Debug)]
pub struct AnalysisOutcome {
    pub findings: u64,
    pub warning: bool,
}

impl AnalysisOutcome {
    /// A warning can only come from a finding.
    pub open spec fn wf(&self) -> bool {
        self.warning ==> self.findings >= 1
    }
}

/// Bookkeeping for the open capture file: how many bytes have been
/// appended to it so far. The counter only grows while the writer
/// lives.
pub struct CaptureWriter {
    pub total_written: u64,
}

/// Bookkeeping for the open analysis file: how many structured records
/// have been appended. Closing is the owner's move, so a writer cannot
/// be reused after it was closed.
pub struct AnalysisWriter {
    pub records_written: u64,
}

/// The two writers live and die together: capture is either fully
/// active, with a capture writer and an analysis writer on the same
/// entry, or fully paused. No state with only one of them exists.
pub enum WriterState {
    Active(CaptureWriter, AnalysisWriter),
    Paused,
}

/// Ghost image of an active capture session: bytes appended to the
/// capture file and records appended to the analysis file.
pub struct SessionModel {
    pub written: int,
    pub records: int,
}

/// The orchestrator's runtime state: the writer pair when capture is
/// active, or nothing when it is paused.
pub struct Orchestrator {
    writers: WriterState,
}

impl View for Orchestrator {
    type V = Option<SessionModel>;

    closed spec fn view(&self) -> Option<SessionModel> {
        match self.writers {
            WriterState::Active(cw, aw) => Some(
                SessionModel {
                    written: cw.total_written as int,
                    records: aw.records_written as int,
                },
            ),
            WriterState::Paused => None,
        }
    }
}

impl Orchestrator {
    /// An orchestrator with capture paused: no writers.
    pub fn new() -> (o: Orchestrator)
        ensures
            o@ is None,
    {
        Orchestrator { writers: WriterState::Paused }
    }

    /// Startup: capture begins immediately against a fresh entry, with
    /// no indicator signal emitted. The caller has already created the
    /// entry's two backing files under `name`.
    pub fn init(store: &mut RecordingStore, name: String) -> (o: Orchestrator)
        requires
            old(store).wf(),
            !store_has_name(old(store)@, name@),
        ensures
            final(store).wf(),
            final(store)@ == start_model(old(store)@, name@),
            o@ == Some(SessionModel { written: 0, records: 0 }),
    {
        let mut o = Orchestrator::new();
        let _ = o.handle_start_recording(store, name);
        o
    }

    /// Whether capture is currently active.
    pub fn is_active(&self) -> (b: bool)
        ensures
            b == (self@ is Some),
    {
        match self.writers {
            WriterState::Active(..) => true,
            WriterState::Paused => false,
        }
    }

    /// Whether a frame with this origin tag should be captured and
    /// analyzed: only while capture is active, and only for `UserSpace`
    /// frames. The caller consults this before touching the files or
    /// running the analyzers.
    pub fn should_process(&self, data_type: &DataType) -> (b: bool)
        ensures
            b == (self@ is Some && *data_type == DataType::UserSpace),
    {
        self.is_active() && *data_type == DataType::UserSpace
    }

    /// Bytes appended to the capture file so far, while capture is
    /// active.
    pub fn total_written(&self) -> (r: Option<u64>)
        ensures
            match self@ {
                Some(s) => r matches Some(n) && n == s.written,
                None => r is None,
            },
    {
        match &self.writers {
            WriterState::Active(cw, _) => Some(cw.total_written),
            WriterState::Paused => None,
        }
    }

    /// Structured records appended to the analysis file so far, while
    /// capture is active.
    pub fn records_written(&self) -> (r: Option<u64>)
        ensures
            match self@ {
                Some(s) => r matches Some(n) && n == s.records,
                None => r is None,
            },
    {
        match &self.writers {
            WriterState::Active(_, aw) => Some(aw.records_written),
            WriterState::Paused => None,
        }
    }

    /// Processes a start message: any current entry is closed (a start
    /// while already active is an implicit stop-then-start, so no entry
    /// is left dangling), a fresh entry named `name` becomes current,
    /// and both writers are replaced by fresh ones against it. The
    /// caller has created the new backing files beforehand and flushes
    /// and closes the superseded analysis file. Emits `Recording`.
    pub fn handle_start_recording(&mut self, store: &mut RecordingStore, name: String) -> (signal:
        DisplayState)
        requires
            old(store).wf(),
            !store_has_name(old(store)@, name@),
        ensures
            final(store).wf(),
            final(store)@ == start_model(old(store)@, name@),
            final(self)@ == Some(SessionModel { written: 0, records: 0 }),
            signal == DisplayState::Recording,
    {
        proof {
            lemma_close_preserves_names(old(store)@, name@);
        }
        store.close_current_entry();
        let _idx: usize = store.new_entry(name);
        self.writers = WriterState::Active(
            CaptureWriter { total_written: 0 },
            AnalysisWriter { records_written: 0 },
        );
        DisplayState::Recording
    }

    /// Processes a stop message: reports the name of the entry whose
    /// capture just finished (the caller notifies the analyzer
    /// finalization collaborator, best-effort), closes the current
    /// entry, and drops both writers — the caller flushes and closes the
    /// analysis file. Safe to process with nothing active. Emits
    /// `Paused`.
    pub fn handle_stop_recording(&mut self, store: &mut RecordingStore) -> (r: (
        Option<String>,
        DisplayState,
    ))
        requires
            old(store).wf(),
        ensures
            final(store).wf(),
            final(store)@ == close_current_model(old(store)@),
            final(self)@ is None,
            r.1 == DisplayState::Paused,
            match old(store)@.current {
                Some(c) => r.0 matches Some(n) && n@ == old(store)@.entries[c].name,
                None => r.0 is None,
            },
    {
        let notify: Option<String> = match store.get_current_entry() {
            Some((_, e)) => Some(e.name.clone()),
            None => None,
        };
        store.close_current_entry();
        self.writers = WriterState::Paused;
        (notify, DisplayState::Paused)
    }

    /// Processes one captured `UserSpace` frame while capture is
    /// active. The caller has appended `payload_len` bytes to the
    /// capture file and run the analyzers, whose verdict is `outcome`;
    /// this function accounts the new cumulative size to the store,
    /// accounts the analysis records, and decides the indicator signal:
    /// `WarningDetected` exactly when the frame triggered a warning.
    ///
    /// Size accounting addresses whatever entry is current at frame
    /// time, so deleting some other entry in between never disturbs an
    /// active capture. When a racing deletion has taken the current
    /// entry itself away, the accounting fails with `NotCurrentError`,
    /// the store is untouched, and the caller must treat the loop as
    /// fatally broken rather than drop sizes silently.
    pub fn record_frame(
        &mut self,
        store: &mut RecordingStore,
        payload_len: usize,
        outcome: &AnalysisOutcome,
    ) -> (r: Result<Option<DisplayState>, RecordingStoreError>)
        requires
            old(store).wf(),
            old(self)@ is Some,
            outcome.wf(),
            old(self)@->Some_0.written + payload_len <= u64::MAX,
            old(self)@->Some_0.records + outcome.findings <= u64::MAX,
        ensures
            final(store).wf(),
            r is Ok <==> old(store)@.current is Some,
            r is Ok ==> final(store)@ == update_size_model(
                old(store)@,
                old(self)@->Some_0.written + payload_len,
            ),
            r is Ok ==> final(self)@ == Some(
                SessionModel {
                    written: old(self)@->Some_0.written + payload_len,
                    records: old(self)@->Some_0.records + outcome.findings,
                },
            ),
            r is Ok ==> r->Ok_0 == (if outcome.warning {
                Some(DisplayState::WarningDetected)
            } else {
                None::<DisplayState>
            }),
            r is Err ==> final(store)@ == old(store)@ && r->Err_0
                == RecordingStoreError::NotCurrentError,
            r is Err ==> final(self)@ == Some(
                SessionModel {
                    written: old(self)@->Some_0.written + payload_len,
                    records: old(self)@->Some_0.records,
                },
            ),
    {
        let (total_written, records_written): (u64, u64) = match &self.writers {
            WriterState::Active(cw, aw) => (cw.total_written, aw.records_written),
            WriterState::Paused => {
                proof {
                    assert(false);
                }
                (0, 0)
            },
        };
        let new_total: u64 = total_written + payload_len as u64;
        let current: Option<usize> = match store.get_current_entry() {
            Some((i, _)) => Some(i),
            None => None,
        };
        match current {
            Some(index) => {
                match store.update_entry_size(index, new_total) {
                    Ok(_) => {
                        self.writers = WriterState::Active(
                            CaptureWriter { total_written: new_total },
                            AnalysisWriter {
                                records_written: records_written + outcome.findings,
                            },
                        );
                        if outcome.warning {
                            Ok(Some(DisplayState::WarningDetected))
                        } else {
                            Ok(None)
                        }
                    },
                    Err(e) => {
                        proof {
                            assert(false);
                        }
                        Err(e)
                    },
                }
            },
            None => {
                self.writers = WriterState::Active(
                    CaptureWriter { total_written: new_total },
                    AnalysisWriter { records_written },
                );
                Err(RecordingStoreError::NotCurrentError)
            },
        }
    }

    /// Processes an exit message or a closed control channel: the loop's
    /// only normal termination. Reports how many analysis records the
    /// caller must still flush while closing the analysis file, if
    /// capture was active; the capture file is left to implicit close.
    pub fn handle_exit(self) -> (r: Option<u64>)
        ensures
            match self@ {
                Some(s) => r matches Some(n) && n == s.records,
                None => r is None,
            },
    {
        match self.writers {
            WriterState::Active(_, aw) => Some(aw.records_written),
            WriterState::Paused => None,
        }
    }
}

/// An operator-facing response: a status code in HTTP convention and a
/// short message body.
#[derive(Debug, PartialEq, Eq)]
pub struct ControlResponse {
    pub status: u16,
    pub body: String,
}

/// Guard shared by every mutating control handler: in read-only debug
/// configuration the request is rejected outright.
pub fn check_writable(debug_mode: bool) -> (r: Result<(), ControlResponse>)
    ensures
        r is Ok <==> !debug_mode,
        r is Err ==> r->Err_0.status == 403 && r->Err_0.body@ == "server is in debug mode"@,
{
    if debug_mode {
        Err(ControlResponse { status: 403, body: "server is in debug mode".to_owned() })
    } else {
        Ok(())
    }
}

/// The response sent once a control message was forwarded successfully.
pub fn accepted_response() -> (r: ControlResponse)
    ensures
        r.status == 202,
        r.body@ == "ok"@,
{
    ControlResponse { status: 202, body: "ok".to_owned() }
}

/// Operator request to start capture: rejected in debug configuration,
/// otherwise the caller forwards the returned message to the
/// orchestrator and answers 202, or 500 if the forwarding itself fails.
pub fn start_recording(debug_mode: bool) -> (r: Result<DiagDeviceCtrlMessage, ControlResponse>)
    ensures
        r is Ok <==> !debug_mode,
        r is Ok ==> r->Ok_0 == DiagDeviceCtrlMessage::StartRecording,
        r is Err ==> r->Err_0.status == 403 && r->Err_0.body@ == "server is in debug mode"@,
{
    match check_writable(debug_mode) {
        Ok(_) => Ok(DiagDeviceCtrlMessage::StartRecording),
        Err(resp) => Err(resp),
    }
}

/// Operator request to stop capture: rejected in debug configuration,
/// otherwise the caller forwards the returned message to the
/// orchestrator and answers 202, or 500 if the forwarding itself fails.
pub fn stop_recording(debug_mode: bool) -> (r: Result<DiagDeviceCtrlMessage, ControlResponse>)
    ensures
        r is Ok <==> !debug_mode,
        r is Ok ==> r->Ok_0 == DiagDeviceCtrlMessage::StopRecording,
        r is Err ==> r->Err_0.status == 403 && r->Err_0.body@ == "server is in debug mode"@,
{
    match check_writable(debug_mode) {
        Ok(_) => Ok(DiagDeviceCtrlMessage::StopRecording),
        Err(resp) => Err(resp),
    }
}

/// Operator request to delete the recording named `name`. Rejected with
/// 403 in debug configuration and with 400 when no entry carries the
/// name; both rejections leave the manifest untouched. On success the
/// entry leaves the manifest, the caller removes its two backing files,
/// and the returned flag says whether the deleted entry was the current
/// one — the caller must then forward a stop message so the orchestrator
/// stops capture and emits the one `Paused` signal.
pub fn delete_recording(store: &mut RecordingStore, debug_mode: bool, name: &String) -> (r: Result<
    (ControlResponse, bool),
    ControlResponse,
>)
    requires
        old(store).wf(),
    ensures
        final(store).wf(),
        debug_mode ==> r is Err && r->Err_0.status == 403 && final(store)@ == old(store)@,
        !debug_mode && !store_has_name(old(store)@, name@) ==> r is Err && r->Err_0.status == 400
            && r->Err_0.body@ == "no recording with name "@ + name@ && final(store)@ == old(
            store,
        )@,
        !debug_mode && store_has_name(old(store)@, name@) ==> r is Ok && r->Ok_0.0.status == 202
            && r->Ok_0.1 == current_has_name(old(store)@, name@) && exists|i: int|
            {
                &&& 0 <= i < old(store)@.entries.len()
                &&& #[trigger] old(store)@.entries[i].name == name@
                &&& final(store)@ == delete_entry_model(old(store)@, i)
            },
{
    match check_writable(debug_mode) {
        Err(resp) => Err(resp),
        Ok(_) => match store.delete_entry(name) {
            Err(_) => Err(
                ControlResponse {
                    status: 400,
                    body: "no recording with name ".to_owned().concat(name.as_str()),
                },
            ),
            Ok(entry_type) => Ok((accepted_response(), entry_type == EntryType::Current)),
        },
    }
}

/// Operator request to delete every recording. Rejected with 403 in
/// debug configuration. The caller must stop capture first — forward a
/// stop message and only then call here — since the store itself never
/// stops an active writer; afterwards the caller removes the backing
/// files.
pub fn delete_all_recordings(store: &mut RecordingStore, debug_mode: bool) -> (r: Result<
    ControlResponse,
    ControlResponse,
>)
    requires
        old(store).wf(),
    ensures
        final(store).wf(),
        debug_mode ==> r is Err && r->Err_0.status == 403 && final(store)@ == old(store)@,
        !debug_mode ==> r is Ok && r->Ok_0.status == 202 && final(store)@.entries.len() == 0
            && final(store)@.current is None,
{
    match check_writable(debug_mode) {
        Err(resp) => Err(resp),
        Ok(_) => {
            store.delete_all_entries();
            Ok(accepted_response())
        },
    }
}

/// Operator request for an analysis report: resolves which entry's
/// analysis file the caller should stream. `"live"` addresses the
/// current entry and is answered 503 when nothing is being recorded;
/// any other name is looked up in the manifest and answered 404 when
/// absent.
pub fn get_analysis_report(store: &RecordingStore, name: &String) -> (r: Result<
    usize,
    ControlResponse,
>)
    requires
        store.wf(),
    ensures
        name@ == "live"@ ==> match store@.current {
            Some(c) => r matches Ok(i) && i == c,
            None => r matches Err(e) && e.status == 503 && e.body@
                == "No QMDL data's being recorded to analyze, try starting a new recording!"@,
        },
        name@ != "live"@ ==> match r {
            Ok(i) => i < store@.entries.len() && store@.entries[i as int].name == name@,
            Err(e) => e.status == 404 && e.body@ == "Couldn't find QMDL entry with name "@ + name@
                && !store_has_name(store@, name@),
        },
{
    let live: String = "live".to_owned();
    if *name == live {
        match store.get_current_entry() {
            Some((i, _)) => Ok(i),
            None => Err(
                ControlResponse {
                    status: 503,
                    body:
                        "No QMDL data's being recorded to analyze, try starting a new recording!".to_owned(),
                },
            ),
        }
    } else {
        match store.entry_for_name(name) {
            Some(i) => Ok(i),
            None => Err(
                ControlResponse {
                    status: 404,
                    body: "Couldn't find QMDL entry with name ".to_owned().concat(name.as_str()),
                },
            ),
        }
    }
}

} // verus!
