//! Ghost model of whole event sequences.
//!
//! The orchestrator's step functions each carry an exact contract, but
//! some guarantees only show over a whole run: how many entries a
//! sequence of control messages creates, which indicator signals a run
//! emits, what a deletion does to an ongoing capture. This module
//! replays event sequences over the same ghost transitions the step
//! functions are specified with, and proves those run-level guarantees.

use vstd::prelude::*;

verus! {

use crate::diag::SessionModel;
use crate::display::DisplayState;
use crate::store::close_current_model;
use crate::store::delete_entry_model;
use crate::store::lemma_close_preserves_names;
use crate::store::lemma_delete_noncurrent_preserves_current;
use crate::store::start_model;
use crate::store::store_has_name;
use crate::store::update_size_model;
use crate::store::wf_model;
use crate::store::StoreModel;

/// Ghost image of one control event the orchestrator processes: a
/// start carries the name chosen for the fresh entry.
pub enum ControlEventModel {
    Start { name: Seq<char> },
    Stop,
}

/// The indicator signal a control event emits: `Recording` after a
/// start, `Paused` after a stop.
pub open spec fn control_signal(e: ControlEventModel) -> DisplayState {
    match e {
        ControlEventModel::Start { .. } => DisplayState::Recording,
        ControlEventModel::Stop => DisplayState::Paused,
    }
}

/// Ghost image of one serviced loop iteration: a control message, or a
/// captured `UserSpace` frame of `len` payload bytes on which the
/// analyzers produced `findings` records and possibly a warning.
pub enum EventModel {
    Control(ControlEventModel),
    Frame { len: int, findings: int, warning: bool },
}

/// Ghost image of the whole capture system: the store manifest and the
/// orchestrator's session, coupled as the one orchestrator task sees
/// them.
#[verifier::ext_equal]
pub struct SysModel {
    pub store: StoreModel,
    pub session: Option<SessionModel>,
}

/// What one event does to the system. A start closes any current entry,
/// opens a fresh one and resets both writers; a stop closes the current
/// entry and drops the writers; a frame, while a session is active
/// against a live current entry, accounts its bytes and findings.
/// A frame with capture paused is discarded, and a frame that finds the
/// current entry gone leaves the store untouched (the loop aborts).
pub open spec fn step(s: SysModel, e: EventModel) -> SysModel {
    match e {
        EventModel::Control(ControlEventModel::Start { name }) => SysModel {
            store: start_model(s.store, name),
            session: Some(SessionModel { written: 0, records: 0 }),
        },
        EventModel::Control(ControlEventModel::Stop) => SysModel {
            store: close_current_model(s.store),
            session: None,
        },
        EventModel::Frame { len, findings, warning } => match s.session {
            Some(w) => if s.store.current is Some {
                SysModel {
                    store: update_size_model(s.store, w.written + len),
                    session: Some(
                        SessionModel { written: w.written + len, records: w.records + findings },
                    ),
                }
            } else {
                s
            },
            None => s,
        },
    }
}

/// The indicator signals one event emits: every control message emits
/// its signal; a frame emits `WarningDetected` exactly when it was
/// accounted and triggered a warning.
pub open spec fn step_signals(s: SysModel, e: EventModel) -> Seq<DisplayState> {
    match e {
        EventModel::Control(c) => seq![control_signal(c)],
        EventModel::Frame { len, findings, warning } => match s.session {
            Some(w) => if s.store.current is Some && warning {
                seq![DisplayState::WarningDetected]
            } else {
                seq![]
            },
            None => seq![],
        },
    }
}

/// The system after a whole event sequence.
pub open spec fn run(s: SysModel, es: Seq<EventModel>) -> SysModel
    decreases es.len(),
{
    if es.len() == 0 {
        s
    } else {
        run(step(s, es[0]), es.drop_first())
    }
}

/// All indicator signals a whole event sequence emits, in order.
pub open spec fn run_signals(s: SysModel, es: Seq<EventModel>) -> Seq<DisplayState>
    decreases es.len(),
{
    if es.len() == 0 {
        seq![]
    } else {
        step_signals(s, es[0]) + run_signals(step(s, es[0]), es.drop_first())
    }
}

/// How many start messages an event sequence carries.
pub open spec fn count_starts(es: Seq<EventModel>) -> int
    decreases es.len(),
{
    if es.len() == 0 {
        0
    } else {
        (if es[0] matches EventModel::Control(ControlEventModel::Start { .. }) {
            1int
        } else {
            0int
        }) + count_starts(es.drop_first())
    }
}

/// The signals the control messages of an event sequence dictate, in
/// order: `Recording` for each start, `Paused` for each stop.
pub open spec fn control_signals_of(es: Seq<EventModel>) -> Seq<DisplayState>
    decreases es.len(),
{
    if es.len() == 0 {
        seq![]
    } else {
        match es[0] {
            EventModel::Control(c) => seq![control_signal(c)] + control_signals_of(
                es.drop_first(),
            ),
            EventModel::Frame { .. } => control_signals_of(es.drop_first()),
        }
    }
}

/// A signal sequence with the warning signals dropped: what remains is
/// the control-driven part of the indicator traffic.
pub open spec fn non_warning_signals(sigs: Seq<DisplayState>) -> Seq<DisplayState>
    decreases sigs.len(),
{
    if sigs.len() == 0 {
        seq![]
    } else if sigs[0] == DisplayState::WarningDetected {
        non_warning_signals(sigs.drop_first())
    } else {
        seq![sigs[0]] + non_warning_signals(sigs.drop_first())
    }
}

/// Dropping warnings distributes over concatenation.
pub proof fn lemma_non_warning_concat(a: Seq<DisplayState>, b: Seq<DisplayState>)
    ensures
        non_warning_signals(a + b) == non_warning_signals(a) + non_warning_signals(b),
    decreases a.len(),
{
    if a.len() == 0 {
        assert(a + b =~= b);
        assert(non_warning_signals(a) + non_warning_signals(b) =~= non_warning_signals(b));
    } else {
        assert((a + b)[0] == a[0]);
        assert((a + b).drop_first() =~= a.drop_first() + b);
        lemma_non_warning_concat(a.drop_first(), b);
        if a[0] == DisplayState::WarningDetected {
        } else {
            assert(seq![a[0]] + (non_warning_signals(a.drop_first()) + non_warning_signals(b))
                =~= (seq![a[0]] + non_warning_signals(a.drop_first())) + non_warning_signals(b));
        }
    }
}

/// Dropping warnings from a one-signal sequence keeps it when the
/// signal is not a warning and empties it when it is.
proof fn lemma_non_warning_singleton(d: DisplayState)
    ensures
        d != DisplayState::WarningDetected ==> non_warning_signals(seq![d]) =~= seq![d],
        d == DisplayState::WarningDetected ==> non_warning_signals(seq![d]) =~= Seq::<
            DisplayState,
        >::empty(),
{
    let sigs = seq![d];
    assert(sigs.drop_first().len() == 0);
    assert(non_warning_signals(sigs.drop_first()) =~= Seq::<DisplayState>::empty());
}

/// The control-driven indicator signals of any run follow its control
/// messages exactly — `Recording` after each start, `Paused` after each
/// stop, in order — regardless of interleaved frame events, which only
/// ever contribute `WarningDetected`. Holds for every event sequence
/// and every starting state.
pub proof fn lemma_signals_follow_controls(s: SysModel, es: Seq<EventModel>)
    ensures
        non_warning_signals(run_signals(s, es)) == control_signals_of(es),
    decreases es.len(),
{
    if es.len() == 0 {
    } else {
        let s1 = step(s, es[0]);
        let head = step_signals(s, es[0]);
        let rest = run_signals(s1, es.drop_first());
        lemma_non_warning_concat(head, rest);
        lemma_signals_follow_controls(s1, es.drop_first());
        match es[0] {
            EventModel::Control(c) => {
                match c {
                    ControlEventModel::Start { .. } => {
                        assert(control_signal(c) == DisplayState::Recording);
                    },
                    ControlEventModel::Stop => {
                        assert(control_signal(c) == DisplayState::Paused);
                    },
                }
                lemma_non_warning_singleton(control_signal(c));
                assert(non_warning_signals(run_signals(s, es)) =~= control_signals_of(es));
            },
            EventModel::Frame { .. } => {
                if head.len() == 0 {
                    assert(non_warning_signals(head) =~= Seq::<DisplayState>::empty());
                } else {
                    assert(head =~= seq![DisplayState::WarningDetected]);
                    lemma_non_warning_singleton(DisplayState::WarningDetected);
                }
                assert(non_warning_signals(run_signals(s, es)) =~= control_signals_of(es));
            },
        }
    }
}

/// Coupling between store and session that every run preserves: the
/// manifest is well-formed, and while a session is active there is a
/// current entry whose recorded size equals the bytes the capture
/// writer has appended.
pub open spec fn capture_inv(s: SysModel) -> bool {
    &&& wf_model(s.store)
    &&& match s.session {
        Some(w) => {
            &&& w.written >= 0
            &&& w.records >= 0
            &&& s.store.current matches Some(c) && s.store.entries[c].size_bytes == w.written
        },
        None => true,
    }
}

/// What must hold of an event for the invariant to carry: a start
/// brings an unused name, and a frame carries non-negative counts with
/// a warning only on a finding.
pub open spec fn event_wf(s: SysModel, e: EventModel) -> bool {
    match e {
        EventModel::Control(ControlEventModel::Start { name }) => !store_has_name(s.store, name),
        EventModel::Control(ControlEventModel::Stop) => true,
        EventModel::Frame { len, findings, warning } => len >= 0 && findings >= 0 && (warning
            ==> findings >= 1),
    }
}

/// Whether every event of a sequence is well-formed in the state in
/// which it is processed.
pub open spec fn events_wf(s: SysModel, es: Seq<EventModel>) -> bool
    decreases es.len(),
{
    es.len() != 0 ==> (event_wf(s, es[0]) && events_wf(step(s, es[0]), es.drop_first()))
}

/// Every well-formed event keeps the manifest well-formed — in
/// particular, at most one entry is current after any run.
pub proof fn lemma_step_preserves_wf(s: SysModel, e: EventModel)
    requires
        wf_model(s.store),
        event_wf(s, e),
    ensures
        wf_model(step(s, e).store),
{
    match e {
        EventModel::Control(ControlEventModel::Start { name }) => {
            lemma_close_preserves_names(s.store, name);
            let closed = close_current_model(s.store);
            let d = start_model(s.store, name);
            assert(wf_model(closed));
            assert forall|j: int| 0 <= j < d.entries.len() - 1 implies #[trigger] d.entries[j]
                == closed.entries[j] by {}
            assert(wf_model(d));
        },
        EventModel::Control(ControlEventModel::Stop) => {},
        EventModel::Frame { len, findings, warning } => {},
    }
}

/// Every well-formed event preserves the coupling invariant.
pub proof fn lemma_step_preserves_inv(s: SysModel, e: EventModel)
    requires
        capture_inv(s),
        event_wf(s, e),
    ensures
        capture_inv(step(s, e)),
{
    lemma_step_preserves_wf(s, e);
}

/// The number of entries ever created by a run equals the number of
/// start messages processed: frames and stops never add or remove an
/// entry, and each start adds exactly one — whatever the interleaving
/// of frames between the control messages.
pub proof fn lemma_entries_match_starts(s: SysModel, es: Seq<EventModel>)
    requires
        wf_model(s.store),
        events_wf(s, es),
    ensures
        run(s, es).store.entries.len() == s.store.entries.len() + count_starts(es),
    decreases es.len(),
{
    if es.len() == 0 {
    } else {
        let s1 = step(s, es[0]);
        lemma_step_preserves_wf(s, es[0]);
        match es[0] {
            EventModel::Control(ControlEventModel::Start { name }) => {
                lemma_close_preserves_names(s.store, name);
                assert(s1.store.entries.len() == s.store.entries.len() + 1);
            },
            EventModel::Control(ControlEventModel::Stop) => {
                assert(s1.store.entries.len() == s.store.entries.len());
            },
            EventModel::Frame { .. } => {
                assert(s1.store.entries.len() == s.store.entries.len());
            },
        }
        lemma_entries_match_starts(s1, es.drop_first());
    }
}

/// Whether a sequence consists of frame events only.
pub open spec fn frames_only(es: Seq<EventModel>) -> bool {
    forall|i: int| 0 <= i < es.len() ==> #[trigger] es[i] is Frame
}

/// The payload bytes a sequence of frame events appends, summed.
pub open spec fn sum_frame_lens(es: Seq<EventModel>) -> int
    decreases es.len(),
{
    if es.len() == 0 {
        0
    } else {
        (match es[0] {
            EventModel::Frame { len, .. } => len,
            EventModel::Control(..) => 0,
        }) + sum_frame_lens(es.drop_first())
    }
}

/// Round trip of size accounting: starting from an active session,
/// the bytes appended by any sequence of captured frames, summed,
/// equal the size the manifest records for the entry — and closing the
/// entry afterwards finalizes exactly that size. In particular the
/// size a stop leaves behind is the total the capture writer counted.
pub proof fn lemma_capture_size_round_trip(s: SysModel, es: Seq<EventModel>)
    requires
        capture_inv(s),
        s.session is Some,
        frames_only(es),
        events_wf(s, es),
    ensures
        capture_inv(run(s, es)),
        run(s, es).session matches Some(w) && w.written == s.session->Some_0.written
            + sum_frame_lens(es),
        close_current_model(run(s, es).store).entries[run(s, es).store.current->Some_0].size_bytes
            == s.session->Some_0.written + sum_frame_lens(es),
    decreases es.len(),
{
    if es.len() == 0 {
        let c = s.store.current->Some_0;
        assert(close_current_model(s.store).entries[c].size_bytes
            == s.store.entries[c].size_bytes);
    } else {
        let s1 = step(s, es[0]);
        lemma_step_preserves_inv(s, es[0]);
        assert(es[0] is Frame);
        assert(s1.session is Some);
        lemma_capture_size_round_trip(s1, es.drop_first());
    }
}

/// Deletion of an entry other than the current one never affects
/// capture: the session is untouched, the same recording stays current
/// with the same recorded size, and the coupling invariant still holds.
pub proof fn lemma_delete_noncurrent_keeps_capture(s: SysModel, i: int)
    requires
        capture_inv(s),
        0 <= i < s.store.entries.len(),
        s.store.current != Some(i),
    ensures
        capture_inv(SysModel { store: delete_entry_model(s.store, i), session: s.session }),
        s.store.current matches Some(c) ==> {
            let d = delete_entry_model(s.store, i);
            d.entries[d.current->Some_0] == s.store.entries[c]
        },
{
    lemma_delete_noncurrent_preserves_current(s.store, i);
}

/// Deletion of the current entry, followed by the stop message the
/// control surface forwards, always leaves capture paused and emits
/// exactly one `Paused` signal.
pub proof fn lemma_delete_current_then_stop(s: SysModel, i: int)
    requires
        wf_model(s.store),
        s.store.current == Some(i),
    ensures
        ({
            let after_delete = SysModel {
                store: delete_entry_model(s.store, i),
                session: s.session,
            };
            let stop = EventModel::Control(ControlEventModel::Stop);
            &&& step(after_delete, stop).session is None
            &&& step_signals(after_delete, stop) == seq![DisplayState::Paused]
        }),
{
}

} // verus!
