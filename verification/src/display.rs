//! Indicator signals consumed by the operator-facing display.

use vstd::prelude::*;

verus! {

/// Discrete state broadcast to the operator-facing indicator.
///
/// `Recording` is emitted after a start message is processed, `Paused`
/// after a stop, and `WarningDetected` whenever an analyzed frame
/// triggers a heuristic warning. Repeated signals are not debounced:
/// the consumer must tolerate bursts.
#[derive(Clone, Copy, PartialEq, Eq, Structural, Debug)]
pub enum DisplayState {
    Recording,
    Paused,
    WarningDetected,
}

} // verus!
