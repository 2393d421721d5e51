//! Verified core of a cellular diagnostic capture daemon.
//!
//! The crate models the heart of a device that records raw diagnostic
//! traffic from a cellular modem while heuristic analyzers scan the live
//! stream for indicators of rogue-base-station surveillance:
//!
//! * [`store`] — the recording store: an ordered manifest of capture
//!   entries with exactly-one-current lifecycle semantics.
//! * [`diag`] — the capture orchestrator state machine and the decision
//!   logic behind the operator-facing control surface.
//! * [`display`] — the indicator signals sent to the operator display.
//! * [`events`] — a ghost model of whole event sequences, with proofs
//!   that the orchestrator's observable behavior follows the control
//!   messages it processes.
//!
//! All file, channel and HTTP plumbing lives outside this crate; the
//! functions here take plain values, decide, and hand plain values back.

pub mod diag;
pub mod display;
pub mod events;
pub mod store;
