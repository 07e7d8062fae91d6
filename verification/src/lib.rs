//! Supervision of a backend service process on behalf of a desktop shell.
//!
//! The crate holds the decisions and leaves the doing to its driver: each
//! component is a state machine that takes an event and answers with the
//! action to carry out next.
//!
//! - [`readiness`]: the one-shot readiness latch and the detector that two
//!   producers of evidence feed, the log watcher and the probe poller.
//! - [`markers`] and [`text`]: the phrases in the service's output that
//!   announce readiness, and the substring search that finds them.
//! - [`decode`]: raw output bytes to text, tolerant of invalid encoding.
//! - [`probe`]: the health-probe poller with its settle delay, interval and
//!   attempt budget.
//! - [`supervisor`]: ownership of the service process and the handling of
//!   its output records.
//! - [`visibility`]: the switch from the loading surface to the main surface.
//! - [`shutdown`]: graceful stop, grace period, kill, exit.
//! - [`endpoints`]: the service's well-known addresses.

pub mod decode;
pub mod endpoints;
pub mod markers;
pub mod probe;
pub mod readiness;
pub mod shutdown;
pub mod supervisor;
pub mod text;
pub mod visibility;
