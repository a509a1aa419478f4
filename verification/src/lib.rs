//! Directory reconciliation engine.
//!
//! A background process periodically pulls an employee roster from an
//! external directory system and reconciles it into a local store of job
//! titles and users.  The engine is split into a directory client that
//! normalizes one roster snapshot, a job-title reconciler that guarantees
//! every label of the snapshot has a local record and builds a label-to-id
//! cache, a user reconciler that creates or updates local users from the
//! snapshot through that cache, a status event stream for observers, and a
//! scheduler state machine that drives one pass after another until it is
//! cancelled.

use vstd::prelude::*;

pub mod api;
pub mod cache;
pub mod connector;
pub mod intranet;
pub mod job_title_sync;
pub mod laws;
pub mod ms_graph;
pub mod scheduler;
pub mod status;
pub mod templating;
pub mod uow;
pub mod user_sync;

verus! {

/// The fixed pause between two reconciliation passes, in seconds.
pub const SYNC_INTERVAL_SECONDS: u64 = 60;

} // verus!
