//! Backend process supervision for a desktop shell application.
//!
//! The shell launches a companion backend process when the application
//! starts and terminates it when the main window closes.  This crate holds
//! the decision core of that lifecycle: choosing the backend entry point
//! among a prioritized candidate list, selecting a usable interpreter from
//! probe results, tracking the spawned process handle through a small state
//! machine with a single optional fallback launch, and recording a
//! structured diagnostic log of every step.  The surrounding application
//! performs the actual filesystem checks, process spawning and killing, and
//! log-file writes, and feeds the outcomes back in as plain values.

pub mod diag;
pub mod interpreter;
pub mod locate;
pub mod supervisor;

use vstd::prelude::*;

verus! {

/// The TCP port the backend is assumed to bind after it starts.  The
/// supervisor reports it for information only and never verifies that the
/// backend is actually listening.
pub const BACKEND_PORT: u16 = 8420;

/// How long the main window stays hidden after startup, giving the web view
/// time to render the splash screen before it is shown.
pub const SPLASH_DELAY_MS: u64 = 1500;

} // verus!
