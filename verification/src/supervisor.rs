//! The backend supervisor: a single-shot state machine over the backend
//! process lifecycle.
//!
//! Per application run the supervisor moves through at most one launch and
//! one termination: locate an entry point, (for script variants) choose an
//! interpreter, record the spawn outcome with at most one fallback
//! attempt, and on window destruction take and kill whatever process is
//! tracked.  The application performs the filesystem checks, the spawns
//! and the kill, and reports each outcome back; the supervisor makes every
//! decision, owns the optional process handle, and appends the diagnostic
//! log.
//!
//! Each operation's contract states the exact transition it makes on the
//! supervisor's mathematical model, [`SupervisorModel`].

use crate::diag::LogEntry;
use crate::diag::LogEvent;
use crate::interpreter::resolve_interpreter;
use crate::locate::LaunchCandidate;
use crate::locate::first_true;
use crate::locate::lemma_first_true_at;
use crate::locate::lemma_first_true_none;
use vstd::prelude::*;

verus! {

broadcast use vstd::seq_lib::group_seq_properties;

/// Where the supervisor stands in its single-shot lifecycle.
///
/// `Idle`, `Located` and `FallbackPending` refine the not-yet-started
/// stage: nothing has been spawned, but `Located` permits a spawn attempt
/// and `FallbackPending` permits exactly the one fallback attempt.
/// `NeverStarted` is the terminal failure stage: the launch was abandoned
/// and no spawn will be attempted again.  `Terminated` is reached by
/// `shutdown` from every stage and never left.
#[derive(Debug, Clone, Copy, PartialEq, Eq, Structural)]
pub enum Phase {
    /// Nothing has happened yet; the entry point is not located.
    Idle,
    /// An entry point was located (and, where one is needed, an
    /// interpreter chosen); a spawn may be attempted.
    Located,
    /// The primary spawn failed and the fallback launcher may be tried,
    /// exactly once.
    FallbackPending,
    /// The backend process was spawned and its handle is tracked.
    Running,
    /// The launch was abandoned; no process was ever tracked.
    NeverStarted,
    /// `shutdown` ran; any tracked process was taken and killed.
    Terminated,
}

/// The mathematical value of a [`Supervisor`].
pub struct SupervisorModel {
    pub phase: Phase,
    /// The tracked backend process, by its OS process id.
    pub process: Option<u32>,
    /// Whether this deployment variant defines a secondary launcher.
    pub has_fallback: bool,
    /// How many fallback attempts have been authorized this run.
    pub fallback_attempts: u8,
    /// The diagnostic log so far, oldest entry first.
    pub log: Seq<LogEvent>,
}

impl SupervisorModel {
    /// Well-formedness: a process is tracked exactly while running, the
    /// fallback is authorized at most once and only where one is defined,
    /// and an untouched supervisor has done nothing.
    pub open spec fn inv(self) -> bool {
        &&& (self.phase is Running <==> self.process is Some)
        &&& self.fallback_attempts <= 1
        &&& (self.fallback_attempts == 1 ==> self.has_fallback)
        &&& (self.phase is FallbackPending ==> self.fallback_attempts == 1)
        &&& (self.phase is Idle ==> self.fallback_attempts == 0 && self.log.len() == 0)
    }

    /// A spawn outcome may be reported only after the entry point is
    /// located.
    pub open spec fn spawn_enabled(self) -> bool {
        self.phase is Located
    }

    /// A fallback outcome may be reported only while the single fallback
    /// attempt is authorized.
    pub open spec fn fallback_enabled(self) -> bool {
        self.phase is FallbackPending
    }
}

/// The model of a freshly constructed supervisor.
pub open spec fn init_model(has_fallback: bool) -> SupervisorModel {
    SupervisorModel {
        phase: Phase::Idle,
        process: None,
        has_fallback,
        fallback_attempts: 0,
        log: Seq::empty(),
    }
}

/// The `Checked` entries for the first `n` candidates, in probe order.
pub open spec fn checked_events(candidates: Seq<LaunchCandidate>, present: Seq<bool>, n: int) -> Seq<
    LogEvent,
> {
    Seq::new(n as nat, |i: int| LogEvent::Checked { path: candidates[i].entry_point@, found: present[i] })
}

/// The transition made by [`Supervisor::locate`]: every candidate up to
/// and including the first present one is logged as checked; on success
/// the start of the launch is logged and a spawn becomes permitted, on
/// failure the launch is abandoned.
pub open spec fn locate_model(
    m: SupervisorModel,
    candidates: Seq<LaunchCandidate>,
    present: Seq<bool>,
) -> (SupervisorModel, Option<int>) {
    match first_true(present) {
        Some(k) => (
            SupervisorModel {
                phase: Phase::Located,
                log: m.log + checked_events(candidates, present, k + 1).push(
                    LogEvent::Starting { path: candidates[k].entry_point@ },
                ),
                ..m
            },
            Some(k),
        ),
        None => (
            SupervisorModel {
                phase: Phase::NeverStarted,
                log: m.log + checked_events(candidates, present, present.len() as int),
                ..m
            },
            None,
        ),
    }
}

/// The transition made by [`Supervisor::choose_interpreter`]: the first
/// responding interpreter is logged and kept, or the launch is abandoned.
pub open spec fn interpreter_model(
    m: SupervisorModel,
    names: Seq<String>,
    responds: Seq<bool>,
) -> (SupervisorModel, Option<int>) {
    match first_true(responds) {
        Some(k) => (
            SupervisorModel {
                log: m.log.push(LogEvent::InterpreterChosen { name: names[k]@ }),
                ..m
            },
            Some(k),
        ),
        None => (
            SupervisorModel {
                phase: Phase::NeverStarted,
                log: m.log.push(LogEvent::InterpreterNotFound),
                ..m
            },
            None,
        ),
    }
}

/// The transition made by [`Supervisor::record_spawn_success`]: the
/// process is tracked and the run is started.
pub open spec fn spawn_success_model(m: SupervisorModel, pid: u32) -> SupervisorModel {
    SupervisorModel { phase: Phase::Running, process: Some(pid), log: m.log.push(LogEvent::Started), ..m }
}

/// The transition made by [`Supervisor::record_spawn_failure`]: where a
/// fallback launcher is defined and not yet tried, the single fallback
/// attempt is authorized; otherwise the launch is abandoned.
pub open spec fn spawn_failure_model(m: SupervisorModel) -> (SupervisorModel, bool) {
    if m.has_fallback && m.fallback_attempts == 0 {
        (
            SupervisorModel {
                phase: Phase::FallbackPending,
                fallback_attempts: 1,
                log: m.log.push(LogEvent::SpawnFailed),
                ..m
            },
            true,
        )
    } else {
        (
            SupervisorModel { phase: Phase::NeverStarted, log: m.log.push(LogEvent::SpawnFailed), ..m },
            false,
        )
    }
}

/// The transition made by [`Supervisor::record_fallback_success`].
pub open spec fn fallback_success_model(m: SupervisorModel, pid: u32) -> SupervisorModel {
    SupervisorModel {
        phase: Phase::Running,
        process: Some(pid),
        log: m.log.push(LogEvent::FallbackStarted),
        ..m
    }
}

/// The transition made by [`Supervisor::record_fallback_failure`].
pub open spec fn fallback_failure_model(m: SupervisorModel) -> SupervisorModel {
    SupervisorModel { phase: Phase::NeverStarted, log: m.log.push(LogEvent::FallbackFailed), ..m }
}

/// The transition made by [`Supervisor::shutdown`]: the tracked process,
/// if any, is taken (to be killed by the caller) and the kill is logged;
/// the supervisor ends terminated either way.
pub open spec fn shutdown_model(m: SupervisorModel) -> (SupervisorModel, Option<u32>) {
    (
        SupervisorModel {
            phase: Phase::Terminated,
            process: None,
            log: if m.process is Some {
                m.log.push(LogEvent::Killed)
            } else {
                m.log
            },
            ..m
        },
        m.process,
    )
}

/// When no candidate entry point exists, locating fails, the launch is
/// abandoned, and no spawn — primary or fallback — is ever permitted.
pub proof fn lemma_locate_failure_never_spawns(
    m: SupervisorModel,
    candidates: Seq<LaunchCandidate>,
    present: Seq<bool>,
)
    requires
        m.inv(),
        m.phase is Idle,
        candidates.len() == present.len(),
        forall|j: int| 0 <= j < present.len() ==> !present[j],
    ensures
        locate_model(m, candidates, present).1 is None,
        locate_model(m, candidates, present).0.phase is NeverStarted,
        !locate_model(m, candidates, present).0.spawn_enabled(),
        !locate_model(m, candidates, present).0.fallback_enabled(),
        locate_model(m, candidates, present).0.process is None,
{
    crate::locate::lemma_first_true_none(present);
}

/// After a successful spawn the process reference is non-empty; after
/// `shutdown` it is always empty, however many times `shutdown` runs:
/// a second shutdown changes nothing at all.
pub proof fn lemma_spawn_tracks_and_shutdown_clears(m: SupervisorModel, pid: u32)
    ensures
        spawn_success_model(m, pid).process is Some,
        fallback_success_model(m, pid).process is Some,
        shutdown_model(m).0.process is None,
        shutdown_model(shutdown_model(m).0).0 == shutdown_model(m).0,
        shutdown_model(shutdown_model(m).0).1 is None,
{
}

/// A shutdown before any spawn attempt is a no-op: nothing is handed back
/// to kill and the diagnostic log is untouched.
pub proof fn lemma_shutdown_before_spawn_is_noop(m: SupervisorModel)
    requires
        m.process is None,
    ensures
        shutdown_model(m).1 is None,
        shutdown_model(m).0.log == m.log,
        shutdown_model(m).0 == (SupervisorModel { phase: Phase::Terminated, ..m }),
{
}

/// A failed spawn authorizes the fallback launcher at most once: it is
/// authorized exactly when a fallback is defined and none was authorized
/// before, the counter never exceeds one, and afterwards no further
/// primary-spawn outcome can be reported, so no second authorization can
/// ever occur.
pub proof fn lemma_at_most_one_fallback(m: SupervisorModel)
    requires
        m.inv(),
        m.spawn_enabled(),
    ensures
        spawn_failure_model(m).0.fallback_attempts <= 1,
        spawn_failure_model(m).1 <==> m.has_fallback && m.fallback_attempts == 0,
        spawn_failure_model(m).1 ==> spawn_failure_model(m).0.fallback_attempts == 1,
        !spawn_failure_model(m).0.spawn_enabled(),
        spawn_failure_model(m).1 ==> spawn_failure_model(m).0.fallback_enabled(),
        !spawn_failure_model(m).1 ==> spawn_failure_model(m).0.phase is NeverStarted,
{
}

/// At most one backend process is ever tracked: a spawn outcome can be
/// recorded only while no process is tracked, so a tracked process is
/// never replaced — there is no restart, and only `shutdown` clears the
/// reference.
pub proof fn lemma_never_tracks_a_second_process(m: SupervisorModel)
    requires
        m.inv(),
    ensures
        m.spawn_enabled() ==> m.process is None,
        m.fallback_enabled() ==> m.process is None,
        m.phase is Running ==> !m.spawn_enabled() && !m.fallback_enabled(),
{
}

/// The mathematical value of a diagnostic log: each entry as its event.
pub open spec fn log_view(entries: Seq<LogEntry>) -> Seq<LogEvent> {
    entries.map_values(|e: LogEntry| e@)
}

/// The backend supervisor.  Exactly one instance exists per application
/// run; the application keeps it behind a mutual-exclusion lock shared by
/// the startup path and the shutdown path.
pub struct Supervisor {
    pub phase: Phase,
    /// The tracked backend process, by its OS process id.  The application
    /// holds the matching child handle and kills it when [`Supervisor::shutdown`]
    /// hands the id back.
    pub process: Option<u32>,
    /// Whether this deployment variant defines a secondary launcher.
    pub has_fallback: bool,
    /// How many fallback attempts have been authorized this run.
    pub fallback_attempts: u8,
    /// The diagnostic log, oldest entry first.
    pub log: Vec<LogEntry>,
}

impl View for Supervisor {
    type V = SupervisorModel;

    open spec fn view(&self) -> SupervisorModel {
        SupervisorModel {
            phase: self.phase,
            process: self.process,
            has_fallback: self.has_fallback,
            fallback_attempts: self.fallback_attempts,
            log: log_view(self.log@),
        }
    }
}

impl Supervisor {
    /// A supervisor that has done nothing yet.  `has_fallback` says
    /// whether the deployment variant defines a secondary launcher to try
    /// once after a failed primary spawn.
    pub fn new(has_fallback: bool) -> (s: Supervisor)
        ensures
            s@ == init_model(has_fallback),
            s@.inv(),
    {
        let s = Supervisor {
            phase: Phase::Idle,
            process: None,
            has_fallback,
            fallback_attempts: 0,
            log: Vec::new(),
        };
        proof {
            assert(s@.log =~= init_model(has_fallback).log);
        }
        s
    }

    /// Evaluates the launch candidates in priority order and commits to
    /// the first whose entry-point file exists.  `present[i]` reports
    /// whether `candidates[i].entry_point` exists on disk.  Every
    /// candidate checked is logged; on success the resolved entry point is
    /// logged and a spawn attempt becomes permitted, on failure the launch
    /// is abandoned and no spawn will ever be attempted.
    pub fn locate(&mut self, candidates: &Vec<LaunchCandidate>, present: &Vec<bool>) -> (r: Option<
        usize,
    >)
        requires
            old(self)@.inv(),
            old(self)@.phase is Idle,
            candidates@.len() == present@.len(),
        ensures
            final(self)@ == locate_model(old(self)@, candidates@, present@).0,
            final(self)@.inv(),
            match r {
                Some(i) => locate_model(old(self)@, candidates@, present@).1 == Some(i as int),
                None => locate_model(old(self)@, candidates@, present@).1 is None,
            },
    {
        let ghost m0 = self@;
        let ghost v0 = self.log@;
        let n = present.len();
        let mut i: usize = 0;
        while i < n
            invariant
                i <= n,
                n == present@.len(),
                candidates@.len() == present@.len(),
                m0 == old(self)@,
                m0.inv(),
                m0.phase is Idle,
                self.phase == m0.phase,
                self.process == m0.process,
                self.has_fallback == m0.has_fallback,
                self.fallback_attempts == m0.fallback_attempts,
                m0.log == log_view(v0),
                self.log@.len() == v0.len() + i,
                forall|j: int| 0 <= j < v0.len() ==> self.log@[j] == v0[j],
                forall|j: int|
                    0 <= j < i ==> self.log@[v0.len() + j] == (LogEntry::Checked {
                        path: candidates@[j].entry_point,
                        found: present@[j],
                    }),
                forall|j: int| 0 <= j < i ==> !present@[j],
            decreases n - i,
        {
            let found = present[i];
            self.log.push(LogEntry::Checked { path: candidates[i].entry_point.clone(), found });
            if found {
                self.log.push(LogEntry::Starting { path: candidates[i].entry_point.clone() });
                self.phase = Phase::Located;
                proof {
                    lemma_first_true_at(present@, i as int);
                    assert(self@.log =~= locate_model(m0, candidates@, present@).0.log);
                }
                return Some(i);
            }
            i += 1;
        }
        self.phase = Phase::NeverStarted;
        proof {
            lemma_first_true_none(present@);
            assert(self@.log =~= locate_model(m0, candidates@, present@).0.log);
        }
        None
    }

    /// Chooses the interpreter for a script-deployed backend from the
    /// outcomes of the version probes, as [`resolve_interpreter`] does,
    /// and logs the choice.  When no probe succeeded the launch is
    /// abandoned: this is a terminal condition for backend startup.
    pub fn choose_interpreter(&mut self, names: &Vec<String>, responds: &Vec<bool>) -> (r: Option<
        String,
    >)
        requires
            old(self)@.inv(),
            old(self)@.phase is Located,
            names@.len() == responds@.len(),
        ensures
            final(self)@ == interpreter_model(old(self)@, names@, responds@).0,
            final(self)@.inv(),
            match r {
                Some(name) => interpreter_model(old(self)@, names@, responds@).1 matches Some(k)
                    && name@ == names@[k]@,
                None => interpreter_model(old(self)@, names@, responds@).1 is None,
            },
    {
        let ghost m0 = self@;
        match resolve_interpreter(names, responds) {
            Some(name) => {
                self.log.push(LogEntry::InterpreterChosen { name: name.clone() });
                proof {
                    assert(self@.log =~= interpreter_model(m0, names@, responds@).0.log);
                }
                Some(name)
            },
            None => {
                self.log.push(LogEntry::InterpreterNotFound);
                self.phase = Phase::NeverStarted;
                proof {
                    assert(self@.log =~= interpreter_model(m0, names@, responds@).0.log);
                }
                None
            },
        }
    }

    /// Records that the primary spawn attempt succeeded: the process is
    /// tracked under `pid` and the backend is considered running on its
    /// assumed port.
    pub fn record_spawn_success(&mut self, pid: u32)
        requires
            old(self)@.inv(),
            old(self)@.spawn_enabled(),
        ensures
            final(self)@ == spawn_success_model(old(self)@, pid),
            final(self)@.inv(),
            final(self)@.process == Some(pid),
    {
        self.process = Some(pid);
        self.phase = Phase::Running;
        self.log.push(LogEntry::Started);
        proof {
            assert(self@.log =~= spawn_success_model(old(self)@, pid).log);
        }
    }

    /// Records that the primary spawn attempt failed.  Returns whether the
    /// caller should attempt the fallback launcher: `true` exactly when
    /// this variant defines one and it has not been authorized before, so
    /// at most one fallback attempt ever occurs.  When `false`, the launch
    /// is abandoned; the failure is non-fatal for the shell and the window
    /// still opens.
    pub fn record_spawn_failure(&mut self) -> (try_fallback: bool)
        requires
            old(self)@.inv(),
            old(self)@.spawn_enabled(),
        ensures
            final(self)@ == spawn_failure_model(old(self)@).0,
            try_fallback == spawn_failure_model(old(self)@).1,
            final(self)@.inv(),
            try_fallback <==> old(self)@.has_fallback && old(self)@.fallback_attempts == 0,
    {
        self.log.push(LogEntry::SpawnFailed);
        proof {
            assert(self@.log =~= old(self)@.log.push(LogEvent::SpawnFailed));
        }
        if self.has_fallback && self.fallback_attempts == 0 {
            self.fallback_attempts = 1;
            self.phase = Phase::FallbackPending;
            true
        } else {
            self.phase = Phase::NeverStarted;
            false
        }
    }

    /// Records that the single fallback launch succeeded: the process is
    /// tracked under `pid`.
    pub fn record_fallback_success(&mut self, pid: u32)
        requires
            old(self)@.inv(),
            old(self)@.fallback_enabled(),
        ensures
            final(self)@ == fallback_success_model(old(self)@, pid),
            final(self)@.inv(),
            final(self)@.process == Some(pid),
    {
        self.process = Some(pid);
        self.phase = Phase::Running;
        self.log.push(LogEntry::FallbackStarted);
        proof {
            assert(self@.log =~= fallback_success_model(old(self)@, pid).log);
        }
    }

    /// Records that the single fallback launch failed too; the launch is
    /// abandoned.
    pub fn record_fallback_failure(&mut self)
        requires
            old(self)@.inv(),
            old(self)@.fallback_enabled(),
        ensures
            final(self)@ == fallback_failure_model(old(self)@),
            final(self)@.inv(),
    {
        self.phase = Phase::NeverStarted;
        self.log.push(LogEntry::FallbackFailed);
        proof {
            assert(self@.log =~= fallback_failure_model(old(self)@).log);
        }
    }

    /// Takes the tracked process for the caller to kill, leaving the
    /// reference empty, and terminates the run.  Triggered by the window
    /// system's window-destroyed event; calling it with no process tracked
    /// — before any spawn attempt, after a failed launch, or a second time
    /// — is a no-op that hands back nothing.
    pub fn shutdown(&mut self) -> (killed: Option<u32>)
        requires
            old(self)@.inv(),
        ensures
            final(self)@ == shutdown_model(old(self)@).0,
            killed == shutdown_model(old(self)@).1,
            final(self)@.inv(),
            final(self)@.process is None,
    {
        let killed = self.process.take();
        self.phase = Phase::Terminated;
        if killed.is_some() {
            self.log.push(LogEntry::Killed);
            proof {
                assert(self@.log =~= shutdown_model(old(self)@).0.log);
            }
        }
        killed
    }
}

} // verus!
