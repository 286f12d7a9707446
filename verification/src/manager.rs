//! Execution guard and lifecycle manager.
//!
//! A manager owns exactly one guest environment.  The environment is
//! instantiated lazily on the first run attempt; a failed instantiation
//! leaves the manager without an environment, and every later run attempt
//! retries instantiation from scratch.  At most one logical execution is
//! ever in flight: `run` tries to acquire the exclusive guard and, when it
//! is already held, fails immediately — it never queues or blocks.
//!
//! The engine work itself (building the guest instance, calling its
//! initialization entry point, driving its message loop) suspends and is
//! performed by the surrounding program; the functions here take each
//! outcome as a plain value and make every decision of the protocol.

use vstd::prelude::*;

verus! {

/// Why a run attempt failed.
pub enum RunError {
    /// The exclusive execution guard was already held by an in-flight run.
    AlreadyRunning,
    /// No instantiated, initialized guest environment exists.
    NotStarted,
    /// The guest's message loop faulted; carries the guest's reason
    /// unmodified.
    Guest(String),
}

impl RunError {
    /// The diagnostic text of this error.
    pub open spec fn text_spec(self) -> Seq<char> {
        match self {
            RunError::AlreadyRunning => "WasmRunner: run_msg_loop already running"@,
            RunError::NotStarted => "WASMRunner: not started"@,
            RunError::Guest(m) => m@,
        }
    }

    /// Renders the diagnostic text of this error.
    pub fn text(&self) -> (s: String)
        ensures
            s@ == self.text_spec(),
    {
        match self {
            RunError::AlreadyRunning => "WasmRunner: run_msg_loop already running".to_owned(),
            RunError::NotStarted => "WASMRunner: not started".to_owned(),
            RunError::Guest(m) => m.clone(),
        }
    }
}

/// The lifecycle manager for one guest instance.
pub struct Manager {
    /// Whether the exclusive execution guard is currently held by an
    /// in-progress run.
    pub guard_held: bool,
    /// Whether an instantiated, initialized guest environment exists.
    pub env_ready: bool,
    /// Identifier passed once to guest initialization; immutable for the
    /// manager's lifetime.
    pub id_name: String,
    /// Optional log-tag string passed once to guest initialization.
    pub log_tags: Option<String>,
    /// Whether the manager emits its own diagnostics.
    pub logging: bool,
}

impl Manager {
    /// Whether the exclusive execution guard is held.
    pub open spec fn held(self) -> bool {
        self.guard_held
    }

    /// Whether an instantiated, initialized guest environment exists.
    pub open spec fn started(self) -> bool {
        self.env_ready
    }

    /// The construction-time configuration of `self` and `other` agree.
    pub open spec fn same_config(self, other: Manager) -> bool {
        &&& self.id_name == other.id_name
        &&& self.log_tags == other.log_tags
        &&& self.logging == other.logging
    }

    /// A new manager: guard free, no environment yet.
    pub fn new(id_name: String, log_tags: Option<String>, logging: bool) -> (m: Manager)
        ensures
            !m.held(),
            !m.started(),
            m.id_name == id_name,
            m.log_tags == log_tags,
            m.logging == logging,
    {
        Manager { guard_held: false, env_ready: false, id_name, log_tags, logging }
    }

    /// Non-blocking probe: true iff the exclusive guard is currently held
    /// by an in-progress execution.
    pub fn is_running(&self) -> (r: bool)
        ensures
            r == self.held(),
    {
        self.guard_held
    }

    /// Attempts to acquire the exclusive execution guard.  When the guard
    /// is already held the attempt fails immediately with
    /// [`RunError::AlreadyRunning`] and changes nothing; it never waits
    /// for the holder.  Otherwise the guard becomes held and nothing else
    /// changes.
    pub fn try_begin_run(&mut self) -> (r: Result<(), RunError>)
        ensures
            old(self).held() ==> {
                &&& r matches Err(e) && e is AlreadyRunning
                &&& *final(self) == *old(self)
            },
            !old(self).held() ==> {
                &&& r is Ok
                &&& final(self).held()
                &&& final(self).started() == old(self).started()
                &&& final(self).same_config(*old(self))
            },
    {
        if self.guard_held {
            Err(RunError::AlreadyRunning)
        } else {
            self.guard_held = true;
            Ok(())
        }
    }

    /// Whether a run must attempt instantiation before driving the message
    /// loop: true iff no environment exists yet.  Instantiation is a no-op
    /// on a manager whose environment already exists.
    pub fn needs_instantiation(&self) -> (r: bool)
        ensures
            r == !self.started(),
    {
        !self.env_ready
    }

    /// Records the outcome of one instantiation attempt (building the
    /// guest instance and calling its initialization entry point).  On
    /// success the environment exists from now on; on failure the manager
    /// keeps no environment, so a later run attempt retries instantiation
    /// from scratch.  The failure itself is absorbed here, not propagated.
    pub fn note_instantiation(&mut self, init_ok: bool)
        requires
            !old(self).started(),
        ensures
            final(self).started() == init_ok,
            final(self).held() == old(self).held(),
            final(self).same_config(*old(self)),
    {
        self.env_ready = init_ok;
    }

    /// Driving the guest's message loop requires an instantiated,
    /// initialized environment; without one the run fails with
    /// [`RunError::NotStarted`].
    pub fn require_started(&self) -> (r: Result<(), RunError>)
        ensures
            self.started() ==> r is Ok,
            !self.started() ==> (r matches Err(e) && e is NotStarted),
    {
        if self.env_ready {
            Ok(())
        } else {
            Err(RunError::NotStarted)
        }
    }

    /// Releases the exclusive guard at the end of a run — on success and
    /// on every failure path alike — and yields the run's outcome
    /// unmodified.
    pub fn finish_run(&mut self, outcome: Result<(), RunError>) -> (r: Result<(), RunError>)
        requires
            old(self).held(),
        ensures
            !final(self).held(),
            final(self).started() == old(self).started(),
            final(self).same_config(*old(self)),
            r == outcome,
    {
        self.guard_held = false;
        outcome
    }

    /// One complete run attempt, with the outcomes of the suspending
    /// engine work passed in as plain values: `init_ok` is whether an
    /// instantiation attempt (made only when no environment exists)
    /// succeeded, and `loop_result` is what the guest's message loop
    /// returned (consulted only when an environment exists to drive).
    ///
    /// When the guard is already held, the attempt fails immediately with
    /// [`RunError::AlreadyRunning`] and changes nothing.  Otherwise the
    /// guard is released again by the time this returns, and:
    /// instantiation is attempted exactly when no environment existed;
    /// without an environment the run fails with [`RunError::NotStarted`];
    /// with one, the message loop's success is passed through and its
    /// fault becomes [`RunError::Guest`] carrying the guest's reason
    /// unmodified.
    pub fn run_with(&mut self, init_ok: bool, loop_result: Result<(), String>) -> (r: Result<
        (),
        RunError,
    >)
        ensures
            old(self).held() ==> (r matches Err(e) && e is AlreadyRunning),
            old(self).held() ==> *final(self) == *old(self),
            !old(self).held() ==> !final(self).held(),
            !old(self).held() ==> final(self).same_config(*old(self)),
            !old(self).held() ==> final(self).started() == (old(self).started() || init_ok),
            !old(self).held() && !(old(self).started() || init_ok) ==> (r matches Err(e)
                && e is NotStarted),
            !old(self).held() && (old(self).started() || init_ok) && loop_result is Ok ==> r is Ok,
            !old(self).held() && (old(self).started() || init_ok) ==> (loop_result matches Err(m)
                ==> (r matches Err(e) && e matches RunError::Guest(g) && g == m)),
    {
        match self.try_begin_run() {
            Err(e) => Err(e),
            Ok(()) => {
                if self.needs_instantiation() {
                    self.note_instantiation(init_ok);
                }
                let outcome = match self.require_started() {
                    Ok(()) => match loop_result {
                        Ok(()) => Ok(()),
                        Err(m) => Err(RunError::Guest(m)),
                    },
                    Err(e) => Err(e),
                };
                self.finish_run(outcome)
            },
        }
    }

    /// Best-effort diagnostic hook: closes nothing, cancels nothing and
    /// releases nothing — an in-flight run keeps the guard until it
    /// finishes on its own.
    pub fn close(&self) {
    }
}

/// The guest binary's path when none was configured.
pub fn effective_guest_path(configured: Option<String>) -> (r: String)
    ensures
        configured matches Some(p) ==> r == p,
        configured is None ==> r@ == "../env.wasm"@,
{
    match configured {
        Some(p) => p,
        None => "../env.wasm".to_owned(),
    }
}

/// The compiled-artifact cache path when none was configured.
pub fn effective_cache_path(configured: Option<String>) -> (r: String)
    ensures
        configured matches Some(p) ==> r == p,
        configured is None ==> r@ == "env.wasm.compiled"@,
{
    match configured {
        Some(p) => p,
        None => "env.wasm.compiled".to_owned(),
    }
}

/// Whether the environment toggle forces cache invalidation: exactly when
/// the variable is present with the value `"1"`.
pub fn force_from_env(value: Option<String>) -> (r: bool)
    ensures
        r == (value matches Some(v) && v@ == "1"@),
{
    match value {
        Some(v) => v == "1".to_owned(),
        None => false,
    }
}

} // verus!
