//! Host-side lifecycle management for a single sandboxed guest program.
//!
//! The library is the decision core of a host that runs one untrusted guest
//! binary inside an isolated execution engine.  It covers three concerns:
//!
//! * [`cache`] — the compiled-artifact cache: when a cached compiled form of
//!   the guest binary may be reused and when it must be rebuilt;
//! * [`bridge`] — the host capability bridge: how a failure reported by an
//!   externally supplied capability handle is rendered into the single
//!   string that the guest is allowed to see;
//! * [`manager`] — the execution guard and lifecycle manager: lazy
//!   instantiation, the non-blocking mutual-exclusion protocol around
//!   `run`, and the errors each path yields.
//!
//! All engine, filesystem and foreign-runtime work happens outside this
//! crate; the functions here take the observed outcomes of that work as
//! plain values and decide what happens next, under contracts that pin the
//! decision down exactly.

pub mod bridge;
pub mod cache;
pub mod manager;
