//! Compiled-artifact cache: staleness policy and resolution protocol.
//!
//! The guest binary is compiled into an artifact that is kept at a cache
//! path across process restarts.  The cache is never the source of truth:
//! whenever it is judged stale it is rebuilt from the guest binary, and a
//! cached file that fails to deserialize is treated as stale rather than as
//! an error.  This module decides; reading file metadata, deserializing,
//! compiling and writing are performed by the surrounding program, which
//! reports each outcome back as a plain value.

use vstd::prelude::*;

verus! {

/// What the filesystem reports about one file that exists and could be
/// inspected: its length in bytes and, when the filesystem could produce
/// one, its modification time (as a count of an arbitrary monotone unit).
/// A file whose metadata could not be retrieved at all is represented as
/// `None` where an `Option<FileStamp>` is expected.
#[derive(Clone, Copy)]
pub struct FileStamp {
    pub len: u64,
    pub mtime: Option<i64>,
}

/// The staleness policy for the cached artifact, checked against the
/// metadata of the cache file (`compiled`) and of the guest binary
/// (`source`).  The cache is stale when recompilation is forced, when the
/// cache file's metadata is unavailable, when the cache file is empty, or
/// when both modification times are available and the cache's is strictly
/// earlier than the source's.  No rule reads the source alone: a usable
/// cache is loaded even when the source's metadata cannot be retrieved.
pub open spec fn stale(force: bool, compiled: Option<FileStamp>, source: Option<FileStamp>) -> bool {
    ||| force
    ||| compiled is None
    ||| compiled->0.len == 0
    ||| {
        &&& compiled->0.mtime is Some
        &&& source is Some
        &&& source->0.mtime is Some
        &&& compiled->0.mtime->0 < source->0.mtime->0
    }
}

/// Decides whether the cached artifact must be rebuilt, per [`stale`].
pub fn is_stale(force: bool, compiled: &Option<FileStamp>, source: &Option<FileStamp>) -> (r: bool)
    ensures
        r == stale(force, *compiled, *source),
{
    if force {
        return true;
    }
    match compiled {
        None => true,
        Some(c) => {
            if c.len == 0 {
                true
            } else {
                match (c.mtime, source) {
                    (Some(cm), Some(s)) => match s.mtime {
                        Some(sm) => cm < sm,
                        None => false,
                    },
                    _ => false,
                }
            }
        },
    }
}

/// How a finished resolution produced (or failed to produce) the artifact.
pub enum ResolveOutcome {
    /// The cached artifact deserialized cleanly and was reused; nothing
    /// was recompiled.
    FromCache,
    /// The guest binary was read and compiled afresh; `persisted` says
    /// whether the best-effort write of the compiled bytes to the cache
    /// path succeeded.  A failed write is not fatal: the artifact is
    /// usable in memory either way.
    Rebuilt { persisted: bool },
    /// Reading or compiling the guest binary failed; carries the reason.
    Failed(String),
}

/// Where a resolution stands.
pub enum ResolveState {
    /// Nothing observed yet: the file metadata is still to be gathered.
    Deciding,
    /// The cache was judged fresh; deserialization of the cache file is
    /// in flight.
    Loading,
    /// The cache was judged stale (or failed to deserialize); reading and
    /// compiling the guest binary is in flight.
    Building,
    /// The resolution is over.
    Done,
}

/// What the surrounding program observed and reports back to the
/// resolution.
pub enum ResolveEvent {
    /// The file metadata, gathered once at the start: `force` is the
    /// caller's recompilation override, the two stamps are the cache
    /// file's and the guest binary's.
    Observed { force: bool, compiled: Option<FileStamp>, source: Option<FileStamp> },
    /// Whether deserializing the cache file produced an artifact.
    LoadFinished { ok: bool },
    /// How reading, compiling and best-effort writing went: on success,
    /// whether the write to the cache path succeeded; on failure, the
    /// reason.
    BuildFinished { result: Result<bool, String> },
}

/// What the surrounding program must do next.
pub enum ResolveAction {
    /// Deserialize the cache file into an artifact.
    TryLoad,
    /// Read the guest binary, compile it, and best-effort write the
    /// compiled bytes to the cache path.
    Build,
    /// The resolution is over with this outcome.
    Finish(ResolveOutcome),
}

/// Whether `event` is the one that `state` awaits.
pub open spec fn resolve_event_fits(state: ResolveState, event: ResolveEvent) -> bool {
    match state {
        ResolveState::Deciding => event is Observed,
        ResolveState::Loading => event is LoadFinished,
        ResolveState::Building => event is BuildFinished,
        ResolveState::Done => false,
    }
}

/// One step of the resolution protocol.  A fresh-looking cache is loaded;
/// a stale one — forced, missing, empty, outdated, or one that failed to
/// deserialize — falls through to a rebuild rather than to an error; a
/// rebuild ends the resolution with its own outcome, fatal only when the
/// compilation itself (not the cache write) failed.
pub fn resolve_step(state: &mut ResolveState, event: ResolveEvent) -> (a: ResolveAction)
    requires
        resolve_event_fits(*old(state), event),
    ensures
        event matches ResolveEvent::Observed { force, compiled, source } ==> (if stale(
            force,
            compiled,
            source,
        ) {
            *final(state) is Building && a is Build
        } else {
            *final(state) is Loading && a is TryLoad
        }),
        event matches ResolveEvent::LoadFinished { ok } ==> (if ok {
            &&& *final(state) is Done
            &&& a == ResolveAction::Finish(ResolveOutcome::FromCache)
        } else {
            *final(state) is Building && a is Build
        }),
        event matches ResolveEvent::BuildFinished { result } ==> *final(state) is Done && (
        match result {
            Ok(persisted) => a == ResolveAction::Finish(ResolveOutcome::Rebuilt { persisted }),
            Err(reason) => a == ResolveAction::Finish(ResolveOutcome::Failed(reason)),
        }),
{
    match event {
        ResolveEvent::Observed { force, compiled, source } => {
            if is_stale(force, &compiled, &source) {
                *state = ResolveState::Building;
                ResolveAction::Build
            } else {
                *state = ResolveState::Loading;
                ResolveAction::TryLoad
            }
        },
        ResolveEvent::LoadFinished { ok } => {
            if ok {
                *state = ResolveState::Done;
                ResolveAction::Finish(ResolveOutcome::FromCache)
            } else {
                *state = ResolveState::Building;
                ResolveAction::Build
            }
        },
        ResolveEvent::BuildFinished { result } => {
            *state = ResolveState::Done;
            match result {
                Ok(persisted) => ResolveAction::Finish(ResolveOutcome::Rebuilt { persisted }),
                Err(reason) => ResolveAction::Finish(ResolveOutcome::Failed(reason)),
            }
        },
    }
}

/// Forcing recompilation makes the cache stale whatever the files look
/// like.
pub proof fn lemma_force_is_stale(compiled: Option<FileStamp>, source: Option<FileStamp>)
    ensures
        stale(true, compiled, source),
{
}

/// An empty cache file is stale whatever its modification time.
pub proof fn lemma_empty_cache_is_stale(
    force: bool,
    compiled: FileStamp,
    source: Option<FileStamp>,
)
    requires
        compiled.len == 0,
    ensures
        stale(force, Some(compiled), source),
{
}

/// A cache file modified strictly earlier than the guest binary is stale.
pub proof fn lemma_older_cache_is_stale(force: bool, compiled: FileStamp, source: FileStamp)
    requires
        compiled.mtime matches Some(cm) && source.mtime matches Some(sm) && cm < sm,
    ensures
        stale(force, Some(compiled), Some(source)),
{
}

/// The first resolution against an absent cache file must rebuild; a
/// later resolution that finds the stamp such a rebuild leaves behind —
/// a nonempty cache file not modified earlier than the guest binary —
/// judges the cache fresh and loads it instead of rebuilding.
pub proof fn lemma_fresh_write_is_reused(source: FileStamp, written: FileStamp)
    requires
        written.len > 0,
        written.mtime matches Some(wm) ==> (source.mtime matches Some(sm) ==> wm >= sm),
    ensures
        stale(false, None::<FileStamp>, Some(source)),
        !stale(false, Some(written), Some(source)),
{
}

} // verus!
