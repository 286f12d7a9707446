use sandbox_host::cache::{
    is_stale, resolve_step, FileStamp, ResolveAction, ResolveEvent, ResolveOutcome, ResolveState,
};

fn stamp(len: u64, mtime: Option<i64>) -> FileStamp {
    FileStamp { len, mtime }
}

#[test]
fn first_resolve_compiles_and_writes() {
    let mut st = ResolveState::Deciding;
    let a = resolve_step(
        &mut st,
        ResolveEvent::Observed {
            force: false,
            compiled: None,
            source: Some(stamp(1024, Some(100))),
        },
    );
    assert!(matches!(a, ResolveAction::Build));
    let a2 = resolve_step(
        &mut st,
        ResolveEvent::BuildFinished { result: Ok(true) },
    );
    match a2 {
        ResolveAction::Finish(ResolveOutcome::Rebuilt { persisted }) => assert!(persisted),
        _ => panic!("expected a finished rebuild"),
    }
}

#[test]
fn second_resolve_reuses_cache_without_recompiling() {
    // The stamp a successful rebuild leaves behind: nonempty, not older
    // than the source.
    let mut st = ResolveState::Deciding;
    let a = resolve_step(
        &mut st,
        ResolveEvent::Observed {
            force: false,
            compiled: Some(stamp(2048, Some(100))),
            source: Some(stamp(1024, Some(100))),
        },
    );
    assert!(matches!(a, ResolveAction::TryLoad));
    let a2 = resolve_step(&mut st, ResolveEvent::LoadFinished { ok: true });
    assert!(matches!(
        a2,
        ResolveAction::Finish(ResolveOutcome::FromCache)
    ));
}

#[test]
fn zero_length_cache_recompiles() {
    assert!(is_stale(
        false,
        &Some(stamp(0, Some(200))),
        &Some(stamp(1024, Some(100))),
    ));
}

#[test]
fn older_cache_recompiles() {
    assert!(is_stale(
        false,
        &Some(stamp(2048, Some(99))),
        &Some(stamp(1024, Some(100))),
    ));
}

#[test]
fn equal_mtimes_do_not_recompile() {
    assert!(!is_stale(
        false,
        &Some(stamp(2048, Some(100))),
        &Some(stamp(1024, Some(100))),
    ));
}

#[test]
fn missing_mtime_does_not_count_as_older() {
    assert!(!is_stale(
        false,
        &Some(stamp(2048, None)),
        &Some(stamp(1024, Some(100))),
    ));
    assert!(!is_stale(
        false,
        &Some(stamp(2048, Some(100))),
        &Some(stamp(1024, None)),
    ));
}

#[test]
fn force_recompiles_fresh_cache() {
    assert!(is_stale(
        true,
        &Some(stamp(2048, Some(200))),
        &Some(stamp(1024, Some(100))),
    ));
}

#[test]
fn missing_cache_recompiles() {
    assert!(is_stale(false, &None, &Some(stamp(1024, Some(100)))));
}

#[test]
fn missing_source_metadata_still_loads_cache() {
    // No staleness rule reads the source alone: a nonempty cache file is
    // loaded even when the guest binary's metadata is unavailable.
    assert!(!is_stale(false, &Some(stamp(2048, Some(200))), &None));
    let mut st = ResolveState::Deciding;
    let a = resolve_step(
        &mut st,
        ResolveEvent::Observed {
            force: false,
            compiled: Some(stamp(2048, Some(200))),
            source: None,
        },
    );
    assert!(matches!(a, ResolveAction::TryLoad));
    let a2 = resolve_step(&mut st, ResolveEvent::LoadFinished { ok: true });
    assert!(matches!(
        a2,
        ResolveAction::Finish(ResolveOutcome::FromCache)
    ));
}

#[test]
fn missing_source_fails_only_after_load_and_rebuild_fail() {
    let mut st = ResolveState::Deciding;
    resolve_step(
        &mut st,
        ResolveEvent::Observed {
            force: false,
            compiled: Some(stamp(2048, Some(200))),
            source: None,
        },
    );
    let a = resolve_step(&mut st, ResolveEvent::LoadFinished { ok: false });
    assert!(matches!(a, ResolveAction::Build));
    let a2 = resolve_step(
        &mut st,
        ResolveEvent::BuildFinished {
            result: Err("No such file or directory".to_string()),
        },
    );
    match a2 {
        ResolveAction::Finish(ResolveOutcome::Failed(reason)) => {
            assert_eq!(reason, "No such file or directory");
        }
        _ => panic!("expected a failed resolution"),
    }
}

#[test]
fn deserialize_failure_falls_back_to_rebuild() {
    let mut st = ResolveState::Deciding;
    resolve_step(
        &mut st,
        ResolveEvent::Observed {
            force: false,
            compiled: Some(stamp(2048, Some(200))),
            source: Some(stamp(1024, Some(100))),
        },
    );
    let a = resolve_step(&mut st, ResolveEvent::LoadFinished { ok: false });
    assert!(matches!(a, ResolveAction::Build));
    let a2 = resolve_step(
        &mut st,
        ResolveEvent::BuildFinished { result: Ok(true) },
    );
    assert!(matches!(
        a2,
        ResolveAction::Finish(ResolveOutcome::Rebuilt { persisted: true })
    ));
}

#[test]
fn cache_write_failure_is_not_fatal() {
    let mut st = ResolveState::Deciding;
    resolve_step(
        &mut st,
        ResolveEvent::Observed {
            force: true,
            compiled: Some(stamp(2048, Some(200))),
            source: Some(stamp(1024, Some(100))),
        },
    );
    let a = resolve_step(
        &mut st,
        ResolveEvent::BuildFinished { result: Ok(false) },
    );
    assert!(matches!(
        a,
        ResolveAction::Finish(ResolveOutcome::Rebuilt { persisted: false })
    ));
}

#[test]
fn compile_failure_ends_resolution_with_reason() {
    let mut st = ResolveState::Deciding;
    resolve_step(
        &mut st,
        ResolveEvent::Observed {
            force: false,
            compiled: None,
            source: None,
        },
    );
    let a = resolve_step(
        &mut st,
        ResolveEvent::BuildFinished {
            result: Err("No such file or directory".to_string()),
        },
    );
    match a {
        ResolveAction::Finish(ResolveOutcome::Failed(reason)) => {
            assert_eq!(reason, "No such file or directory");
        }
        _ => panic!("expected a failed resolution"),
    }
}
