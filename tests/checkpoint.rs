use wasix_process::checkpoint::{
    MaybeCheckpointResult, RendezvousAction, SnapshotTrigger, WasiProcessCheckpoint,
};
use wasix_process::ids::{WasiProcessId, WasiThreadId};
use wasix_process::process::{ModuleHash, WasiProcess};

fn three_threads() -> WasiProcess {
    let mut p = WasiProcess::new(WasiProcessId(1), ModuleHash(Vec::new()), None);
    p.new_thread(Ok(()), None).unwrap();
    p.new_thread(Ok(()), Some(Ok(2))).unwrap();
    p.new_thread(Ok(()), Some(Ok(3))).unwrap();
    p
}

#[test]
fn execute_phase_is_not_a_checkpoint() {
    let p = three_threads();
    assert_eq!(p.inner.maybe_checkpoint(), MaybeCheckpointResult::NotThisTime);
}

#[test]
fn last_arrival_writes_and_releases_everyone() {
    let mut p = three_threads();
    let trigger = SnapshotTrigger::Explicit;
    let r = p.inner.checkpoint(WasiProcessCheckpoint::Snapshot { trigger });
    assert_eq!(r, MaybeCheckpointResult::Unwinding);
    assert_eq!(p.inner.maybe_checkpoint(), MaybeCheckpointResult::Unwinding);

    assert_eq!(p.inner.rendezvous(WasiThreadId(2)), RendezvousAction::Wait);
    assert_eq!(p.inner.rendezvous(WasiThreadId(1)), RendezvousAction::Wait);
    // A woken thread that checks again before everyone arrived waits again.
    assert_eq!(p.inner.rendezvous(WasiThreadId(2)), RendezvousAction::Wait);
    assert_eq!(p.inner.rendezvous(WasiThreadId(3)), RendezvousAction::WriteSnapshot(trigger));
    // While the snapshot is written nobody else writes or resumes.
    assert_eq!(p.inner.rendezvous(WasiThreadId(1)), RendezvousAction::Wait);
    assert_eq!(p.inner.checkpoint, WasiProcessCheckpoint::Snapshot { trigger });

    p.inner.snapshot_written(WasiThreadId(3), true);
    assert_eq!(p.inner.checkpoint, WasiProcessCheckpoint::Execute);
    assert!(!p.inner.threads[2].check_pointing);

    assert_eq!(p.inner.rendezvous(WasiThreadId(1)), RendezvousAction::Resume);
    assert_eq!(p.inner.rendezvous(WasiThreadId(2)), RendezvousAction::Resume);
    assert_eq!(p.inner.rendezvous(WasiThreadId(3)), RendezvousAction::Resume);
    assert!(p.inner.threads.iter().all(|t| !t.check_pointing));
    assert_eq!(p.inner.maybe_checkpoint(), MaybeCheckpointResult::NotThisTime);
}

#[test]
fn failed_snapshot_keeps_phase() {
    let mut p = three_threads();
    let trigger = SnapshotTrigger::Idle;
    p.inner.checkpoint(WasiProcessCheckpoint::Snapshot { trigger });
    p.inner.rendezvous(WasiThreadId(1));
    p.inner.rendezvous(WasiThreadId(2));
    assert_eq!(p.inner.rendezvous(WasiThreadId(3)), RendezvousAction::WriteSnapshot(trigger));
    p.inner.snapshot_written(WasiThreadId(3), false);
    assert_eq!(p.inner.checkpoint, WasiProcessCheckpoint::Snapshot { trigger });
    // Everyone is still marked, so the next one to check writes again.
    assert_eq!(p.inner.rendezvous(WasiThreadId(1)), RendezvousAction::WriteSnapshot(trigger));
}

#[test]
fn single_thread_writes_at_once() {
    let mut p = WasiProcess::new(WasiProcessId(4), ModuleHash(Vec::new()), None);
    p.new_thread(Ok(()), None).unwrap();
    let trigger = SnapshotTrigger::PeriodicInterval;
    p.inner.checkpoint(WasiProcessCheckpoint::Snapshot { trigger });
    assert_eq!(p.inner.rendezvous(WasiThreadId(4)), RendezvousAction::WriteSnapshot(trigger));
    p.inner.snapshot_written(WasiThreadId(4), true);
    assert_eq!(p.inner.rendezvous(WasiThreadId(4)), RendezvousAction::Resume);
}

#[test]
fn checkpoint_to_execute_does_nothing() {
    let mut p = three_threads();
    assert_eq!(
        p.inner.checkpoint(WasiProcessCheckpoint::Execute),
        MaybeCheckpointResult::NotThisTime
    );
}

#[test]
fn request_does_not_replace_pending_snapshot() {
    let mut p = three_threads();
    let first = WasiProcessCheckpoint::Snapshot { trigger: SnapshotTrigger::Explicit };
    p.inner.checkpoint(first);
    let r = p.inner.checkpoint(WasiProcessCheckpoint::Snapshot { trigger: SnapshotTrigger::Idle });
    assert_eq!(r, MaybeCheckpointResult::Unwinding);
    assert_eq!(p.inner.checkpoint, first);
    let r = p.inner.checkpoint(WasiProcessCheckpoint::Execute);
    assert_eq!(r, MaybeCheckpointResult::Unwinding);
    assert_eq!(p.inner.checkpoint, first);
}
