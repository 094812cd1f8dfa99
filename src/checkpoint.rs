use vstd::prelude::*;
use crate::ids::WasiThreadId;
use crate::process::{has_tid, same_throttle, WasiProcessInner, WasiThread};

verus! {

/// Why a snapshot was requested.
#[derive(Clone, Copy, PartialEq, Eq, Structural, PartialOrd, Ord, Hash, Debug)]
pub enum SnapshotTrigger {
    /// Requested from outside the process.
    Explicit,
    /// Taken on a timer.
    PeriodicInterval,
    /// Taken when the process went idle.
    Idle,
    /// Taken at the first listening socket.
    FirstListen,
    /// Taken on an interrupt signal.
    Sigint,
}

/// A freeze of all threads of a process so that its state can be captured.
#[derive(Clone, Copy, PartialEq, Eq, Structural, PartialOrd, Ord, Hash, Debug)]
pub enum WasiProcessCheckpoint {
    /// No checkpoint is pending; threads run normally.
    Execute,
    /// A snapshot of the memory and the threads is requested.
    Snapshot { trigger: SnapshotTrigger },
}

/// What a thread at a safe suspension point does next.
#[derive(Clone, Copy, PartialEq, Eq, Structural, Debug)]
pub enum MaybeCheckpointResult {
    /// No checkpoint is pending: carry on.
    NotThisTime,
    /// A checkpoint is pending: capture the thread's state and enter the
    /// rendezvous.
    Unwinding,
}

/// One decision of the checkpoint rendezvous, taken under the process lock.
#[derive(Clone, Copy, PartialEq, Eq, Structural, Debug)]
pub enum RendezvousAction {
    /// Every thread has arrived and this one is the last: write the
    /// whole-process snapshot, then report with `snapshot_written`.
    WriteSnapshot(SnapshotTrigger),
    /// Block on the rendezvous wait and try again when woken.
    Wait,
    /// The checkpoint is over: restore the captured state and resume.
    Resume,
}

/// Every thread of the table is marked as check-pointing.
pub open spec fn all_check_pointing(threads: Seq<WasiThread>) -> bool {
    forall|i: int| 0 <= i < threads.len() ==> threads[i].check_pointing
}

/// The table with the mark of `tid` set to `mark`, all else kept.
pub open spec fn marked(threads: Seq<WasiThread>, tid: WasiThreadId, mark: bool) -> Seq<WasiThread> {
    threads.map_values(
        |t: WasiThread|
            if t.tid == tid {
                WasiThread { check_pointing: mark, ..t }
            } else {
                t
            },
    )
}

/// What `rendezvous` guarantees, relating the state before and after it.
pub open spec fn rendezvous_post(
    pre: WasiProcessInner,
    post: WasiProcessInner,
    tid: WasiThreadId,
    a: RendezvousAction,
) -> bool {
    &&& post.pid == pre.pid
    &&& post.thread_count == pre.thread_count
    &&& post.children@ == pre.children@
    &&& post.signal_intervals@ == pre.signal_intervals@
    &&& post.snapshots@ == pre.snapshots@
    &&& post.checkpoint == pre.checkpoint
    &&& same_throttle(pre, post)
    &&& match pre.checkpoint {
        WasiProcessCheckpoint::Execute => {
            &&& a == RendezvousAction::Resume
            &&& post.threads@ == marked(pre.threads@, tid, false)
            &&& post.snapshot_writing == pre.snapshot_writing
        },
        WasiProcessCheckpoint::Snapshot { trigger } => {
            &&& post.threads@ == marked(pre.threads@, tid, true)
            &&& if !pre.snapshot_writing && all_check_pointing(post.threads@) {
                a == RendezvousAction::WriteSnapshot(trigger) && post.snapshot_writing
            } else {
                a == RendezvousAction::Wait && post.snapshot_writing == pre.snapshot_writing
            }
        },
    }
}

/// What `snapshot_written` guarantees, relating the state before and after it.
pub open spec fn snapshot_written_post(
    pre: WasiProcessInner,
    post: WasiProcessInner,
    tid: WasiThreadId,
    ok: bool,
) -> bool {
    &&& post.pid == pre.pid
    &&& post.thread_count == pre.thread_count
    &&& post.children@ == pre.children@
    &&& post.signal_intervals@ == pre.signal_intervals@
    &&& !post.snapshot_writing
    &&& same_throttle(pre, post)
    &&& if ok {
        &&& post.checkpoint == WasiProcessCheckpoint::Execute
        &&& post.snapshots@ == pre.snapshots@ + 1
        &&& post.threads@ == marked(pre.threads@, tid, false)
    } else {
        &&& post.checkpoint == pre.checkpoint
        &&& post.snapshots@ == pre.snapshots@
        &&& post.threads@ == pre.threads@
    }
}

impl WasiProcessInner {
    /// Sets the mark of `tid` (and of no other thread) to `mark`.
    fn set_check_pointing(&mut self, tid: WasiThreadId, mark: bool)
        requires
            old(self).wf(),
        ensures
            final(self).wf(),
            final(self).threads@ == marked(old(self).threads@, tid, mark),
            final(self).pid == old(self).pid,
            final(self).thread_count == old(self).thread_count,
            final(self).children@ == old(self).children@,
            final(self).signal_intervals@ == old(self).signal_intervals@,
            final(self).checkpoint == old(self).checkpoint,
            final(self).snapshot_writing == old(self).snapshot_writing,
            final(self).snapshots@ == old(self).snapshots@,
            final(self).cpu_backoff_wakers@ == old(self).cpu_backoff_wakers@,
            final(self).cpu_backoff_waker_seed == old(self).cpu_backoff_waker_seed,
            final(self).cpu_backoff_time == old(self).cpu_backoff_time,
            final(self).cpu_run_cool_off == old(self).cpu_run_cool_off,
            final(self).max_cpu_backoff_time == old(self).max_cpu_backoff_time,
            final(self).max_cpu_cool_off_time == old(self).max_cpu_cool_off_time,
    {
        let ghost pre = self.threads@;
        let mut i: usize = 0;
        while i < self.threads.len()
            invariant
                i <= self.threads@.len(),
                self.threads@.len() == pre.len(),
                forall|j: int| 0 <= j < i ==> self.threads@[j] == marked(pre, tid, mark)[j],
                forall|j: int| i <= j < pre.len() ==> self.threads@[j] == pre[j],
                pre == old(self).threads@,
                self.pid == old(self).pid,
                self.thread_count == old(self).thread_count,
                self.children@ == old(self).children@,
                self.signal_intervals@ == old(self).signal_intervals@,
                self.checkpoint == old(self).checkpoint,
                self.snapshot_writing == old(self).snapshot_writing,
                self.snapshots@ == old(self).snapshots@,
                self.cpu_backoff_wakers@ == old(self).cpu_backoff_wakers@,
                self.cpu_backoff_waker_seed == old(self).cpu_backoff_waker_seed,
                self.cpu_backoff_time == old(self).cpu_backoff_time,
                self.cpu_run_cool_off == old(self).cpu_run_cool_off,
                self.max_cpu_backoff_time == old(self).max_cpu_backoff_time,
                self.max_cpu_cool_off_time == old(self).max_cpu_cool_off_time,
            decreases self.threads@.len() - i,
        {
            let t = self.threads[i];
            if t.tid == tid {
                self.threads.set(i, WasiThread { check_pointing: mark, ..t });
            }
            i = i + 1;
        }
        assert(self.threads@ =~= marked(pre, tid, mark));
        assert forall|j: int| 0 <= j < pre.len() implies self.threads@[j].tid == pre[j].tid
            && self.threads@[j].is_main == pre[j].is_main by {
            assert(self.threads@[j] == marked(pre, tid, mark)[j]);
        }
    }

    /// Requests a checkpoint: when no snapshot is pending the phase becomes
    /// `for_what`; a pending snapshot is left as it is (its cycle is not
    /// replaced nor ended from outside). Then decides as `maybe_checkpoint`
    /// does.
    pub fn checkpoint(&mut self, for_what: WasiProcessCheckpoint) -> (r: MaybeCheckpointResult)
        requires
            old(self).wf(),
        ensures
            final(self).wf(),
            final(self).checkpoint == (if old(self).checkpoint is Execute {
                for_what
            } else {
                old(self).checkpoint
            }),
            final(self).threads@ == old(self).threads@,
            final(self).snapshots@ == old(self).snapshots@,
            final(self).snapshot_writing == old(self).snapshot_writing,
            final(self).pid == old(self).pid,
            final(self).thread_count == old(self).thread_count,
            final(self).children@ == old(self).children@,
            final(self).signal_intervals@ == old(self).signal_intervals@,
            same_throttle(*old(self), *final(self)),
            r == (if final(self).checkpoint is Execute {
                MaybeCheckpointResult::NotThisTime
            } else {
                MaybeCheckpointResult::Unwinding
            }),
    {
        if let WasiProcessCheckpoint::Execute = self.checkpoint {
            self.checkpoint = for_what;
        }
        self.maybe_checkpoint()
    }

    /// Called by a thread at a safe suspension point: whether it must take
    /// part in a pending checkpoint.
    pub fn maybe_checkpoint(&self) -> (r: MaybeCheckpointResult)
        ensures
            r == (if self.checkpoint is Execute {
                MaybeCheckpointResult::NotThisTime
            } else {
                MaybeCheckpointResult::Unwinding
            }),
    {
        match self.checkpoint {
            WasiProcessCheckpoint::Execute => MaybeCheckpointResult::NotThisTime,
            WasiProcessCheckpoint::Snapshot { .. } => MaybeCheckpointResult::Unwinding,
        }
    }

    /// One round of the rendezvous for thread `tid`, whose state has been
    /// captured and saved. While a snapshot is pending the thread is marked
    /// as check-pointing; the last one to arrive is told to write the
    /// snapshot, the others to wait. Once the phase is back to `Execute` the
    /// thread's mark is cleared and it resumes.
    pub fn rendezvous(&mut self, tid: WasiThreadId) -> (a: RendezvousAction)
        requires
            old(self).wf(),
        ensures
            final(self).wf(),
            rendezvous_post(*old(self), *final(self), tid, a),
    {
        match self.checkpoint {
            WasiProcessCheckpoint::Snapshot { trigger } => {
                self.set_check_pointing(tid, true);
                if !self.snapshot_writing && self.all_threads_check_pointing() {
                    self.snapshot_writing = true;
                    RendezvousAction::WriteSnapshot(trigger)
                } else {
                    RendezvousAction::Wait
                }
            },
            WasiProcessCheckpoint::Execute => {
                self.set_check_pointing(tid, false);
                RendezvousAction::Resume
            },
        }
    }

    /// Reports the outcome of the snapshot write that `rendezvous` asked
    /// thread `tid` for. On success the writer's mark is cleared and the
    /// phase returns to `Execute`; on failure the phase stays. Either way
    /// every waiting thread is then to be woken.
    pub fn snapshot_written(&mut self, tid: WasiThreadId, ok: bool)
        requires
            old(self).wf(),
            old(self).snapshot_writing,
        ensures
            final(self).wf(),
            snapshot_written_post(*old(self), *final(self), tid, ok),
    {
        self.snapshot_writing = false;
        if ok {
            self.set_check_pointing(tid, false);
            self.checkpoint = WasiProcessCheckpoint::Execute;
            self.snapshots = Ghost((self.snapshots@ + 1) as nat);
        }
    }

    /// Whether every registered thread is marked as check-pointing.
    pub fn all_threads_check_pointing(&self) -> (r: bool)
        ensures
            r == all_check_pointing(self.threads@),
    {
        let mut i: usize = 0;
        while i < self.threads.len()
            invariant
                i <= self.threads@.len(),
                forall|j: int| 0 <= j < i ==> self.threads@[j].check_pointing,
            decreases self.threads@.len() - i,
        {
            if !self.threads[i].check_pointing {
                return false;
            }
            i = i + 1;
        }
        true
    }
}

/// While a snapshot is pending no thread is told to resume, and the phase
/// stays as it is: only a successful snapshot write ends it.
pub proof fn lemma_no_resume_while_pending(
    pre: WasiProcessInner,
    post: WasiProcessInner,
    tid: WasiThreadId,
    a: RendezvousAction,
)
    requires
        rendezvous_post(pre, post, tid, a),
        pre.checkpoint is Snapshot,
    ensures
        a != RendezvousAction::Resume,
        post.checkpoint == pre.checkpoint,
        post.snapshots@ == pre.snapshots@,
{
}

/// While one thread writes the snapshot, no other is told to write one.
pub proof fn lemma_single_writer(
    pre: WasiProcessInner,
    post: WasiProcessInner,
    tid: WasiThreadId,
    a: RendezvousAction,
)
    requires
        rendezvous_post(pre, post, tid, a),
        pre.snapshot_writing,
    ensures
        !(a is WriteSnapshot),
        post.snapshot_writing,
{
}

/// The last thread of the table to arrive at a pending checkpoint is told
/// to write the snapshot; a thread that arrives while another registered
/// thread has not is told to wait.
pub proof fn lemma_last_arrival_writes(
    pre: WasiProcessInner,
    post: WasiProcessInner,
    tid: WasiThreadId,
    a: RendezvousAction,
)
    requires
        pre.wf(),
        rendezvous_post(pre, post, tid, a),
        pre.checkpoint is Snapshot,
        !pre.snapshot_writing,
    ensures
        (forall|i: int|
            0 <= i < pre.threads@.len() && pre.threads@[i].tid != tid
                ==> pre.threads@[i].check_pointing) ==> a == RendezvousAction::WriteSnapshot(
            pre.checkpoint->trigger,
        ),
        (exists|i: int|
            0 <= i < pre.threads@.len() && pre.threads@[i].tid != tid
                && !pre.threads@[i].check_pointing) ==> a == RendezvousAction::Wait,
{
    let m = marked(pre.threads@, tid, true);
    assert forall|i: int| 0 <= i < m.len() implies m[i].check_pointing == (pre.threads@[i].tid
        == tid || pre.threads@[i].check_pointing) by {}
    if exists|i: int|
        0 <= i < pre.threads@.len() && pre.threads@[i].tid != tid
            && !pre.threads@[i].check_pointing {
        let i = choose|i: int|
            0 <= i < pre.threads@.len() && pre.threads@[i].tid != tid
                && !pre.threads@[i].check_pointing;
        assert(!m[i].check_pointing);
    }
}

/// A successful snapshot write ends the checkpoint: the phase is back to
/// `Execute` and exactly one more snapshot has been written. A failed one
/// leaves the phase and the count as they were.
pub proof fn lemma_write_ends_checkpoint(
    pre: WasiProcessInner,
    post: WasiProcessInner,
    tid: WasiThreadId,
    ok: bool,
)
    requires
        snapshot_written_post(pre, post, tid, ok),
    ensures
        ok ==> post.checkpoint is Execute && post.snapshots@ == pre.snapshots@ + 1,
        !ok ==> post.checkpoint == pre.checkpoint && post.snapshots@ == pre.snapshots@,
{
}

/// The conditions of one checkpoint cycle: from a pending snapshot with no
/// thread marked and no write under way, the threads `tids` (distinct, each
/// registered, every registered thread among them) arrive in this order,
/// `states[k]` to `states[k + 1]` being the arrival of `tids[k]`.
pub open spec fn cycle_arrivals(
    states: Seq<WasiProcessInner>,
    tids: Seq<WasiThreadId>,
    acts: Seq<RendezvousAction>,
) -> bool {
    &&& tids.len() >= 1
    &&& states.len() == tids.len() + 1
    &&& acts.len() == tids.len()
    &&& states[0].checkpoint is Snapshot
    &&& !states[0].snapshot_writing
    &&& forall|i: int| 0 <= i < states[0].threads@.len() ==> !states[0].threads@[i].check_pointing
    &&& forall|a: int, b: int| 0 <= a < b < tids.len() ==> tids[a] != tids[b]
    &&& forall|j: int| 0 <= j < tids.len() ==> has_tid(states[0].threads@, tids[j])
    &&& forall|i: int|
        #![trigger states[0].threads@[i]]
        0 <= i < states[0].threads@.len() ==> exists|j: int|
            0 <= j < tids.len() && #[trigger] tids[j] == states[0].threads@[i].tid
    &&& forall|k: int| 0 <= k < tids.len() ==> rendezvous_post(states[k], states[k + 1], tids[k], acts[k])
}

proof fn lemma_cycle_prefix(
    states: Seq<WasiProcessInner>,
    tids: Seq<WasiThreadId>,
    acts: Seq<RendezvousAction>,
    k: int,
)
    requires
        cycle_arrivals(states, tids, acts),
        0 <= k < tids.len(),
    ensures
        states[k].checkpoint == states[0].checkpoint,
        !states[k].snapshot_writing,
        states[k].snapshots@ == states[0].snapshots@,
        states[k].threads@.len() == states[0].threads@.len(),
        forall|i: int|
            0 <= i < states[0].threads@.len() ==> states[k].threads@[i].tid
                == states[0].threads@[i].tid,
        forall|i: int|
            0 <= i < states[0].threads@.len() ==> (states[k].threads@[i].check_pointing
                <==> exists|j: int| 0 <= j < k && tids[j] == states[0].threads@[i].tid),
        forall|j: int| 0 <= j < k ==> acts[j] == RendezvousAction::Wait,
    decreases k,
{
    if k > 0 {
        lemma_cycle_prefix(states, tids, acts, k - 1);
        let pre = states[k - 1];
        let post = states[k];
        let t = tids[k - 1];
        assert(rendezvous_post(pre, post, t, acts[k - 1]));
        let m = marked(pre.threads@, t, true);
        assert forall|i: int| 0 <= i < states[0].threads@.len() implies (post.threads@[i].check_pointing
            <==> exists|j: int| 0 <= j < k && tids[j] == states[0].threads@[i].tid) by {
            assert(post.threads@[i] == m[i]);
            if post.threads@[i].check_pointing && pre.threads@[i].tid == t {
                assert(tids[k - 1] == states[0].threads@[i].tid);
            }
            if post.threads@[i].check_pointing && pre.threads@[i].tid != t {
                let j = choose|j: int| 0 <= j < k - 1 && tids[j] == states[0].threads@[i].tid;
                assert(0 <= j < k && tids[j] == states[0].threads@[i].tid);
            }
            if exists|j: int| 0 <= j < k && tids[j] == states[0].threads@[i].tid {
                let j = choose|j: int| 0 <= j < k && tids[j] == states[0].threads@[i].tid;
                if j < k - 1 {
                    assert(pre.threads@[i].check_pointing);
                }
            }
        }
        let last = tids[tids.len() - 1];
        let i0 = choose|i: int| 0 <= i < states[0].threads@.len() && states[0].threads@[i].tid == last;
        assert(!(exists|j: int| 0 <= j < k && tids[j] == states[0].threads@[i0].tid)) by {
            if exists|j: int| 0 <= j < k && tids[j] == states[0].threads@[i0].tid {
                let j = choose|j: int| 0 <= j < k && tids[j] == states[0].threads@[i0].tid;
                assert(tids[j] != tids[tids.len() - 1]);
            }
        }
        assert(!post.threads@[i0].check_pointing);
        assert(!all_check_pointing(post.threads@));
    }
}

/// One checkpoint cycle: when every registered thread arrives at a pending
/// checkpoint, each in turn, all but the last are told to wait and the last
/// is told to write the snapshot; until then the phase stays pending and no
/// snapshot has been written. (`lemma_write_ends_checkpoint` and
/// `rendezvous_post` then release them: the phase returns to `Execute` only
/// through that one write, and only then is a thread told to resume.)
pub proof fn lemma_checkpoint_cycle(
    states: Seq<WasiProcessInner>,
    tids: Seq<WasiThreadId>,
    acts: Seq<RendezvousAction>,
)
    requires
        cycle_arrivals(states, tids, acts),
    ensures
        forall|k: int| 0 <= k < tids.len() - 1 ==> acts[k] == RendezvousAction::Wait,
        acts[tids.len() - 1] == RendezvousAction::WriteSnapshot(states[0].checkpoint->trigger),
        forall|k: int|
            0 <= k <= tids.len() ==> (#[trigger] states[k]).checkpoint == states[0].checkpoint
                && states[k].snapshots@ == states[0].snapshots@,
        states[tids.len() as int].snapshot_writing,
{
    let n = tids.len() as int;
    lemma_cycle_prefix(states, tids, acts, n - 1);
    assert forall|k: int| 0 <= k <= n implies (#[trigger] states[k]).checkpoint
        == states[0].checkpoint && states[k].snapshots@ == states[0].snapshots@ by {
        if k < n {
            lemma_cycle_prefix(states, tids, acts, k);
        } else {
            assert(rendezvous_post(states[n - 1], states[n], tids[n - 1], acts[n - 1]));
        }
    }
    let pre = states[n - 1];
    let post = states[n];
    let t = tids[n - 1];
    assert(rendezvous_post(pre, post, t, acts[n - 1]));
    let m = marked(pre.threads@, t, true);
    assert forall|i: int| 0 <= i < post.threads@.len() implies post.threads@[i].check_pointing by {
        assert(post.threads@[i] == m[i]);
        let j = choose|j: int| 0 <= j < n && tids[j] == states[0].threads@[i].tid;
        if j < n - 1 {
            assert(pre.threads@[i].check_pointing);
        }
    }
}

/// A checkpoint request never moves the phase from one snapshot to another,
/// nor ends a pending snapshot: from `Execute` it may start one, and a
/// pending one is only ended by the barrier's successful write.
pub proof fn lemma_request_keeps_pending(
    pre: WasiProcessInner,
    post: WasiProcessInner,
    for_what: WasiProcessCheckpoint,
)
    requires
        post.checkpoint == (if pre.checkpoint is Execute {
            for_what
        } else {
            pre.checkpoint
        }),
        pre.checkpoint is Snapshot,
    ensures
        post.checkpoint == pre.checkpoint,
{
}

} // verus!
