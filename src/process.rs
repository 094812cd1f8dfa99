use vstd::prelude::*;
use crate::ids::{ExitCode, Signal, WasiProcessId, WasiThreadId};
use crate::checkpoint::{WasiProcessCheckpoint, SnapshotTrigger};
use crate::ids::{Errno, SignalDeliveryError};

verus! {

/// One entry of a process's thread table.
#[derive(Clone, Copy, PartialEq, Eq, Structural, Debug)]
pub struct WasiThread {
    pub tid: WasiThreadId,
    /// Whether this is the process's main thread.
    pub is_main: bool,
    /// Set while the thread waits inside a checkpoint.
    pub check_pointing: bool,
    /// Termination status of a thread other than the main one; the main
    /// thread's status is the process's own.
    pub status: Option<ExitCode>,
}

/// A periodic delivery of one signal kind.
#[derive(Clone, Copy, PartialEq, Eq, Structural, Debug)]
pub struct WasiSignalInterval {
    pub signal: Signal,
    /// Period, in nanoseconds.
    pub interval: u64,
    /// Monotonic time of the last delivery, in nanoseconds.
    pub last_signal: u64,
    /// Whether the signal repeats after the first delivery.
    pub repeat: bool,
}

/// The lock-protected state record of a process.
pub struct WasiProcessInner {
    pub pid: WasiProcessId,
    /// Thread table; identifiers are unique.
    pub threads: Vec<WasiThread>,
    /// Number of threads, kept equal to the table's length.
    pub thread_count: u32,
    /// At most one interval per signal kind.
    pub signal_intervals: Vec<WasiSignalInterval>,
    /// Live children, by identifier; identifiers are unique.
    pub children: Vec<WasiProcessId>,
    pub checkpoint: WasiProcessCheckpoint,
    /// Set while the last arriving thread writes the process snapshot.
    pub snapshot_writing: bool,
    /// Number of whole-process snapshots written so far.
    pub snapshots: Ghost<nat>,
    /// Registration ids of the pending backoff tokens; unique.
    pub cpu_backoff_wakers: Vec<u64>,
    /// Last registration id handed out.
    pub cpu_backoff_waker_seed: u64,
    /// Current backoff, in milliseconds (0 when unset).
    pub cpu_backoff_time: u64,
    /// End of the cool-off period, in nanoseconds (0 when unset).
    pub cpu_run_cool_off: u128,
    /// Largest backoff, in milliseconds.
    pub max_cpu_backoff_time: u64,
    /// Length of the cool-off period, in milliseconds.
    pub max_cpu_cool_off_time: u64,
}

/// The throttle's bookkeeping is the same in both states.
pub open spec fn same_throttle(pre: WasiProcessInner, post: WasiProcessInner) -> bool {
    &&& post.cpu_backoff_wakers@ == pre.cpu_backoff_wakers@
    &&& post.cpu_backoff_waker_seed == pre.cpu_backoff_waker_seed
    &&& post.cpu_backoff_time == pre.cpu_backoff_time
    &&& post.cpu_run_cool_off == pre.cpu_run_cool_off
    &&& post.max_cpu_backoff_time == pre.max_cpu_backoff_time
    &&& post.max_cpu_cool_off_time == pre.max_cpu_cool_off_time
}

/// The checkpoint's phase and bookkeeping are the same in both states.
pub open spec fn same_checkpoint(pre: WasiProcessInner, post: WasiProcessInner) -> bool {
    &&& post.checkpoint == pre.checkpoint
    &&& post.snapshot_writing == pre.snapshot_writing
    &&& post.snapshots@ == pre.snapshots@
}

/// The identifiers of a thread table.
pub open spec fn tids_of(threads: Seq<WasiThread>) -> Seq<WasiThreadId> {
    threads.map_values(|t: WasiThread| t.tid)
}

/// Whether `tid` names an entry of the table.
pub open spec fn has_tid(threads: Seq<WasiThread>, tid: WasiThreadId) -> bool {
    exists|i: int| 0 <= i < threads.len() && threads[i].tid == tid
}

impl WasiProcessInner {
    /// The invariant of the state record.
    pub open spec fn wf(&self) -> bool {
        &&& self.thread_count == self.threads@.len()
        &&& forall|i: int, j: int|
            0 <= i < j < self.threads@.len() ==> self.threads@[i].tid != self.threads@[j].tid
        &&& forall|i: int|
            0 <= i < self.threads@.len() ==> (self.threads@[i].is_main <==> self.threads@[i].tid.0
                == self.pid.0)
        &&& forall|i: int, j: int|
            0 <= i < j < self.signal_intervals@.len() ==> self.signal_intervals@[i].signal
                != self.signal_intervals@[j].signal
        &&& forall|i: int, j: int|
            0 <= i < j < self.children@.len() ==> self.children@[i] != self.children@[j]
        &&& forall|i: int, j: int|
            0 <= i < j < self.cpu_backoff_wakers@.len() ==> self.cpu_backoff_wakers@[i]
                != self.cpu_backoff_wakers@[j]
        &&& forall|i: int|
            0 <= i < self.cpu_backoff_wakers@.len() ==> self.cpu_backoff_wakers@[i]
                <= self.cpu_backoff_waker_seed
        &&& self.snapshot_writing ==> self.checkpoint is Snapshot
        &&& self.max_cpu_backoff_time >= 1 ==> self.cpu_backoff_time <= self.max_cpu_backoff_time
    }

    /// Whether the table holds a thread with this identifier.
    pub open spec fn has_thread(&self, tid: WasiThreadId) -> bool {
        has_tid(self.threads@, tid)
    }

    /// Position of `child` among the children, if listed.
    pub fn find_child(&self, child: WasiProcessId) -> (r: Option<usize>)
        ensures
            r is None <==> !self.children@.contains(child),
            r matches Some(i) ==> i < self.children@.len() && self.children@[i as int] == child,
    {
        let mut i: usize = 0;
        while i < self.children.len()
            invariant
                i <= self.children@.len(),
                forall|j: int| 0 <= j < i ==> self.children@[j] != child,
            decreases self.children@.len() - i,
        {
            if self.children[i] == child {
                return Some(i);
            }
            i = i + 1;
        }
        proof {
            if self.children@.contains(child) {
                let a = choose|a: int| 0 <= a < self.children@.len() && self.children@[a] == child;
                assert(self.children@[a] != child);
            }
        }
        None
    }

    /// Position of the interval for `signal`, if one is installed.
    pub fn find_interval(&self, signal: Signal) -> (r: Option<usize>)
        ensures
            r is None ==> forall|j: int|
                0 <= j < self.signal_intervals@.len() ==> self.signal_intervals@[j].signal != signal,
            r matches Some(i) ==> i < self.signal_intervals@.len()
                && self.signal_intervals@[i as int].signal == signal,
    {
        let mut i: usize = 0;
        while i < self.signal_intervals.len()
            invariant
                i <= self.signal_intervals@.len(),
                forall|j: int| 0 <= j < i ==> self.signal_intervals@[j].signal != signal,
            decreases self.signal_intervals@.len() - i,
        {
            if self.signal_intervals[i].signal == signal {
                return Some(i);
            }
            i = i + 1;
        }
        None
    }

    /// Position of `tid` in the thread table, if present.
    pub fn find_thread(&self, tid: WasiThreadId) -> (r: Option<usize>)
        ensures
            r is None <==> !self.has_thread(tid),
            r matches Some(i) ==> i < self.threads@.len() && self.threads@[i as int].tid == tid,
    {
        let mut i: usize = 0;
        while i < self.threads.len()
            invariant
                i <= self.threads@.len(),
                forall|j: int| 0 <= j < i ==> self.threads@[j].tid != tid,
            decreases self.threads@.len() - i,
        {
            if self.threads[i].tid == tid {
                return Some(i);
            }
            i = i + 1;
        }
        None
    }
}


/// Thread identifier that libc uses for "the whole process"; it stands for
/// the main thread.
pub const WHOLE_PROCESS_TID: u32 = 1073741823;

/// Largest CPU backoff, in milliseconds, when none is configured.
pub const DEFAULT_MAX_CPU_BACKOFF_MS: u64 = 30000;

/// Cool-off period after a run token, in milliseconds.
pub const CPU_COOL_OFF_MS: u64 = 500;

/// Hash of the module that a process runs.
#[derive(Clone, PartialEq, Eq, Hash, Debug)]
pub struct ModuleHash(pub Vec<u8>);

/// Failures of the registry that issues task slots and identifiers.
#[derive(Clone, Copy, PartialEq, Eq, Structural, Debug)]
pub enum ControlPlaneError {
    /// No further task can be registered.
    TaskLimitReached,
    /// No further identifier can be issued.
    IdsExhausted,
}

/// Where a process-wide signal goes.
#[derive(Clone, Debug)]
pub enum SignalRoute {
    /// Forwarded to each of these children.
    Children(Vec<WasiProcessId>),
    /// Delivered to each of these threads of the process.
    Threads(Vec<WasiThreadId>),
}

/// Why joining a child failed, with the exit status it carries, if any.
#[derive(Clone, Copy, PartialEq, Eq, Structural, Debug)]
pub struct JoinFailure {
    pub exit_code: Option<ExitCode>,
}

/// A process running within the compute unit.
pub struct WasiProcess {
    pub pid: WasiProcessId,
    pub module_hash: ModuleHash,
    /// Identifier of the parent, while the parent is alive.
    pub parent: Option<WasiProcessId>,
    /// The state record that the process lock protects.
    pub inner: WasiProcessInner,
    /// Termination status of the process, shared with its main thread.
    pub finished: Option<ExitCode>,
    /// Number of threads waiting in a join.
    pub waiting: u32,
    /// Number of run tokens held.
    pub cpu_run_tokens: u32,
}

/// Registration of one thread waiting in a join; hand it back with
/// `release` when the wait ends.
pub struct WasiProcessWait {
    _private: (),
}

impl WasiProcessWait {
    /// Counts one more waiting thread for the duration of a join.
    pub fn new(process: &mut WasiProcess) -> (r: WasiProcessWait)
        requires
            old(process).waiting < u32::MAX,
        ensures
            final(process).waiting == old(process).waiting + 1,
            final(process).pid == old(process).pid,
            final(process).inner == old(process).inner,
            final(process).finished == old(process).finished,
            final(process).cpu_run_tokens == old(process).cpu_run_tokens,
    {
        process.waiting = process.waiting + 1;
        WasiProcessWait { _private: () }
    }

    /// Ends the wait that `new` counted.
    pub fn release(self, process: &mut WasiProcess)
        requires
            old(process).waiting > 0,
        ensures
            final(process).waiting == old(process).waiting - 1,
            final(process).pid == old(process).pid,
            final(process).inner == old(process).inner,
            final(process).finished == old(process).finished,
            final(process).cpu_run_tokens == old(process).cpu_run_tokens,
    {
        process.waiting = process.waiting - 1;
    }
}

/// The status that a thread entry reports, given the process's own status.
pub open spec fn thread_status(t: WasiThread, finished: Option<ExitCode>) -> Option<ExitCode> {
    if t.is_main {
        finished
    } else {
        t.status
    }
}

/// A status after `code` was offered to it: the first one set stays.
pub open spec fn first_wins(s: Option<ExitCode>, code: ExitCode) -> Option<ExitCode> {
    if s is Some {
        s
    } else {
        Some(code)
    }
}

/// The exit status reported for a child whose join ended with `res`.
pub open spec fn child_exit_code(res: Result<ExitCode, JoinFailure>) -> ExitCode {
    match res {
        Ok(c) => c,
        Err(f) => match f.exit_code {
            Some(c) => c,
            None => ExitCode(Errno::Canceled.code()),
        },
    }
}

impl WasiProcess {
    pub open spec fn wf(&self) -> bool {
        &&& self.inner.wf()
        &&& self.inner.pid == self.pid
    }

    /// The thread identifier that a signal for `tid` is delivered to.
    pub open spec fn signal_target(&self, tid: WasiThreadId) -> WasiThreadId {
        if tid.0 == WHOLE_PROCESS_TID {
            WasiThreadId(self.pid.0)
        } else {
            tid
        }
    }

    /// A process with no threads, no children, phase `Execute` and zero
    /// counters. `max_cpu_backoff` is the configured largest backoff in
    /// milliseconds.
    pub fn new(pid: WasiProcessId, module_hash: ModuleHash, max_cpu_backoff: Option<u64>) -> (r:
        WasiProcess)
        ensures
            r.wf(),
            r.pid == pid,
            r.parent is None,
            r.inner.threads@.len() == 0,
            r.inner.thread_count == 0,
            r.inner.children@.len() == 0,
            r.inner.signal_intervals@.len() == 0,
            r.inner.checkpoint == WasiProcessCheckpoint::Execute,
            !r.inner.snapshot_writing,
            r.inner.snapshots@ == 0,
            r.inner.cpu_backoff_wakers@.len() == 0,
            r.inner.cpu_backoff_waker_seed == 0,
            r.inner.cpu_backoff_time == 0,
            r.inner.cpu_run_cool_off == 0,
            r.inner.max_cpu_backoff_time == (match max_cpu_backoff {
                Some(m) => m,
                None => DEFAULT_MAX_CPU_BACKOFF_MS,
            }),
            r.inner.max_cpu_cool_off_time == CPU_COOL_OFF_MS,
            r.finished is None,
            r.waiting == 0,
            r.cpu_run_tokens == 0,
    {
        let max_cpu_backoff_time = match max_cpu_backoff {
            Some(m) => m,
            None => DEFAULT_MAX_CPU_BACKOFF_MS,
        };
        WasiProcess {
            pid,
            module_hash,
            parent: None,
            inner: WasiProcessInner {
                pid,
                threads: Vec::new(),
                thread_count: 0,
                signal_intervals: Vec::new(),
                children: Vec::new(),
                checkpoint: WasiProcessCheckpoint::Execute,
                snapshot_writing: false,
                snapshots: Ghost(0),
                cpu_backoff_wakers: Vec::new(),
                cpu_backoff_waker_seed: 0,
                cpu_backoff_time: 0,
                cpu_run_cool_off: 0,
                max_cpu_backoff_time,
                max_cpu_cool_off_time: CPU_COOL_OFF_MS,
            },
            finished: None,
            waiting: 0,
            cpu_run_tokens: 0,
        }
    }

    /// Assigns the process identifier, before any thread exists and before
    /// the process is published.
    pub fn set_pid(&mut self, pid: WasiProcessId)
        requires
            old(self).wf(),
            old(self).inner.threads@.len() == 0,
        ensures
            final(self).wf(),
            same_throttle(old(self).inner, final(self).inner),
            same_checkpoint(old(self).inner, final(self).inner),
            final(self).pid == pid,
            final(self).inner.pid == pid,
            final(self).inner.threads@.len() == 0,
            final(self).inner.children@ == old(self).inner.children@,
            final(self).inner.signal_intervals@ == old(self).inner.signal_intervals@,
            final(self).inner.checkpoint == old(self).inner.checkpoint,
            final(self).finished == old(self).finished,
            final(self).waiting == old(self).waiting,
            final(self).cpu_run_tokens == old(self).cpu_run_tokens,
    {
        self.pid = pid;
        self.inner.pid = pid;
    }

    /// The identifier of this process.
    pub fn pid(&self) -> (r: WasiProcessId)
        ensures
            r == self.pid,
    {
        self.pid
    }

    /// The identifier of the parent process, or 0 when there is none.
    pub fn ppid(&self) -> (r: WasiProcessId)
        ensures
            r == (match self.parent {
                Some(p) => p,
                None => WasiProcessId(0),
            }),
    {
        match self.parent {
            Some(p) => p,
            None => WasiProcessId(0),
        }
    }

    /// Number of threads of this process.
    pub fn active_threads(&self) -> (r: u32)
        ensures
            r == self.inner.thread_count,
    {
        self.inner.thread_count
    }

    /// The table entry of thread `tid`, if it is registered.
    pub fn get_thread(&self, tid: &WasiThreadId) -> (r: Option<WasiThread>)
        ensures
            r is None <==> !self.inner.has_thread(*tid),
            r matches Some(t) ==> t.tid == *tid && self.inner.threads@.contains(t),
    {
        match self.inner.find_thread(*tid) {
            Some(i) => Some(self.inner.threads[i]),
            None => None,
        }
    }

    /// Registers a thread. `task` is the registry's answer for a task slot;
    /// `fresh_id` its answer for a new identifier, asked for only when the
    /// table already has threads. The first thread is the main one and takes
    /// the process's identifier; every other takes the fresh identifier.
    pub fn new_thread(
        &mut self,
        task: Result<(), ControlPlaneError>,
        fresh_id: Option<Result<u32, ControlPlaneError>>,
    ) -> (r: Result<WasiThreadId, ControlPlaneError>)
        requires
            old(self).wf(),
            old(self).inner.thread_count < u32::MAX,
            old(self).inner.thread_count > 0 ==> fresh_id is Some,
            fresh_id matches Some(Ok(id)) ==> id != old(self).pid.0 && !old(self).inner.has_thread(
                WasiThreadId(id),
            ),
        ensures
            final(self).wf(),
            same_throttle(old(self).inner, final(self).inner),
            same_checkpoint(old(self).inner, final(self).inner),
            final(self).pid == old(self).pid,
            final(self).finished == old(self).finished,
            final(self).waiting == old(self).waiting,
            final(self).cpu_run_tokens == old(self).cpu_run_tokens,
            final(self).inner.checkpoint == old(self).inner.checkpoint,
            final(self).inner.children@ == old(self).inner.children@,
            match task {
                Err(e) => r == Err::<WasiThreadId, ControlPlaneError>(e),
                Ok(_) => if old(self).inner.thread_count == 0 {
                    r == Ok::<WasiThreadId, ControlPlaneError>(WasiThreadId(old(self).pid.0))
                } else {
                    match fresh_id {
                        Some(Ok(id)) => r == Ok::<WasiThreadId, ControlPlaneError>(WasiThreadId(id)),
                        Some(Err(e)) => r == Err::<WasiThreadId, ControlPlaneError>(e),
                        None => false,
                    }
                },
            },
            r matches Ok(tid) ==> final(self).inner.threads@ == old(self).inner.threads@.push(
                WasiThread {
                    tid,
                    is_main: old(self).inner.thread_count == 0,
                    check_pointing: false,
                    status: None,
                },
            ),
            r matches Ok(tid) ==> final(self).inner.thread_count == old(self).inner.thread_count + 1
                && final(self).inner.thread_count == final(self).inner.threads@.len(),
            r matches Ok(tid) ==> (tid.0 == old(self).pid.0 <==> old(self).inner.thread_count == 0),
            r is Err ==> final(self).inner == old(self).inner,
    {
        match task {
            Err(e) => {
                return Err(e);
            },
            Ok(_) => {},
        }
        let is_main = self.inner.thread_count == 0;
        let tid = if is_main {
            WasiThreadId(self.pid.0)
        } else {
            match fresh_id {
                Some(Ok(id)) => WasiThreadId(id),
                Some(Err(e)) => {
                    return Err(e);
                },
                None => {
                    return Err(ControlPlaneError::IdsExhausted);
                },
            }
        };
        proof {
            if is_main {
                assert(!self.inner.has_thread(tid));
            }
        }
        self.inner.threads.push(WasiThread { tid, is_main, check_pointing: false, status: None });
        self.inner.thread_count = self.inner.thread_count + 1;
        proof {
            let ts = self.inner.threads@;
            let n = ts.len() - 1;
            assert(forall|i: int| 0 <= i < n ==> ts[i] == old(self).inner.threads@[i]);
            assert forall|i: int, j: int| 0 <= i < j < ts.len() implies ts[i].tid != ts[j].tid by {
                if j == n {
                    assert(old(self).inner.threads@[i].tid != tid);
                }
            }
        }
        Ok(tid)
    }

    /// Removes thread `tid` from the table, when its task slot is released.
    pub fn remove_thread(&mut self, tid: WasiThreadId) -> (r: bool)
        requires
            old(self).wf(),
        ensures
            final(self).wf(),
            same_throttle(old(self).inner, final(self).inner),
            same_checkpoint(old(self).inner, final(self).inner),
            final(self).finished == old(self).finished,
            final(self).waiting == old(self).waiting,
            final(self).cpu_run_tokens == old(self).cpu_run_tokens,
            r == old(self).inner.has_thread(tid),
            !final(self).inner.has_thread(tid),
            r ==> exists|i: int|
                0 <= i < old(self).inner.threads@.len() && old(self).inner.threads@[i].tid == tid
                    && final(self).inner.threads@ == old(self).inner.threads@.remove(i),
            !r ==> final(self).inner.threads@ == old(self).inner.threads@,
            final(self).pid == old(self).pid,
            final(self).inner.children@ == old(self).inner.children@,
            final(self).inner.checkpoint == old(self).inner.checkpoint,
    {
        match self.inner.find_thread(tid) {
            None => false,
            Some(i) => {
                let ghost pre = self.inner.threads@;
                self.inner.threads.remove(i);
                self.inner.thread_count = self.inner.thread_count - 1;
                proof {
                    let ts = self.inner.threads@;
                    assert(ts == pre.remove(i as int));
                    assert forall|a: int| 0 <= a < ts.len() implies ts[a].tid != tid by {
                        if a < i {
                            assert(pre[a].tid != pre[i as int].tid);
                        } else {
                            assert(pre[a + 1].tid != pre[i as int].tid);
                        }
                    }
                    assert forall|a: int, b: int| 0 <= a < b < ts.len() implies ts[a].tid
                        != ts[b].tid by {
                        let a2 = if a < i { a } else { a + 1 };
                        let b2 = if b < i { b } else { b + 1 };
                        assert(ts[a] == pre[a2] && ts[b] == pre[b2]);
                    }
                }
                true
            },
        }
    }

    /// Resolves the target of a signal for thread `tid`: the reserved
    /// whole-process identifier stands for the main thread. Returns the
    /// thread to deliver to, or `None` when no such thread is registered
    /// (the signal is then dropped).
    pub fn signal_thread(&self, tid: &WasiThreadId, signal: Signal) -> (r: Option<WasiThreadId>)
        ensures
            r == (if self.inner.has_thread(self.signal_target(*tid)) {
                Some(self.signal_target(*tid))
            } else {
                None::<WasiThreadId>
            }),
    {
        let target = if tid.0 == WHOLE_PROCESS_TID {
            WasiThreadId(self.pid.0)
        } else {
            *tid
        };
        match self.inner.find_thread(target) {
            Some(_) => Some(target),
            None => None,
        }
    }

    /// Routes a signal for the whole process: to every child when a thread
    /// waits in a join and there are children, else to every thread.
    pub fn signal_process(&self, signal: Signal) -> (r: SignalRoute)
        ensures
            (self.waiting > 0 && self.inner.children@.len() > 0) <==> r is Children,
            r matches SignalRoute::Children(c) ==> c@ == self.inner.children@,
            r matches SignalRoute::Threads(t) ==> t@ == tids_of(self.inner.threads@),
    {
        if self.waiting > 0 && self.inner.children.len() > 0 {
            return SignalRoute::Children(self.inner.children.clone());
        }
        let mut tids: Vec<WasiThreadId> = Vec::new();
        let mut i: usize = 0;
        while i < self.inner.threads.len()
            invariant
                i <= self.inner.threads@.len(),
                tids@ == tids_of(self.inner.threads@.take(i as int)),
            decreases self.inner.threads@.len() - i,
        {
            tids.push(self.inner.threads[i].tid);
            proof {
                assert(self.inner.threads@.take(i + 1) == self.inner.threads@.take(i as int).push(
                    self.inner.threads@[i as int],
                ));
            }
            i = i + 1;
            assert(tids@ =~= tids_of(self.inner.threads@.take(i as int)));
        }
        assert(self.inner.threads@.take(i as int) == self.inner.threads@);
        SignalRoute::Threads(tids)
    }

    /// Routes the signal with number `sig` as `signal_process` does; a number
    /// that names no signal kind is refused.
    pub fn signal(&self, sig: u8) -> (r: Result<SignalRoute, SignalDeliveryError>)
        ensures
            r is Ok <==> sig <= crate::ids::MAX_SIGNAL,
            r matches Ok(route) ==> ((self.waiting > 0 && self.inner.children@.len() > 0)
                <==> route is Children),
            r matches Ok(SignalRoute::Children(c)) ==> c@ == self.inner.children@,
            r matches Ok(SignalRoute::Threads(t)) ==> t@ == tids_of(self.inner.threads@),
    {
        match Signal::from_raw(sig) {
            Ok(s) => Ok(self.signal_process(s)),
            Err(e) => Err(e),
        }
    }
}

impl WasiProcess {
    /// Installs, replaces or (with `interval` of `None`) removes the periodic
    /// delivery of `signal`. `interval` is in nanoseconds; `now` is the
    /// monotonic time, recorded as the last delivery.
    pub fn signal_interval(&mut self, signal: Signal, interval: Option<u64>, repeat: bool, now: u64)
        requires
            old(self).wf(),
        ensures
            final(self).wf(),
            same_throttle(old(self).inner, final(self).inner),
            same_checkpoint(old(self).inner, final(self).inner),
            final(self).finished == old(self).finished,
            final(self).waiting == old(self).waiting,
            final(self).cpu_run_tokens == old(self).cpu_run_tokens,
            final(self).pid == old(self).pid,
            final(self).inner.threads@ == old(self).inner.threads@,
            final(self).inner.children@ == old(self).inner.children@,
            final(self).inner.checkpoint == old(self).inner.checkpoint,
            forall|e: WasiSignalInterval| e.signal != signal ==> (final(self).inner.signal_intervals@.contains(e)
                <==> old(self).inner.signal_intervals@.contains(e)),
            forall|e: WasiSignalInterval| e.signal == signal ==> (final(self).inner.signal_intervals@.contains(e)
                <==> (interval matches Some(d) && e == (WasiSignalInterval { signal, interval: d, last_signal: now, repeat }))),
    {
        let ghost pre = self.inner.signal_intervals@;
        let found = self.inner.find_interval(signal);
        match found {
            Some(k) => {
                self.inner.signal_intervals.remove(k);
                proof {
                    let post = self.inner.signal_intervals@;
                    assert(post == pre.remove(k as int));
                    assert forall|e: WasiSignalInterval| e.signal != signal implies (post.contains(e)
                        <==> pre.contains(e)) by {
                        if pre.contains(e) {
                            let a = choose|a: int| 0 <= a < pre.len() && pre[a] == e;
                            assert(a != k);
                            if a < k {
                                assert(post[a] == e);
                            } else {
                                assert(post[a - 1] == e);
                            }
                        }
                    }
                    assert forall|e: WasiSignalInterval| e.signal == signal implies !post.contains(e) by {
                        if post.contains(e) {
                            let a = choose|a: int| 0 <= a < post.len() && post[a] == e;
                            if a < k {
                                assert(pre[a].signal != pre[k as int].signal);
                            } else {
                                assert(pre[a + 1].signal != pre[k as int].signal);
                            }
                        }
                    }
                    assert forall|a: int, b: int| 0 <= a < b < post.len() implies post[a].signal
                        != post[b].signal by {
                        let a2 = if a < k { a } else { a + 1 };
                        let b2 = if b < k { b } else { b + 1 };
                        assert(post[a] == pre[a2] && post[b] == pre[b2]);
                    }
                }
            },
            None => {
                proof {
                    assert forall|e: WasiSignalInterval| e.signal == signal implies !pre.contains(e) by {
                        if pre.contains(e) {
                            let a = choose|a: int| 0 <= a < pre.len() && pre[a] == e;
                            assert(pre[a].signal != signal);
                        }
                    }
                }
            },
        }
        match interval {
            None => {},
            Some(d) => {
                let ghost mid = self.inner.signal_intervals@;
                let entry = WasiSignalInterval { signal, interval: d, last_signal: now, repeat };
                self.inner.signal_intervals.push(entry);
                proof {
                    let post = self.inner.signal_intervals@;
                    assert(post == mid.push(entry));
                    assert forall|e: WasiSignalInterval| e.signal != signal implies (post.contains(e)
                        <==> mid.contains(e)) by {
                        if post.contains(e) {
                            let a = choose|a: int| 0 <= a < post.len() && post[a] == e;
                            assert(a < mid.len());
                            assert(mid[a] == e);
                        }
                        if mid.contains(e) {
                            let a = choose|a: int| 0 <= a < mid.len() && mid[a] == e;
                            assert(post[a] == e);
                        }
                    }
                    assert forall|e: WasiSignalInterval| e.signal == signal implies (post.contains(e)
                        <==> e == entry) by {
                        if post.contains(e) {
                            let a = choose|a: int| 0 <= a < post.len() && post[a] == e;
                            if a < mid.len() {
                                assert(mid.contains(e));
                            }
                        }
                        if e == entry {
                            assert(post[mid.len() as int] == e);
                        }
                    }
                    assert forall|a: int, b: int| 0 <= a < b < post.len() implies post[a].signal
                        != post[b].signal by {
                        if b == mid.len() {
                            assert(mid.contains(post[a]));
                        }
                    }
                }
            },
        }
    }
}

impl WasiProcess {
    /// Offers `code` as the process's termination status; the first status
    /// set stays.
    pub fn set_finished(&mut self, code: ExitCode)
        ensures
            final(self).finished == first_wins(old(self).finished, code),
            final(self).pid == old(self).pid,
            final(self).inner == old(self).inner,
            final(self).waiting == old(self).waiting,
            final(self).cpu_run_tokens == old(self).cpu_run_tokens,
    {
        if self.finished.is_none() {
            self.finished = Some(code);
        }
    }

    /// The process's termination status, if it has finished.
    pub fn try_join(&self) -> (r: Option<ExitCode>)
        ensures
            r == self.finished,
    {
        self.finished
    }

    /// Offers `exit_code` as the termination status of every thread. This
    /// marks threads finished; it does not stop work they are doing.
    pub fn terminate(&mut self, exit_code: ExitCode)
        requires
            old(self).wf(),
        ensures
            final(self).wf(),
            same_throttle(old(self).inner, final(self).inner),
            same_checkpoint(old(self).inner, final(self).inner),
            final(self).pid == old(self).pid,
            final(self).inner.threads@.len() == old(self).inner.threads@.len(),
            forall|i: int|
                0 <= i < final(self).inner.threads@.len() ==> final(self).inner.threads@[i] == (
                WasiThread {
                    status: if old(self).inner.threads@[i].is_main {
                        old(self).inner.threads@[i].status
                    } else {
                        first_wins(old(self).inner.threads@[i].status, exit_code)
                    },
                    ..old(self).inner.threads@[i]
                }),
            forall|i: int|
                0 <= i < final(self).inner.threads@.len() ==> thread_status(
                    final(self).inner.threads@[i],
                    final(self).finished,
                ) == first_wins(
                    thread_status(old(self).inner.threads@[i], old(self).finished),
                    exit_code,
                ),
            final(self).finished == (if (exists|i: int|
                0 <= i < old(self).inner.threads@.len() && old(self).inner.threads@[i].is_main) {
                first_wins(old(self).finished, exit_code)
            } else {
                old(self).finished
            }),
            final(self).inner.children@ == old(self).inner.children@,
            final(self).inner.checkpoint == old(self).inner.checkpoint,
            final(self).waiting == old(self).waiting,
            final(self).cpu_run_tokens == old(self).cpu_run_tokens,
    {
        let ghost pre = self.inner.threads@;
        let ghost pre_finished = self.finished;
        let mut i: usize = 0;
        let mut saw_main = false;
        while i < self.inner.threads.len()
            invariant
                i <= self.inner.threads@.len(),
                self.inner.threads@.len() == pre.len(),
                pre == old(self).inner.threads@,
                pre_finished == old(self).finished,
                self.finished == pre_finished,
                self.pid == old(self).pid,
                self.inner.pid == old(self).inner.pid,
                self.inner.thread_count == old(self).inner.thread_count,
                self.inner.children@ == old(self).inner.children@,
                self.inner.signal_intervals@ == old(self).inner.signal_intervals@,
                self.inner.checkpoint == old(self).inner.checkpoint,
                self.inner.snapshot_writing == old(self).inner.snapshot_writing,
                self.inner.snapshots@ == old(self).inner.snapshots@,
                self.inner.cpu_backoff_wakers@ == old(self).inner.cpu_backoff_wakers@,
                self.inner.cpu_backoff_waker_seed == old(self).inner.cpu_backoff_waker_seed,
                self.inner.cpu_backoff_time == old(self).inner.cpu_backoff_time,
                self.inner.cpu_run_cool_off == old(self).inner.cpu_run_cool_off,
                self.inner.max_cpu_backoff_time == old(self).inner.max_cpu_backoff_time,
                self.inner.max_cpu_cool_off_time == old(self).inner.max_cpu_cool_off_time,
                self.waiting == old(self).waiting,
                self.cpu_run_tokens == old(self).cpu_run_tokens,
                saw_main == (exists|j: int| 0 <= j < i && pre[j].is_main),
                forall|j: int|
                    0 <= j < i ==> self.inner.threads@[j] == (WasiThread {
                        status: if pre[j].is_main {
                            pre[j].status
                        } else {
                            first_wins(pre[j].status, exit_code)
                        },
                        ..pre[j]
                    }),
                forall|j: int| i <= j < pre.len() ==> self.inner.threads@[j] == pre[j],
            decreases self.inner.threads@.len() - i,
        {
            let t = self.inner.threads[i];
            if t.is_main {
                saw_main = true;
            } else if t.status.is_none() {
                self.inner.threads.set(i, WasiThread { status: Some(exit_code), ..t });
            }
            i = i + 1;
        }
        if saw_main {
            self.set_finished(exit_code);
        }
        proof {
            let ts = self.inner.threads@;
            assert forall|a: int| 0 <= a < ts.len() implies ts[a].tid == pre[a].tid
                && ts[a].is_main == pre[a].is_main by {}
        }
    }

    /// Records a newly spawned child.
    pub fn add_child(&mut self, child: WasiProcessId)
        requires
            old(self).wf(),
            !old(self).inner.children@.contains(child),
        ensures
            final(self).wf(),
            same_throttle(old(self).inner, final(self).inner),
            same_checkpoint(old(self).inner, final(self).inner),
            final(self).finished == old(self).finished,
            final(self).cpu_run_tokens == old(self).cpu_run_tokens,
            final(self).pid == old(self).pid,
            final(self).inner.children@ == old(self).inner.children@.push(child),
            final(self).inner.threads@ == old(self).inner.threads@,
            final(self).inner.checkpoint == old(self).inner.checkpoint,
            final(self).waiting == old(self).waiting,
    {
        self.inner.children.push(child);
        proof {
            let c = self.inner.children@;
            let n = c.len() - 1;
            assert forall|a: int, b: int| 0 <= a < b < c.len() implies c[a] != c[b] by {
                if b == n {
                    assert(old(self).inner.children@[a] == c[a]);
                }
            }
        }
    }

    /// Starts a join on the children: the children to wait for, or `None`
    /// when there are none (nothing to wait for). Report the first one that
    /// finishes with `child_joined`.
    pub fn join_children(&self) -> (r: Option<Vec<WasiProcessId>>)
        ensures
            r is None <==> self.inner.children@.len() == 0,
            r matches Some(c) ==> c@ == self.inner.children@,
    {
        if self.inner.children.len() == 0 {
            None
        } else {
            Some(self.inner.children.clone())
        }
    }

    /// Removes `child`, whose join has completed, from the children.
    /// Returns whether it was still listed.
    pub fn child_joined(&mut self, child: WasiProcessId) -> (r: bool)
        requires
            old(self).wf(),
        ensures
            final(self).wf(),
            same_throttle(old(self).inner, final(self).inner),
            same_checkpoint(old(self).inner, final(self).inner),
            final(self).cpu_run_tokens == old(self).cpu_run_tokens,
            r == old(self).inner.children@.contains(child),
            r ==> exists|i: int|
                0 <= i < old(self).inner.children@.len() && old(self).inner.children@[i] == child
                    && final(self).inner.children@ == old(self).inner.children@.remove(i),
            r ==> final(self).inner.children@.len() == old(self).inner.children@.len() - 1,
            !r ==> final(self).inner.children@ == old(self).inner.children@,
            !final(self).inner.children@.contains(child),
            final(self).pid == old(self).pid,
            final(self).finished == old(self).finished,
            final(self).waiting == old(self).waiting,
            final(self).inner.threads@ == old(self).inner.threads@,
            final(self).inner.checkpoint == old(self).inner.checkpoint,
    {
        match self.inner.find_child(child) {
            None => false,
            Some(i) => {
                let ghost pre = self.inner.children@;
                self.inner.children.remove(i);
                proof {
                    let c = self.inner.children@;
                    assert(c == pre.remove(i as int));
                    assert(pre.contains(child)) by {
                        assert(pre[i as int] == child);
                    }
                    assert forall|a: int| 0 <= a < c.len() implies c[a] != child by {
                        if a < i {
                            assert(pre[a] != pre[i as int]);
                        } else {
                            assert(c[a] == pre[a + 1]);
                            assert(pre[a + 1] != pre[i as int]);
                        }
                    }
                    assert forall|a: int, b: int| 0 <= a < b < c.len() implies c[a] != c[b] by {
                        let a2 = if a < i { a } else { a + 1 };
                        let b2 = if b < i { b } else { b + 1 };
                        assert(c[a] == pre[a2] && c[b] == pre[b2]);
                    }
                }
                true
            },
        }
    }

    /// Starts a join on any child: the children to race, or `Errno::Child`
    /// when there are none.
    pub fn join_any_child(&self) -> (r: Result<Vec<WasiProcessId>, Errno>)
        ensures
            r is Err <==> self.inner.children@.len() == 0,
            r matches Err(e) ==> e == Errno::Child,
            r matches Ok(c) ==> c@ == self.inner.children@,
    {
        if self.inner.children.len() == 0 {
            Err(Errno::Child)
        } else {
            Ok(self.inner.children.clone())
        }
    }

    /// Completes a join on any child: `child` finished first with `res`. It
    /// leaves the children, and its exit status is reported; a failed join
    /// reports the status it carries, else "operation canceled".
    pub fn child_finished(&mut self, child: WasiProcessId, res: Result<ExitCode, JoinFailure>) -> (r: (
        WasiProcessId,
        ExitCode,
    ))
        requires
            old(self).wf(),
        ensures
            final(self).wf(),
            same_throttle(old(self).inner, final(self).inner),
            same_checkpoint(old(self).inner, final(self).inner),
            final(self).cpu_run_tokens == old(self).cpu_run_tokens,
            r == (child, child_exit_code(res)),
            old(self).inner.children@.contains(child) ==> exists|i: int|
                0 <= i < old(self).inner.children@.len() && old(self).inner.children@[i] == child
                    && final(self).inner.children@ == old(self).inner.children@.remove(i),
            !old(self).inner.children@.contains(child) ==> final(self).inner.children@ == old(
                self,
            ).inner.children@,
            final(self).pid == old(self).pid,
            final(self).finished == old(self).finished,
            final(self).waiting == old(self).waiting,
            final(self).inner.threads@ == old(self).inner.threads@,
    {
        self.child_joined(child);
        let code = match res {
            Ok(c) => c,
            Err(f) => match f.exit_code {
                Some(c) => c,
                None => ExitCode(Errno::Canceled.raw()),
            },
        };
        (child, code)
    }
}

/// The thread counter always equals the size of the thread table.
pub proof fn lemma_thread_count_matches(p: WasiProcess)
    requires
        p.wf(),
    ensures
        p.inner.thread_count == p.inner.threads@.len(),
{
}

/// The main thread's identifier is the process identifier, and no other
/// thread has that identifier.
pub proof fn lemma_main_thread_id(p: WasiProcess, i: int, j: int)
    requires
        p.wf(),
        0 <= i < p.inner.threads@.len(),
        0 <= j < p.inner.threads@.len(),
        p.inner.threads@[i].tid.0 == p.pid.0,
    ensures
        p.inner.threads@[i].is_main,
        p.inner.threads@[j].is_main ==> i == j,
        p.inner.threads@[j].tid.0 == p.pid.0 ==> i == j,
{
}

/// A signal for the reserved whole-process identifier goes to the main
/// thread, when the process has one.
pub proof fn lemma_whole_process_signal_targets_main(p: WasiProcess, tid: WasiThreadId)
    requires
        p.wf(),
        tid.0 == WHOLE_PROCESS_TID,
    ensures
        p.signal_target(tid).0 == p.pid.0,
        forall|i: int|
            0 <= i < p.inner.threads@.len() && p.inner.threads@[i].tid == p.signal_target(tid)
                ==> p.inner.threads@[i].is_main,
{
}

} // verus!
