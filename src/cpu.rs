use vstd::prelude::*;
use crate::process::{WasiProcess, WasiProcessInner};

verus! {

/// Held while the process should run at full speed: no backoff is handed
/// out while any run token is held. Give it back with
/// `release_cpu_run_token`.
pub struct CpuRunToken {
    _private: (),
}

/// A pending CPU backoff: a delay of `cpu_backoff_time` milliseconds, which
/// a run token cancels early.
pub struct CpuBackoffToken {
    /// The backoff, in milliseconds, that this token waits for.
    pub cpu_backoff_time: u64,
    /// The token's registration in the process's waker set, if any.
    pub waker_id: Option<u64>,
}

/// Whether a token is still to wait or has completed.
#[derive(Clone, Copy, PartialEq, Eq, Structural, Debug)]
pub enum BackoffPoll {
    /// The delay is over, or a run token cancelled it.
    Ready,
    /// Still waiting; the token is registered under its `waker_id`, if any.
    Pending,
}

/// The backoff after one full delay of `b`: doubled, but never above `max`.
pub open spec fn ratchet(b: u64, max: u64) -> u64 {
    if 2 * b > max {
        max
    } else {
        (2 * b) as u64
    }
}

/// The backoff that a new token waits for: 1 ms when none is set yet.
pub open spec fn start_backoff(b: u64) -> u64 {
    if b == 0 {
        1
    } else {
        b
    }
}

/// The cool-off deadline after a call at `now` (nanoseconds): set to the end
/// of the cool-off period when it was unset.
pub open spec fn cool_off_deadline(inner: WasiProcessInner, now: u64) -> u128 {
    if inner.cpu_run_cool_off == 0 {
        (now as int + 1_000_000 * inner.max_cpu_cool_off_time as int) as u128
    } else {
        inner.cpu_run_cool_off
    }
}

/// The throttle's fields that no backoff call changes.
pub open spec fn same_but_throttle(pre: WasiProcess, post: WasiProcess) -> bool {
    &&& post.pid == pre.pid
    &&& post.finished == pre.finished
    &&& post.waiting == pre.waiting
    &&& post.cpu_run_tokens == pre.cpu_run_tokens
    &&& post.inner.threads@ == pre.inner.threads@
    &&& post.inner.thread_count == pre.inner.thread_count
    &&& post.inner.children@ == pre.inner.children@
    &&& post.inner.signal_intervals@ == pre.inner.signal_intervals@
    &&& post.inner.checkpoint == pre.inner.checkpoint
    &&& post.inner.snapshot_writing == pre.inner.snapshot_writing
    &&& post.inner.snapshots@ == pre.inner.snapshots@
    &&& post.inner.max_cpu_backoff_time == pre.inner.max_cpu_backoff_time
    &&& post.inner.max_cpu_cool_off_time == pre.inner.max_cpu_cool_off_time
}

/// What `acquire_cpu_backoff_token` guarantees, at monotonic time `now`.
pub open spec fn backoff_token_post(
    pre: WasiProcess,
    post: WasiProcess,
    now: u64,
    r: Option<CpuBackoffToken>,
) -> bool {
    &&& same_but_throttle(pre, post)
    &&& post.inner.cpu_backoff_wakers@ == pre.inner.cpu_backoff_wakers@
    &&& post.inner.cpu_backoff_waker_seed == pre.inner.cpu_backoff_waker_seed
    &&& if pre.cpu_run_tokens > 0 {
        &&& r is None
        &&& post.inner.cpu_run_cool_off == pre.inner.cpu_run_cool_off
        &&& post.inner.cpu_backoff_time == pre.inner.cpu_backoff_time
    } else {
        &&& post.inner.cpu_run_cool_off == cool_off_deadline(pre.inner, now)
        &&& if now as u128 <= cool_off_deadline(pre.inner, now) {
            &&& r is None
            &&& post.inner.cpu_backoff_time == pre.inner.cpu_backoff_time
        } else {
            &&& post.inner.cpu_backoff_time == start_backoff(pre.inner.cpu_backoff_time)
            &&& r matches Some(t) && t.cpu_backoff_time == start_backoff(
                pre.inner.cpu_backoff_time,
            ) && t.waker_id is None
        }
    }
}

/// What polling a backoff token guarantees, given whether its timer has
/// elapsed.
pub open spec fn poll_post(
    pre: WasiProcess,
    post: WasiProcess,
    tok_pre: CpuBackoffToken,
    tok_post: CpuBackoffToken,
    elapsed: bool,
    r: BackoffPoll,
) -> bool {
    let wakers = pre.inner.cpu_backoff_wakers@;
    let cancelled = tok_pre.waker_id matches Some(id) && !wakers.contains(id);
    &&& same_but_throttle(pre, post)
    &&& post.inner.cpu_run_cool_off == pre.inner.cpu_run_cool_off
    &&& tok_post.cpu_backoff_time == tok_pre.cpu_backoff_time
    &&& if cancelled {
        &&& r == BackoffPoll::Ready
        &&& tok_post.waker_id is None
        &&& post.inner.cpu_backoff_wakers@ == wakers
        &&& post.inner.cpu_backoff_waker_seed == pre.inner.cpu_backoff_waker_seed
        &&& post.inner.cpu_backoff_time == pre.inner.cpu_backoff_time
    } else {
        &&& r == (if elapsed {
            BackoffPoll::Ready
        } else {
            BackoffPoll::Pending
        })
        &&& post.inner.cpu_backoff_time == (if elapsed && tok_pre.cpu_backoff_time
            == pre.inner.cpu_backoff_time {
            ratchet(pre.inner.cpu_backoff_time, pre.inner.max_cpu_backoff_time)
        } else {
            pre.inner.cpu_backoff_time
        })
        &&& forall|x: u64|
            #![trigger post.inner.cpu_backoff_wakers@.contains(x)]
            x != post.inner.cpu_backoff_waker_seed ==> (post.inner.cpu_backoff_wakers@.contains(x)
                <==> wakers.contains(x) && Some(x) != tok_pre.waker_id)
        &&& if pre.inner.cpu_backoff_waker_seed < u64::MAX {
            &&& post.inner.cpu_backoff_waker_seed == pre.inner.cpu_backoff_waker_seed + 1
            &&& tok_post.waker_id == Some(post.inner.cpu_backoff_waker_seed)
            &&& post.inner.cpu_backoff_wakers@.contains(post.inner.cpu_backoff_waker_seed)
        } else {
            &&& post.inner.cpu_backoff_waker_seed == pre.inner.cpu_backoff_waker_seed
            &&& tok_post.waker_id is None
        }
    }
}

impl WasiProcessInner {
    /// Takes `id` out of the waker set; returns whether it was there.
    fn remove_waker(&mut self, id: u64) -> (r: bool)
        requires
            old(self).wf(),
        ensures
            final(self).wf(),
            r == old(self).cpu_backoff_wakers@.contains(id),
            !r ==> final(self).cpu_backoff_wakers@ == old(self).cpu_backoff_wakers@,
            forall|x: u64|
                #![trigger final(self).cpu_backoff_wakers@.contains(x)]
                final(self).cpu_backoff_wakers@.contains(x) <==> old(
                    self,
                ).cpu_backoff_wakers@.contains(x) && x != id,
            final(self).cpu_backoff_waker_seed == old(self).cpu_backoff_waker_seed,
            final(self).cpu_backoff_time == old(self).cpu_backoff_time,
            final(self).cpu_run_cool_off == old(self).cpu_run_cool_off,
            final(self).max_cpu_backoff_time == old(self).max_cpu_backoff_time,
            final(self).max_cpu_cool_off_time == old(self).max_cpu_cool_off_time,
            final(self).pid == old(self).pid,
            final(self).threads@ == old(self).threads@,
            final(self).thread_count == old(self).thread_count,
            final(self).children@ == old(self).children@,
            final(self).signal_intervals@ == old(self).signal_intervals@,
            final(self).checkpoint == old(self).checkpoint,
            final(self).snapshot_writing == old(self).snapshot_writing,
            final(self).snapshots@ == old(self).snapshots@,
    {
        let mut i: usize = 0;
        let mut found: Option<usize> = None;
        while i < self.cpu_backoff_wakers.len() && found.is_none()
            invariant
                i <= self.cpu_backoff_wakers@.len(),
                found matches Some(k) ==> k < self.cpu_backoff_wakers@.len()
                    && self.cpu_backoff_wakers@[k as int] == id,
                found is None ==> forall|j: int| 0 <= j < i ==> self.cpu_backoff_wakers@[j] != id,
            decreases self.cpu_backoff_wakers@.len() - i,
        {
            if self.cpu_backoff_wakers[i] == id {
                found = Some(i);
            }
            i = i + 1;
        }
        let ghost pre = self.cpu_backoff_wakers@;
        match found {
            None => {
                proof {
                    if pre.contains(id) {
                        let a = choose|a: int| 0 <= a < pre.len() && pre[a] == id;
                        assert(pre[a] != id);
                    }
                }
                false
            },
            Some(k) => {
                self.cpu_backoff_wakers.remove(k);
                proof {
                    let w = self.cpu_backoff_wakers@;
                    assert(w == pre.remove(k as int));
                    assert(pre.contains(id)) by {
                        assert(pre[k as int] == id);
                    }
                    assert forall|x: u64| w.contains(x) <==> pre.contains(x) && x != id by {
                        if w.contains(x) {
                            let a = choose|a: int| 0 <= a < w.len() && w[a] == x;
                            if a < k {
                                assert(pre[a] == x && pre[a] != pre[k as int]);
                            } else {
                                assert(pre[a + 1] == x && pre[a + 1] != pre[k as int]);
                            }
                        }
                        if pre.contains(x) && x != id {
                            let a = choose|a: int| 0 <= a < pre.len() && pre[a] == x;
                            assert(a != k);
                            if a < k {
                                assert(w[a] == x);
                            } else {
                                assert(w[a - 1] == x);
                            }
                        }
                    }
                    assert forall|a: int, b: int| 0 <= a < b < w.len() implies w[a] != w[b] by {
                        let a2 = if a < k { a } else { a + 1 };
                        let b2 = if b < k { b } else { b + 1 };
                        assert(w[a] == pre[a2] && w[b] == pre[b2]);
                    }
                    assert forall|a: int| 0 <= a < w.len() implies w[a]
                        <= self.cpu_backoff_waker_seed by {
                        let a2 = if a < k { a } else { a + 1 };
                        assert(w[a] == pre[a2]);
                    }
                }
                true
            },
        }
    }
}

impl WasiProcess {
    /// Takes a run token: every pending backoff is cancelled, and the
    /// backoff and cool-off are reset. Returns the token and the
    /// registrations of the cancelled backoffs, whose wakers are to be woken.
    pub fn acquire_cpu_run_token(&mut self) -> (r: (CpuRunToken, Vec<u64>))
        requires
            old(self).wf(),
            old(self).cpu_run_tokens < u32::MAX,
        ensures
            final(self).wf(),
            final(self).cpu_run_tokens == old(self).cpu_run_tokens + 1,
            r.1@ == old(self).inner.cpu_backoff_wakers@,
            final(self).inner.cpu_backoff_wakers@.len() == 0,
            final(self).inner.cpu_backoff_time == 0,
            final(self).inner.cpu_run_cool_off == 0,
            final(self).inner.cpu_backoff_waker_seed == old(self).inner.cpu_backoff_waker_seed,
            final(self).pid == old(self).pid,
            final(self).finished == old(self).finished,
            final(self).waiting == old(self).waiting,
            final(self).inner.threads@ == old(self).inner.threads@,
            final(self).inner.children@ == old(self).inner.children@,
            final(self).inner.signal_intervals@ == old(self).inner.signal_intervals@,
            final(self).inner.checkpoint == old(self).inner.checkpoint,
            final(self).inner.max_cpu_backoff_time == old(self).inner.max_cpu_backoff_time,
            final(self).inner.max_cpu_cool_off_time == old(self).inner.max_cpu_cool_off_time,
            final(self).inner.snapshot_writing == old(self).inner.snapshot_writing,
            final(self).inner.snapshots@ == old(self).inner.snapshots@,
    {
        self.cpu_run_tokens = self.cpu_run_tokens + 1;
        let woken = self.inner.cpu_backoff_wakers.clone();
        self.inner.cpu_backoff_wakers = Vec::new();
        self.inner.cpu_backoff_time = 0;
        self.inner.cpu_run_cool_off = 0;
        (CpuRunToken { _private: () }, woken)
    }

    /// Gives back a run token.
    pub fn release_cpu_run_token(&mut self, token: CpuRunToken)
        requires
            old(self).cpu_run_tokens > 0,
        ensures
            final(self).cpu_run_tokens == old(self).cpu_run_tokens - 1,
            final(self).inner == old(self).inner,
            final(self).pid == old(self).pid,
            final(self).finished == old(self).finished,
            final(self).waiting == old(self).waiting,
    {
        self.cpu_run_tokens = self.cpu_run_tokens - 1;
    }

    /// Decides whether to throttle, at monotonic time `now` (nanoseconds).
    /// No backoff while a run token is held; the first call after going
    /// idle starts the cool-off period, and none is handed out before it
    /// ends. After that, a token for the current backoff (1 ms at first).
    pub fn acquire_cpu_backoff_token(&mut self, now: u64) -> (r: Option<CpuBackoffToken>)
        requires
            old(self).wf(),
        ensures
            final(self).wf(),
            backoff_token_post(*old(self), *final(self), now, r),
    {
        if self.cpu_run_tokens > 0 {
            return None;
        }
        if self.inner.cpu_run_cool_off == 0 {
            self.inner.cpu_run_cool_off = now as u128 + 1_000_000 * (
            self.inner.max_cpu_cool_off_time as u128);
        }
        if now as u128 <= self.inner.cpu_run_cool_off {
            return None;
        }
        if self.inner.cpu_backoff_time == 0 {
            self.inner.cpu_backoff_time = 1;
        }
        Some(CpuBackoffToken { cpu_backoff_time: self.inner.cpu_backoff_time, waker_id: None })
    }

    /// One poll of a backoff token; `elapsed` tells whether its timer has
    /// run out. A token whose registration is gone was cancelled by a run
    /// token and completes at once. Otherwise it registers under a fresh id
    /// (none once the ids are used up), and when its timer has run out it
    /// doubles the backoff (up to the maximum), unless another token of
    /// the same generation already did.
    pub fn poll_cpu_backoff_token(&mut self, token: &mut CpuBackoffToken, elapsed: bool) -> (r:
        BackoffPoll)
        requires
            old(self).wf(),
        ensures
            final(self).wf(),
            poll_post(*old(self), *final(self), *old(token), *final(token), elapsed, r),
    {
        let ghost pre = self.inner.cpu_backoff_wakers@;
        match token.waker_id {
            Some(id) => {
                token.waker_id = None;
                if !self.inner.remove_waker(id) {
                    return BackoffPoll::Ready;
                }
            },
            None => {},
        }
        let ghost mid = self.inner.cpu_backoff_wakers@;
        if self.inner.cpu_backoff_waker_seed < u64::MAX {
            let id = self.inner.cpu_backoff_waker_seed + 1;
            proof {
                assert(!mid.contains(id)) by {
                    if mid.contains(id) {
                        let a = choose|a: int| 0 <= a < mid.len() && mid[a] == id;
                    }
                }
            }
            self.inner.cpu_backoff_waker_seed = id;
            self.inner.cpu_backoff_wakers.push(id);
            token.waker_id = Some(id);
            proof {
                let w = self.inner.cpu_backoff_wakers@;
                assert(w == mid.push(id));
                assert forall|a: int, b: int| 0 <= a < b < w.len() implies w[a] != w[b] by {
                    if b == mid.len() {
                        assert(mid[a] <= id - 1);
                    }
                }
                assert forall|x: u64| w.contains(x) <==> mid.contains(x) || x == id by {
                    if w.contains(x) {
                        let a = choose|a: int| 0 <= a < w.len() && w[a] == x;
                        if a < mid.len() {
                            assert(mid[a] == x);
                        }
                    }
                    if mid.contains(x) {
                        let a = choose|a: int| 0 <= a < mid.len() && mid[a] == x;
                        assert(w[a] == x);
                    }
                    if x == id {
                        assert(w[mid.len() as int] == x);
                    }
                }
            }
        }
        if elapsed {
            if token.cpu_backoff_time == self.inner.cpu_backoff_time {
                let b = self.inner.cpu_backoff_time;
                let max = self.inner.max_cpu_backoff_time;
                self.inner.cpu_backoff_time = if b > max / 2 {
                    max
                } else {
                    b * 2
                };
            }
            BackoffPoll::Ready
        } else {
            BackoffPoll::Pending
        }
    }

    /// Releases a backoff token, removing its registration so that none is
    /// left behind.
    pub fn drop_cpu_backoff_token(&mut self, token: CpuBackoffToken)
        requires
            old(self).wf(),
        ensures
            final(self).wf(),
            same_but_throttle(*old(self), *final(self)),
            final(self).inner.cpu_backoff_time == old(self).inner.cpu_backoff_time,
            final(self).inner.cpu_run_cool_off == old(self).inner.cpu_run_cool_off,
            final(self).inner.cpu_backoff_waker_seed == old(self).inner.cpu_backoff_waker_seed,
            token.waker_id is None ==> final(self).inner.cpu_backoff_wakers@ == old(
                self,
            ).inner.cpu_backoff_wakers@,
            forall|x: u64|
                #![trigger final(self).inner.cpu_backoff_wakers@.contains(x)]
                final(self).inner.cpu_backoff_wakers@.contains(x) <==> old(
                    self,
                ).inner.cpu_backoff_wakers@.contains(x) && Some(x) != token.waker_id,
    {
        match token.waker_id {
            Some(id) => {
                self.inner.remove_waker(id);
            },
            None => {},
        }
    }
}

/// The backoff after `n` full delays, starting from `b`.
pub open spec fn backoff_after(b: u64, max: u64, n: nat) -> u64
    decreases n,
{
    if n == 0 {
        b
    } else {
        ratchet(backoff_after(b, max, (n - 1) as nat), max)
    }
}

/// While a run token is held, no backoff is handed out, whatever the
/// backoff state.
pub proof fn lemma_run_token_suppresses_backoff(
    pre: WasiProcess,
    post: WasiProcess,
    now: u64,
    r: Option<CpuBackoffToken>,
)
    requires
        backoff_token_post(pre, post, now, r),
        pre.cpu_run_tokens > 0,
    ensures
        r is None,
        post.inner.cpu_backoff_time == pre.inner.cpu_backoff_time,
{
}

/// Without a run token in between, successive backoffs never shrink and
/// never pass the maximum (given a maximum of at least the 1 ms start); a
/// run token resets the backoff so that the next one starts again at 1 ms.
pub proof fn lemma_backoff_monotonic(b: u64, max: u64, i: nat, j: nat)
    requires
        1 <= max,
        b <= max,
        i <= j,
    ensures
        start_backoff(b) <= max,
        backoff_after(b, max, i) <= backoff_after(b, max, j) <= max,
        start_backoff(0) == 1,
    decreases j,
{
    if j > i {
        lemma_backoff_monotonic(b, max, i, (j - 1) as nat);
        lemma_backoff_monotonic(b, max, (j - 1) as nat, (j - 1) as nat);
    } else if j > 0 {
        lemma_backoff_monotonic(b, max, (j - 1) as nat, (j - 1) as nat);
    }
}

/// After a run token has reset the backoff (`acquire_cpu_run_token` leaves
/// it at 0), the next backoff handed out is the initial 1 ms.
pub proof fn lemma_run_token_resets_backoff(
    pre: WasiProcess,
    post: WasiProcess,
    now: u64,
    r: Option<CpuBackoffToken>,
)
    requires
        pre.inner.cpu_backoff_time == 0,
        backoff_token_post(pre, post, now, r),
    ensures
        r matches Some(t) ==> t.cpu_backoff_time == 1,
        post.inner.cpu_backoff_time <= 1,
{
}

/// With a configured maximum of at least 1 ms, every backoff token handed
/// out waits between 1 ms and the maximum, and never less than the backoff
/// already reached.
pub proof fn lemma_backoff_token_bounded(
    pre: WasiProcess,
    post: WasiProcess,
    now: u64,
    r: Option<CpuBackoffToken>,
)
    requires
        pre.wf(),
        pre.inner.max_cpu_backoff_time >= 1,
        backoff_token_post(pre, post, now, r),
    ensures
        r matches Some(t) ==> 1 <= t.cpu_backoff_time <= pre.inner.max_cpu_backoff_time
            && pre.inner.cpu_backoff_time <= t.cpu_backoff_time,
        pre.inner.cpu_backoff_time <= post.inner.cpu_backoff_time
            <= post.inner.max_cpu_backoff_time,
{
}

/// With a configured maximum of at least 1 ms, polling a backoff token
/// never shrinks the backoff and never takes it past the maximum: without a
/// run token in between, successive backoffs form a non-decreasing sequence
/// bounded by the maximum.
pub proof fn lemma_poll_never_shrinks_backoff(
    pre: WasiProcess,
    post: WasiProcess,
    tok_pre: CpuBackoffToken,
    tok_post: CpuBackoffToken,
    elapsed: bool,
    r: BackoffPoll,
)
    requires
        pre.wf(),
        pre.inner.max_cpu_backoff_time >= 1,
        poll_post(pre, post, tok_pre, tok_post, elapsed, r),
    ensures
        pre.inner.cpu_backoff_time <= post.inner.cpu_backoff_time
            <= post.inner.max_cpu_backoff_time,
{
}

} // verus!
