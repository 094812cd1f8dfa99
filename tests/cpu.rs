use wasix_process::cpu::BackoffPoll;
use wasix_process::ids::WasiProcessId;
use wasix_process::process::{ModuleHash, WasiProcess};

const MS: u64 = 1_000_000;

fn idle_process(max_backoff_ms: Option<u64>) -> WasiProcess {
    let mut p = WasiProcess::new(WasiProcessId(1), ModuleHash(Vec::new()), max_backoff_ms);
    // Start the cool-off period at time 0 + 1 ms.
    assert!(p.acquire_cpu_backoff_token(MS).is_none());
    p
}

#[test]
fn run_token_suppresses_backoff() {
    let mut p = idle_process(None);
    let (token, woken) = p.acquire_cpu_run_token();
    assert!(woken.is_empty());
    for now in [0, 1, 600 * MS, 10_000 * MS] {
        assert!(p.acquire_cpu_backoff_token(now).is_none());
    }
    p.release_cpu_run_token(token);
    assert_eq!(p.cpu_run_tokens, 0);
}

#[test]
fn cool_off_period_comes_first() {
    let mut p = WasiProcess::new(WasiProcessId(1), ModuleHash(Vec::new()), None);
    assert!(p.acquire_cpu_backoff_token(1000).is_none());
    assert!(p.acquire_cpu_backoff_token(1000 + 500 * MS).is_none());
    let t = p.acquire_cpu_backoff_token(1001 + 500 * MS).unwrap();
    assert_eq!(t.cpu_backoff_time, 1);
    assert_eq!(t.waker_id, None);
}

#[test]
fn backoff_doubles_up_to_maximum() {
    let mut p = idle_process(Some(5));
    let now = 600 * MS;
    let mut seen = Vec::new();
    for _ in 0..5 {
        let mut t = p.acquire_cpu_backoff_token(now).unwrap();
        seen.push(t.cpu_backoff_time);
        assert_eq!(p.poll_cpu_backoff_token(&mut t, false), BackoffPoll::Pending);
        assert_eq!(p.poll_cpu_backoff_token(&mut t, true), BackoffPoll::Ready);
        p.drop_cpu_backoff_token(t);
    }
    assert_eq!(seen, vec![1, 2, 4, 5, 5]);
}

#[test]
fn one_ratchet_per_generation() {
    let mut p = idle_process(None);
    let now = 600 * MS;
    let mut a = p.acquire_cpu_backoff_token(now).unwrap();
    let mut b = p.acquire_cpu_backoff_token(now).unwrap();
    assert_eq!(p.poll_cpu_backoff_token(&mut a, true), BackoffPoll::Ready);
    assert_eq!(p.poll_cpu_backoff_token(&mut b, true), BackoffPoll::Ready);
    let c = p.acquire_cpu_backoff_token(now).unwrap();
    assert_eq!(c.cpu_backoff_time, 2);
}

#[test]
fn run_token_cancels_pending_backoff_and_resets() {
    let mut p = idle_process(None);
    let now = 600 * MS;
    let mut first = p.acquire_cpu_backoff_token(now).unwrap();
    assert_eq!(p.poll_cpu_backoff_token(&mut first, true), BackoffPoll::Ready);
    p.drop_cpu_backoff_token(first);
    let mut t = p.acquire_cpu_backoff_token(now).unwrap();
    assert_eq!(t.cpu_backoff_time, 2);
    assert_eq!(p.poll_cpu_backoff_token(&mut t, false), BackoffPoll::Pending);
    let id = t.waker_id.unwrap();

    let (run, woken) = p.acquire_cpu_run_token();
    assert_eq!(woken, vec![id]);
    // The registration is gone, so the next poll completes at once.
    assert_eq!(p.poll_cpu_backoff_token(&mut t, false), BackoffPoll::Ready);
    p.release_cpu_run_token(run);

    // Back to the start: cool-off again, then 1 ms.
    assert!(p.acquire_cpu_backoff_token(now).is_none());
    let fresh = p.acquire_cpu_backoff_token(now + 501 * MS).unwrap();
    assert_eq!(fresh.cpu_backoff_time, 1);
}

#[test]
fn repolling_replaces_registration() {
    let mut p = idle_process(None);
    let mut t = p.acquire_cpu_backoff_token(600 * MS).unwrap();
    p.poll_cpu_backoff_token(&mut t, false);
    let first = t.waker_id.unwrap();
    p.poll_cpu_backoff_token(&mut t, false);
    let second = t.waker_id.unwrap();
    assert_ne!(first, second);
    assert_eq!(p.inner.cpu_backoff_wakers, vec![second]);
    p.drop_cpu_backoff_token(t);
    assert!(p.inner.cpu_backoff_wakers.is_empty());
}
