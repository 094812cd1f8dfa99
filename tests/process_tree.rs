use wasix_process::ids::{Errno, ExitCode, Signal, WasiProcessId, WasiThreadId, MAX_SIGNAL};
use wasix_process::process::{
    ControlPlaneError, JoinFailure, ModuleHash, SignalRoute, WasiProcess, WasiProcessWait,
    WHOLE_PROCESS_TID,
};

fn process(pid: u32) -> WasiProcess {
    WasiProcess::new(WasiProcessId(pid), ModuleHash(vec![1, 2, 3]), None)
}

fn with_threads(pid: u32, extra: &[u32]) -> WasiProcess {
    let mut p = process(pid);
    p.new_thread(Ok(()), None).unwrap();
    for id in extra {
        p.new_thread(Ok(()), Some(Ok(*id))).unwrap();
    }
    p
}

#[test]
fn process_id_conversions() {
    let id = WasiProcessId::from(7u32);
    assert_eq!(id.raw(), 7);
    assert_eq!(u32::from(id), 7);
    assert_eq!(i32::from(id), 7);
    let neg = WasiProcessId::from(-1i32);
    assert_eq!(neg.raw(), u32::MAX);
    assert_eq!(i32::from(neg), -1);
    assert_eq!(WasiThreadId::from(9u32).raw(), 9);
}

#[test]
fn new_process_is_empty() {
    let p = process(5);
    assert_eq!(p.pid(), WasiProcessId(5));
    assert_eq!(p.ppid(), WasiProcessId(0));
    assert_eq!(p.active_threads(), 0);
    assert!(p.inner.children.is_empty());
    assert_eq!(p.try_join(), None);
    assert_eq!(p.waiting, 0);
    assert_eq!(p.cpu_run_tokens, 0);
}

#[test]
fn ppid_reads_parent() {
    let mut p = process(5);
    p.parent = Some(WasiProcessId(2));
    assert_eq!(p.ppid(), WasiProcessId(2));
}

#[test]
fn first_thread_is_main_and_takes_pid() {
    let mut p = process(40);
    let main = p.new_thread(Ok(()), None).unwrap();
    assert_eq!(main, WasiThreadId(40));
    let other = p.new_thread(Ok(()), Some(Ok(41))).unwrap();
    assert_eq!(other, WasiThreadId(41));
    assert!(p.get_thread(&WasiThreadId(40)).unwrap().is_main);
    assert!(!p.get_thread(&WasiThreadId(41)).unwrap().is_main);
    assert_eq!(p.active_threads(), 2);
    assert_eq!(p.inner.threads.len(), 2);
    assert!(p.get_thread(&WasiThreadId(99)).is_none());
}

#[test]
fn thread_counter_tracks_table() {
    let mut p = with_threads(10, &[11, 12, 13]);
    assert_eq!(p.active_threads() as usize, p.inner.threads.len());
    assert!(p.remove_thread(WasiThreadId(12)));
    assert!(!p.remove_thread(WasiThreadId(12)));
    assert_eq!(p.active_threads(), 3);
    assert_eq!(p.active_threads() as usize, p.inner.threads.len());
}

#[test]
fn new_thread_reports_registry_errors() {
    let mut p = process(10);
    assert_eq!(
        p.new_thread(Err(ControlPlaneError::TaskLimitReached), None),
        Err(ControlPlaneError::TaskLimitReached)
    );
    assert_eq!(p.active_threads(), 0);
    p.new_thread(Ok(()), None).unwrap();
    assert_eq!(
        p.new_thread(Ok(()), Some(Err(ControlPlaneError::IdsExhausted))),
        Err(ControlPlaneError::IdsExhausted)
    );
    assert_eq!(p.active_threads(), 1);
}

#[test]
fn signal_thread_sentinel_goes_to_main() {
    let p = with_threads(30, &[31]);
    let sig = Signal(2);
    assert_eq!(p.signal_thread(&WasiThreadId(WHOLE_PROCESS_TID), sig), Some(WasiThreadId(30)));
    assert_eq!(p.signal_thread(&WasiThreadId(31), sig), Some(WasiThreadId(31)));
    assert_eq!(p.signal_thread(&WasiThreadId(77), sig), None);
}

#[test]
fn signal_thread_sentinel_without_threads_is_dropped() {
    let p = process(30);
    assert_eq!(p.signal_thread(&WasiThreadId(WHOLE_PROCESS_TID), Signal(2)), None);
}

#[test]
fn signal_process_routes_to_threads_without_waiters() {
    let mut p = with_threads(20, &[21]);
    p.add_child(WasiProcessId(50));
    match p.signal_process(Signal(15)) {
        SignalRoute::Threads(t) => assert_eq!(t, vec![WasiThreadId(20), WasiThreadId(21)]),
        SignalRoute::Children(_) => panic!("expected threads"),
    }
}

#[test]
fn signal_process_forwards_to_children_while_waiting() {
    let mut p = with_threads(20, &[21]);
    p.add_child(WasiProcessId(50));
    p.add_child(WasiProcessId(51));
    let w = WasiProcessWait::new(&mut p);
    assert_eq!(p.waiting, 1);
    match p.signal_process(Signal(2)) {
        SignalRoute::Children(c) => assert_eq!(c, vec![WasiProcessId(50), WasiProcessId(51)]),
        SignalRoute::Threads(_) => panic!("expected children"),
    }
    w.release(&mut p);
    assert_eq!(p.waiting, 0);
    assert!(matches!(p.signal_process(Signal(2)), SignalRoute::Threads(_)));
}

#[test]
fn signal_process_waiting_without_children_goes_to_threads() {
    let mut p = with_threads(20, &[]);
    let _w = WasiProcessWait::new(&mut p);
    match p.signal_process(Signal(2)) {
        SignalRoute::Threads(t) => assert_eq!(t, vec![WasiThreadId(20)]),
        SignalRoute::Children(_) => panic!("expected threads"),
    }
}

#[test]
fn signal_number_conversion() {
    let p = with_threads(20, &[]);
    assert!(p.signal(2).is_ok());
    assert!(p.signal(MAX_SIGNAL).is_ok());
    assert!(p.signal(MAX_SIGNAL + 1).is_err());
    assert_eq!(Signal::from_raw(9).unwrap().raw(), 9);
    assert!(Signal::from_raw(200).is_err());
}

#[test]
fn second_signal_interval_replaces_first() {
    let mut p = process(1);
    let alrm = Signal(14);
    p.signal_interval(alrm, Some(1_000), false, 100);
    p.signal_interval(alrm, Some(5_000), true, 200);
    assert_eq!(p.inner.signal_intervals.len(), 1);
    let e = p.inner.signal_intervals[0];
    assert_eq!(e.signal, alrm);
    assert_eq!(e.interval, 5_000);
    assert_eq!(e.last_signal, 200);
    assert!(e.repeat);
}

#[test]
fn signal_interval_none_removes_only_that_kind() {
    let mut p = process(1);
    p.signal_interval(Signal(14), Some(1_000), false, 100);
    p.signal_interval(Signal(26), Some(2_000), true, 100);
    p.signal_interval(Signal(14), None, false, 300);
    assert_eq!(p.inner.signal_intervals.len(), 1);
    assert_eq!(p.inner.signal_intervals[0].signal, Signal(26));
    p.signal_interval(Signal(14), None, false, 300);
    assert_eq!(p.inner.signal_intervals.len(), 1);
}

#[test]
fn join_children_without_children() {
    let p = process(1);
    assert_eq!(p.join_children(), None);
}

#[test]
fn join_children_removes_one_child_per_join() {
    let mut p = process(1);
    p.add_child(WasiProcessId(2));
    p.add_child(WasiProcessId(3));
    assert_eq!(p.join_children(), Some(vec![WasiProcessId(2), WasiProcessId(3)]));
    assert!(p.child_joined(WasiProcessId(3)));
    assert_eq!(p.inner.children, vec![WasiProcessId(2)]);
    assert!(!p.child_joined(WasiProcessId(3)));
    assert_eq!(p.inner.children, vec![WasiProcessId(2)]);
}

#[test]
fn join_any_child_without_children() {
    let p = process(1);
    assert_eq!(p.join_any_child(), Err(Errno::Child));
}

#[test]
fn join_any_child_first_finisher_wins() {
    let mut p = process(1);
    let c1 = WasiProcessId(2);
    let c2 = WasiProcessId(3);
    p.add_child(c1);
    p.add_child(c2);
    assert_eq!(p.join_any_child(), Ok(vec![c1, c2]));
    // C1 exits with 0 after 10 ms, before C2 (1 after 50 ms).
    assert_eq!(p.child_finished(c1, Ok(ExitCode(0))), (c1, ExitCode(0)));
    assert_eq!(p.inner.children, vec![c2]);
}

#[test]
fn failed_child_join_degrades_to_exit_code() {
    let mut p = process(1);
    p.add_child(WasiProcessId(2));
    p.add_child(WasiProcessId(3));
    let r = p.child_finished(WasiProcessId(2), Err(JoinFailure { exit_code: None }));
    assert_eq!(r, (WasiProcessId(2), ExitCode(11)));
    let r = p.child_finished(WasiProcessId(3), Err(JoinFailure { exit_code: Some(ExitCode(3)) }));
    assert_eq!(r, (WasiProcessId(3), ExitCode(3)));
    assert!(p.inner.children.is_empty());
}

#[test]
fn exit_codes_from_errno() {
    assert_eq!(ExitCode::from_errno(Errno::Canceled), ExitCode(11));
    assert_eq!(ExitCode::from_errno(Errno::Child), ExitCode(12));
    assert_eq!(Errno::Child.raw(), 12);
    assert!(ExitCode(0).is_success());
    assert!(!ExitCode(1).is_success());
    assert_eq!(ExitCode(255).raw(), 255);
}

#[test]
fn terminate_marks_every_thread_first_status_wins() {
    let mut p = with_threads(8, &[9, 10]);
    let i = p.inner.threads.iter().position(|t| t.tid == WasiThreadId(10)).unwrap();
    p.inner.threads[i].status = Some(ExitCode(4));
    p.terminate(ExitCode(1));
    assert_eq!(p.try_join(), Some(ExitCode(1)));
    assert_eq!(p.get_thread(&WasiThreadId(9)).unwrap().status, Some(ExitCode(1)));
    assert_eq!(p.get_thread(&WasiThreadId(10)).unwrap().status, Some(ExitCode(4)));
    p.terminate(ExitCode(2));
    assert_eq!(p.try_join(), Some(ExitCode(1)));
}

#[test]
fn set_finished_keeps_first_status() {
    let mut p = process(8);
    p.set_finished(ExitCode(3));
    p.set_finished(ExitCode(5));
    assert_eq!(p.try_join(), Some(ExitCode(3)));
}
