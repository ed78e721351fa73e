use backend_supervisor::interpreter::{interpreter_binary, version_check_command, Platform};
use backend_supervisor::resolver::{check_entry_point, entry_point_candidate, DeploymentMode};
use backend_supervisor::error::SupervisionError;
use backend_supervisor::text::decimal_string;
use backend_supervisor::waiter::{address_string, ReadinessWaiter, WaitAction, POLL_INTERVAL_MS};

fn ideal_wait(w: &ReadinessWaiter, opens_at: Option<u64>) -> (bool, u64) {
    let mut now: u64 = 0;
    loop {
        if matches!(w.on_clock(now), WaitAction::TimedOut) {
            return (false, now);
        }
        let open = matches!(opens_at, Some(t) if t <= now);
        match w.on_probe(open) {
            WaitAction::Ready => return (true, now),
            WaitAction::Sleep(ms) => now += ms,
            _ => panic!("on_probe gives Ready or Sleep"),
        }
    }
}

#[test]
fn clock_decision_at_deadline() {
    let w = ReadinessWaiter::new("127.0.0.1".to_string(), 5001, 30);
    assert!(matches!(w.on_clock(0), WaitAction::Probe));
    assert!(matches!(w.on_clock(29_999), WaitAction::Probe));
    assert!(matches!(w.on_clock(30_000), WaitAction::TimedOut));
    assert!(matches!(w.on_clock(u64::MAX), WaitAction::TimedOut));
    let zero = ReadinessWaiter::new("127.0.0.1".to_string(), 5001, 0);
    assert!(matches!(zero.on_clock(0), WaitAction::TimedOut));
}

#[test]
fn probe_decision() {
    let w = ReadinessWaiter::new("127.0.0.1".to_string(), 5001, 30);
    assert!(matches!(w.on_probe(true), WaitAction::Ready));
    assert!(matches!(w.on_probe(false), WaitAction::Sleep(100)));
    assert_eq!(POLL_INTERVAL_MS, 100);
}

#[test]
fn timeout_never_early() {
    for secs in [1u64, 2, 30] {
        let w = ReadinessWaiter::new("127.0.0.1".to_string(), 5001, secs);
        let (ready, at) = ideal_wait(&w, None);
        assert!(!ready);
        assert!(at >= secs * 1000 && at < secs * 1000 + POLL_INTERVAL_MS);
    }
}

#[test]
fn success_within_one_interval() {
    let w = ReadinessWaiter::new("127.0.0.1".to_string(), 5001, 1);
    for opens_at in [0u64, 1, 250, 300, 899] {
        let (ready, at) = ideal_wait(&w, Some(opens_at));
        assert!(ready);
        assert!(at >= opens_at && at < opens_at + POLL_INTERVAL_MS);
    }
    assert_eq!(ideal_wait(&w, Some(250)), (true, 300));
    // Opening within the last interval before the deadline is not seen.
    assert_eq!(ideal_wait(&w, Some(950)), (false, 1_000));
}

#[test]
fn decimal_text() {
    assert_eq!(decimal_string(0), "0");
    assert_eq!(decimal_string(9), "9");
    assert_eq!(decimal_string(10), "10");
    assert_eq!(decimal_string(5001), "5001");
    assert_eq!(decimal_string(65535), "65535");
    assert_eq!(decimal_string(u64::MAX), u64::MAX.to_string());
}

#[test]
fn probe_address() {
    assert_eq!(address_string("127.0.0.1", 5001), "127.0.0.1:5001");
    let w = ReadinessWaiter::new("localhost".to_string(), 8, 1);
    assert_eq!(w.address(), "localhost:8");
    let t = w.timeout_error(1_000);
    assert_eq!(t.message(), "Timed out waiting for localhost:8 to be available");
    assert_eq!(t.elapsed_ms, 1_000);
}

#[test]
fn development_candidate_ignores_app_dir() {
    let p = entry_point_candidate(DeploymentMode::Development, Some("/data".to_string()));
    assert!(matches!(p, Ok(ref s) if s == "python/server.py"));
    let p = entry_point_candidate(DeploymentMode::Development, None);
    assert!(matches!(p, Ok(ref s) if s == "python/server.py"));
}

#[test]
fn packaged_candidate_joins_under_app_dir() {
    let p = entry_point_candidate(DeploymentMode::Packaged, Some("/home/u/.local/share/app".to_string()));
    assert!(matches!(p, Ok(ref s) if s == "/home/u/.local/share/app/python/server.py"));
    let p = entry_point_candidate(DeploymentMode::Packaged, Some("/srv/".to_string()));
    assert!(matches!(p, Ok(ref s) if s == "/srv/python/server.py"));
    let p = entry_point_candidate(DeploymentMode::Packaged, None);
    assert!(matches!(p, Err(SupervisionError::AppDirUnavailable)));
}

#[test]
fn existence_check_decides() {
    let ok = check_entry_point(DeploymentMode::Packaged, "/a/b.py".to_string(), true);
    assert!(matches!(ok, Ok(ref s) if s == "/a/b.py"));
    let missing = check_entry_point(DeploymentMode::Development, "/a/b.py".to_string(), false);
    match missing {
        Err(SupervisionError::PathNotFound { path, mode }) => {
            assert_eq!(path, "/a/b.py");
            assert_eq!(mode, DeploymentMode::Development);
        }
        _ => panic!("expected PathNotFound"),
    }
}

#[test]
fn interpreter_per_platform() {
    assert_eq!(interpreter_binary(Platform::Windows), "python");
    assert_eq!(interpreter_binary(Platform::Unix), "python3");
    assert_eq!(version_check_command(Platform::Windows), "python --version");
    assert_eq!(version_check_command(Platform::Unix), "python3 --version");
}
