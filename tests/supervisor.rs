use std::cell::Cell;

use spx_supervisor::outcome::{LaunchError, Status};
use spx_supervisor::path::{Platform, ResolvedPath};
use spx_supervisor::supervisor::Supervisor;

fn located() -> Result<ResolvedPath, LaunchError> {
    Ok(ResolvedPath::new("/opt/spx/spx-server", Platform::Linux))
}

#[test]
fn only_first_launch_starts_process() {
    let mut sup: Supervisor<u32> = Supervisor::new();
    let spawned = Cell::new(0u32);
    let mut results = Vec::new();
    for _ in 0..5 {
        let r = sup.launch(located, |p: &ResolvedPath| {
            assert_eq!(p.work_dir, "/opt/spx");
            spawned.set(spawned.get() + 1);
            Ok(spawned.get())
        });
        results.push(r.unwrap());
    }
    assert_eq!(results[0], Status::Launched);
    assert!(results[1..].iter().all(|s| *s == Status::AlreadyRunning));
    assert_eq!(spawned.get(), 1);
    assert!(sup.is_running());
}

#[test]
fn stop_when_idle_reports_not_running() {
    let mut sup: Supervisor<u32> = Supervisor::new();
    for _ in 0..3 {
        let r = sup.stop(|_h: u32| Err("never called".to_string()));
        assert_eq!(r.unwrap(), Status::NotRunning);
        assert!(!sup.is_running());
    }
}

#[test]
fn launch_stop_launch() {
    let mut sup: Supervisor<u32> = Supervisor::new();
    assert_eq!(sup.launch(located, |_p: &ResolvedPath| Ok(1)).unwrap(), Status::Launched);
    let killed = Cell::new(None);
    assert_eq!(sup.stop(|h: u32| { killed.set(Some(h)); Ok(()) }).unwrap(), Status::Stopped);
    assert_eq!(killed.get(), Some(1));
    assert!(!sup.is_running());
    assert_eq!(sup.launch(located, |_p: &ResolvedPath| Ok(2)).unwrap(), Status::Launched);
    assert!(sup.is_running());
}

#[test]
fn cancelled_location_leaves_slot_empty() {
    let mut sup: Supervisor<u32> = Supervisor::new();
    let spawned = Cell::new(false);
    let r = sup.launch(|| Err(LaunchError::SelectionCancelled), |_p: &ResolvedPath| {
        spawned.set(true);
        Ok(1)
    });
    assert!(matches!(r, Err(LaunchError::SelectionCancelled)));
    assert!(!spawned.get());
    assert!(!sup.is_running());
}

#[test]
fn spawn_failure_reports_path_and_reason() {
    let mut sup: Supervisor<u32> = Supervisor::new();
    let r = sup.launch(located, |_p: &ResolvedPath| Err("permission denied".to_string()));
    match r {
        Err(e @ LaunchError::SpawnFailed { .. }) => {
            assert_eq!(e.message(), "Failed to launch server at /opt/spx/spx-server: permission denied");
        }
        _ => panic!("expected SpawnFailed"),
    }
    assert!(!sup.is_running());
}

#[test]
fn running_launch_skips_location() {
    let mut sup: Supervisor<u32> = Supervisor::new();
    sup.launch(located, |_p: &ResolvedPath| Ok(1)).unwrap();
    let asked = Cell::new(false);
    let r = sup.launch(|| { asked.set(true); located() }, |_p: &ResolvedPath| Ok(2));
    assert_eq!(r.unwrap(), Status::AlreadyRunning);
    assert!(!asked.get());
}

#[test]
fn kill_failure_still_empties_slot() {
    let mut sup: Supervisor<u32> = Supervisor::new();
    sup.launch(located, |_p: &ResolvedPath| Ok(1)).unwrap();
    let r = sup.stop(|_h: u32| Err("operation not permitted".to_string()));
    match r {
        Err(LaunchError::KillFailed(m)) => assert_eq!(m, "operation not permitted"),
        _ => panic!("expected KillFailed"),
    }
    assert!(!sup.is_running());
    assert_eq!(sup.stop(|_h: u32| Ok(())).unwrap(), Status::NotRunning);
}

#[test]
fn messages_for_outcomes() {
    assert_eq!(Status::Launched.message(), "Server is running");
    assert_eq!(Status::AlreadyRunning.message(), "Server is already running");
    assert_eq!(Status::Stopped.message(), "Server stopped");
    assert_eq!(Status::NotRunning.message(), "Server was not running");
    assert_eq!(LaunchError::SelectionCancelled.message(), "User cancelled file selection");
    assert_eq!(LaunchError::KillFailed("no".to_string()).message(), "no");
}
