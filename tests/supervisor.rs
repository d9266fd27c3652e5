use backend_supervisor::notice::{KillError, Level, LogRecord, Notice, SpawnError, Termination};
use backend_supervisor::relay::{relay_all, OutputEvent, Relay};
use backend_supervisor::supervisor::{Phase, RunMode, StartAction, Supervisor};

fn info(notice: Notice) -> LogRecord {
    LogRecord::new(Level::Info, notice)
}

#[test]
fn ready_then_clean_exit() {
    let mut sup: Supervisor<u32> = Supervisor::new(RunMode::Packaged);
    let (action, rec) = sup.start();
    assert_eq!(action, StartAction::Spawn);
    assert_eq!(rec, Some(info(Notice::Launching)));
    assert_eq!(sup.spawned(7), Ok(info(Notice::Started)));
    assert!(sup.has_handle());

    let exit = Termination { code: Some(0), signal: None };
    let events = vec![OutputEvent::Stdout(b"ready".to_vec()), OutputEvent::Terminated(exit)];
    let mut relay = Relay::new();
    let mut logged = Vec::new();
    for e in &events {
        if let Some(r) = relay.on_event(e) {
            logged.push(r);
        }
    }
    assert_eq!(
        logged,
        vec![info(Notice::Output("ready".to_string())), info(Notice::Exited(exit))]
    );
    assert!(!relay.is_subscribed());
    assert_eq!(relay_all(&events), logged);

    assert_eq!(sup.child_exited(), Some(7));
    assert_eq!(sup.phase(), Phase::Stopped);
    assert_eq!(sup.stop(), None);
    assert_eq!(sup.phase(), Phase::Stopped);
}

#[test]
fn stop_before_start_is_noop() {
    let mut sup: Supervisor<u32> = Supervisor::new(RunMode::Packaged);
    assert_eq!(sup.stop(), None);
    assert_eq!(sup.phase(), Phase::NotStarted);
    assert!(!sup.has_handle());
}

#[test]
fn second_stop_takes_nothing() {
    let mut sup: Supervisor<u32> = Supervisor::new(RunMode::Packaged);
    sup.start();
    sup.spawned(3).unwrap();
    assert_eq!(sup.stop(), Some(3));
    assert_eq!(sup.phase(), Phase::Terminating);
    assert_eq!(sup.stop(), None);
    assert_eq!(sup.phase(), Phase::Terminating);
    assert_eq!(sup.kill_finished(Ok(())), info(Notice::Killed));
    assert_eq!(sup.phase(), Phase::Stopped);
}

#[test]
fn spawn_failure_then_stop_is_noop() {
    let mut sup: Supervisor<u32> = Supervisor::new(RunMode::Packaged);
    sup.start();
    let rec = sup.spawn_failed(SpawnError::Os("denied".to_string()));
    assert_eq!(
        rec,
        LogRecord::new(Level::Error, Notice::SpawnFailed(SpawnError::Os("denied".to_string())))
    );
    assert_eq!(sup.phase(), Phase::NotStarted);
    assert_eq!(sup.stop(), None);
    assert!(!sup.has_handle());
}

#[test]
fn spawn_not_found_is_reported() {
    let mut sup: Supervisor<u32> = Supervisor::new(RunMode::Packaged);
    sup.start();
    let rec = sup.spawn_failed(SpawnError::NotFound("backend".to_string()));
    assert_eq!(rec.level, Level::Error);
    assert_eq!(rec.notice, Notice::SpawnFailed(SpawnError::NotFound("backend".to_string())));
}

#[test]
fn second_handle_is_refused() {
    let mut sup: Supervisor<u32> = Supervisor::new(RunMode::Packaged);
    sup.start();
    sup.spawned(1).unwrap();
    assert_eq!(sup.start(), (StartAction::Skip, None));
    assert_eq!(sup.spawned(2), Err(2));
    assert_eq!(sup.stop(), Some(1));
}

#[test]
fn handle_after_stop_during_spawn_is_refused() {
    let mut sup: Supervisor<u32> = Supervisor::new(RunMode::Packaged);
    sup.start();
    assert_eq!(sup.phase(), Phase::Spawning);
    assert_eq!(sup.stop(), None);
    assert_eq!(sup.phase(), Phase::Stopped);
    assert_eq!(sup.spawned(5), Err(5));
    assert!(!sup.has_handle());
}

#[test]
fn externally_managed_never_spawns() {
    let mut sup: Supervisor<u32> = Supervisor::new(RunMode::ExternallyManaged);
    assert_eq!(sup.mode(), RunMode::ExternallyManaged);
    assert_eq!(sup.start(), (StartAction::Skip, Some(info(Notice::ExternallyManaged))));
    assert_eq!(sup.phase(), Phase::NotStarted);
    assert_eq!(sup.spawned(9), Err(9));
    assert_eq!(sup.stop(), None);
}

#[test]
fn kill_failure_is_reported() {
    let mut sup: Supervisor<u32> = Supervisor::new(RunMode::Packaged);
    sup.start();
    sup.spawned(4).unwrap();
    assert_eq!(sup.stop(), Some(4));
    let err = KillError { message: "no such process".to_string() };
    let rec = sup.kill_finished(Err(err));
    assert_eq!(
        rec,
        LogRecord::new(
            Level::Error,
            Notice::KillFailed(KillError { message: "no such process".to_string() })
        )
    );
    assert_eq!(sup.phase(), Phase::Stopped);
}
