use alerion_core::bind_mount::{BindMount, MountDescriptor};
use alerion_core::error::{IoFault, IoKind, ServerError};
use alerion_core::pool::ServerPool;
use alerion_core::server::{retry_install, stop_action, ContainerStatus, RemovalStep, Server, StopAction};
use alerion_core::state::{replay, transition, PowerState, Trigger};

const S1: u128 = 0x550e8400_e29b_41d4_a716_446655440000;

fn fault(kind: IoKind, detail: &str) -> IoFault {
    IoFault { kind, detail: detail.to_string() }
}

fn installed(id: u128) -> Server {
    let mut s = Server::new(id);
    s.begin_install().unwrap();
    s.finish_install(BindMount::new("/srv/mounts", id), Ok("c1".to_string())).unwrap();
    s
}

fn running(id: u128) -> Server {
    let mut s = installed(id);
    s.begin_start(ContainerStatus::NotRunning).unwrap();
    s.finish_start(Ok(())).unwrap();
    s
}

#[test]
fn mount_path_is_hyphenated_identifier() {
    let m = BindMount::new("/srv/mounts", S1);
    assert_eq!(m.path(), "/srv/mounts/550e8400-e29b-41d4-a716-446655440000");
    let z = BindMount::new("/d", 0xab);
    assert_eq!(z.path(), "/d/00000000-0000-0000-0000-0000000000ab");
}

#[test]
fn distinct_identifiers_get_distinct_directories() {
    assert_ne!(BindMount::new("/d", 1).path(), BindMount::new("/d", 2).path());
}

#[test]
fn entry_path_joins_name() {
    let m = BindMount::new("/d", 1);
    assert_eq!(m.entry_path("world.dat"), "/d/00000000-0000-0000-0000-000000000001/world.dat");
}

#[test]
fn docker_mount_binds_directory_read_write() {
    let m = BindMount::new("/d", S1);
    let d = m.to_docker_mount("/home/container".to_string());
    assert_eq!(
        d,
        MountDescriptor {
            target: "/home/container".to_string(),
            source: "/d/550e8400-e29b-41d4-a716-446655440000".to_string(),
            read_only: false,
            non_recursive: true,
        }
    );
}

#[test]
fn clean_of_empty_directory_succeeds() {
    let m = BindMount::new("/d", 1);
    assert!(m.clean(&vec![]).is_ok());
}

#[test]
fn clean_ignores_entries_already_gone() {
    let m = BindMount::new("/d", 1);
    let r = m.clean(&vec![Ok(()), Err(fault(IoKind::NotFound, "gone")), Ok(())]);
    assert!(r.is_ok());
}

#[test]
fn clean_reports_first_failure() {
    let m = BindMount::new("/d", 1);
    let r = m.clean(&vec![
        Ok(()),
        Err(fault(IoKind::NotFound, "gone")),
        Err(fault(IoKind::Other, "permission denied")),
        Err(fault(IoKind::Other, "busy")),
    ]);
    let e = r.unwrap_err();
    assert_eq!(e.kind, IoKind::Other);
    assert_eq!(e.detail, "permission denied");
}

#[test]
fn io_fault_converts_to_server_error() {
    let e: ServerError = fault(IoKind::Other, "x").into();
    assert!(matches!(e, ServerError::Io(IoFault { kind: IoKind::Other, .. })));
    assert!(ServerError::Conflict.is_conflict());
    assert!(!ServerError::MalformedResponse.is_conflict());
}

#[test]
fn transition_table() {
    assert_eq!(transition(PowerState::Uninstalled, Trigger::Install), Some(PowerState::Installing));
    assert_eq!(transition(PowerState::Installing, Trigger::InstallFailed), Some(PowerState::Uninstalled));
    assert_eq!(transition(PowerState::Running, Trigger::ContainerExited), Some(PowerState::Crashed));
    assert_eq!(transition(PowerState::Crashed, Trigger::Restart), Some(PowerState::Starting));
    assert_eq!(transition(PowerState::Offline, Trigger::Stop), None);
    assert_eq!(transition(PowerState::Stopping, Trigger::Remove), Some(PowerState::Removed));
    assert_eq!(transition(PowerState::Removed, Trigger::Remove), None);
}

#[test]
fn replay_is_deterministic() {
    let ts = vec![
        Trigger::Install,
        Trigger::InstallSucceeded,
        Trigger::Start,
        Trigger::StartSucceeded,
        Trigger::Stop,
        Trigger::StopSucceeded,
    ];
    assert_eq!(replay(PowerState::Uninstalled, &ts), Some(PowerState::Offline));
    assert_eq!(replay(PowerState::Uninstalled, &ts), replay(PowerState::Uninstalled, &ts));
    assert_eq!(replay(PowerState::Offline, &ts), None);
    assert_eq!(replay(PowerState::Crashed, &vec![]), Some(PowerState::Crashed));
}

#[test]
fn install_on_fresh_pool() {
    let mut pool = ServerPool::new();
    pool.register(Server::new(S1)).unwrap();
    let mut s = pool.acquire(S1).unwrap().unwrap();
    s.begin_install().unwrap();
    s.finish_install(BindMount::new("/srv/mounts", S1), Ok("c1".to_string())).unwrap();
    pool.release(s);
    assert_eq!(pool.state_of(S1), Some(PowerState::Offline));
    let s = pool.acquire(S1).unwrap().unwrap();
    assert_eq!(s.container(), Some("c1"));
    assert_eq!(s.mount().unwrap().path(), "/srv/mounts/550e8400-e29b-41d4-a716-446655440000");
}

#[test]
fn failed_install_keeps_no_container() {
    let mut s = Server::new(S1);
    s.begin_install().unwrap();
    let r = s.finish_install(BindMount::new("/d", S1), Err(ServerError::Docker("no such image".to_string())));
    assert!(matches!(r, Err(ServerError::Docker(_))));
    assert_eq!(s.state(), PowerState::Uninstalled);
    assert_eq!(s.container(), None);
    assert!(s.mount().is_some());
}

#[test]
fn abandoned_install_returns_to_uninstalled() {
    let mut s = Server::new(S1);
    s.begin_install().unwrap();
    let e = s.abandon_install(ServerError::RemoteApi("404".to_string()));
    assert!(matches!(e, ServerError::RemoteApi(_)));
    assert_eq!(s.state(), PowerState::Uninstalled);
    assert!(s.mount().is_none());
}

#[test]
fn install_twice_conflicts() {
    let mut s = installed(S1);
    assert!(matches!(s.begin_install(), Err(ServerError::Conflict)));
    assert_eq!(s.state(), PowerState::Offline);
}

#[test]
fn install_retries_runtime_failures_only() {
    let docker = ServerError::Docker("timeout".to_string());
    assert!(retry_install(&docker, 1, 1));
    assert!(!retry_install(&docker, 2, 1));
    assert!(!retry_install(&ServerError::RemoteApi("500".to_string()), 1, 3));
    assert!(!retry_install(&ServerError::Io(fault(IoKind::Other, "x")), 1, 3));
}

#[test]
fn second_concurrent_start_conflicts() {
    let mut pool = ServerPool::new();
    pool.register(installed(S1)).unwrap();
    let mut first = pool.acquire(S1).unwrap().unwrap();
    first.begin_start(ContainerStatus::NotRunning).unwrap();
    assert!(pool.is_busy(S1));
    assert!(matches!(pool.acquire(S1), Some(Err(ServerError::Conflict))));
    first.finish_start(Ok(())).unwrap();
    pool.release(first);
    assert!(!pool.is_busy(S1));
    assert_eq!(pool.state_of(S1), Some(PowerState::Running));
}

#[test]
fn pool_rejects_duplicates_and_unknown_ids() {
    let mut pool = ServerPool::new();
    pool.register(Server::new(1)).unwrap();
    assert!(matches!(pool.register(Server::new(1)), Err(ServerError::Conflict)));
    assert_eq!(pool.len(), 1);
    assert!(pool.acquire(2).is_none());
    assert!(pool.remove(2).is_none());
    assert!(pool.contains(1));
    assert!(!pool.contains(2));
}

#[test]
fn pool_remove_conflicts_while_busy() {
    let mut pool = ServerPool::new();
    pool.register(Server::new(1)).unwrap();
    let s = pool.acquire(1).unwrap().unwrap();
    assert!(matches!(pool.remove(1), Some(Err(ServerError::Conflict))));
    assert!(pool.contains(1));
    pool.release(s);
    let s = pool.remove(1).unwrap().unwrap();
    assert_eq!(s.id(), 1);
    assert!(!pool.contains(1));
    assert_eq!(pool.len(), 0);
}

#[test]
fn exited_container_is_observed_as_crash() {
    let mut s = running(S1);
    s.reconcile(ContainerStatus::NotRunning);
    assert_eq!(s.state(), PowerState::Crashed);
    let mut t = running(S1);
    assert!(matches!(t.begin_stop(ContainerStatus::NotRunning), Err(ServerError::Conflict)));
    assert_eq!(t.state(), PowerState::Crashed);
    let mut u = running(S1);
    u.reconcile(ContainerStatus::Running);
    assert_eq!(u.state(), PowerState::Running);
}

#[test]
fn restart_after_crash() {
    let mut s = installed(S1);
    s.begin_start(ContainerStatus::NotRunning).unwrap();
    assert!(s.finish_start(Err(ServerError::Docker("exit 1".to_string()))).is_err());
    assert_eq!(s.state(), PowerState::Crashed);
    s.begin_start(ContainerStatus::NotRunning).unwrap();
    assert_eq!(s.state(), PowerState::Starting);
}

#[test]
fn stop_escalates_to_kill_after_timeout() {
    assert_eq!(stop_action(1000, 5000, false), StopAction::Wait);
    assert_eq!(stop_action(5000, 5000, false), StopAction::Kill);
    assert_eq!(stop_action(6000, 5000, true), StopAction::Finish);
    let mut s = running(S1);
    s.begin_stop(ContainerStatus::Running).unwrap();
    assert_eq!(s.state(), PowerState::Stopping);
    s.finish_stop(Ok(())).unwrap();
    assert_eq!(s.state(), PowerState::Offline);
}

#[test]
fn failed_stop_keeps_running() {
    let mut s = running(S1);
    s.begin_stop(ContainerStatus::Running).unwrap();
    assert!(s.finish_stop(Err(ServerError::Docker("kill failed".to_string()))).is_err());
    assert_eq!(s.state(), PowerState::Running);
}

#[test]
fn removal_steps_follow_what_is_held() {
    let s = installed(S1);
    assert_eq!(
        s.removal_steps().unwrap(),
        vec![RemovalStep::KillContainer, RemovalStep::RemoveContainer, RemovalStep::DestroyMount]
    );
    assert_eq!(Server::new(S1).removal_steps().unwrap(), vec![]);
}

#[test]
fn failed_removal_changes_nothing() {
    let mut s = running(S1);
    let r = s.finish_remove(Err(ServerError::Docker("removal failed".to_string())));
    assert!(r.is_err());
    assert_eq!(s.state(), PowerState::Running);
    assert_eq!(s.container(), Some("c1"));
    assert!(s.mount().is_some());
}

#[test]
fn removed_server_leaves_pool() {
    let mut pool = ServerPool::new();
    pool.register(installed(S1)).unwrap();
    let mut s = pool.acquire(S1).unwrap().unwrap();
    s.finish_remove(Ok(())).unwrap();
    assert_eq!(s.state(), PowerState::Removed);
    assert!(s.container().is_none() && s.mount().is_none());
    assert!(matches!(s.removal_steps(), Err(ServerError::Conflict)));
    pool.release(s);
    assert!(!pool.contains(S1));
}

#[test]
fn closed_pool_admits_nothing_new() {
    let mut pool = ServerPool::new();
    assert!(pool.accepts_work());
    pool.register(Server::new(1)).unwrap();
    pool.register(Server::new(2)).unwrap();
    let s = pool.acquire(1).unwrap().unwrap();
    assert_eq!(pool.in_flight(), 1);
    pool.close();
    assert!(!pool.accepts_work());
    assert!(matches!(pool.register(Server::new(3)), Err(ServerError::Conflict)));
    assert!(matches!(pool.acquire(2), Some(Err(ServerError::Conflict))));
    pool.release(s);
    assert_eq!(pool.in_flight(), 0);
    assert!(matches!(pool.acquire(1), Some(Err(ServerError::Conflict))));
    assert_eq!(pool.len(), 2);
}
