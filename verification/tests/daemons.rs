use nodegroup::error::Status;
use nodegroup::info::{GroupInfo, ServerInfo};
use nodegroup::proto::{Group, NominateRequest, Server, ServerState, SpawnRequest, SpawnResponse};
use nodegroup::scheduler::authoritative::AuthoritativeScheduler;
use nodegroup::scheduler::cluster::Cluster;
use nodegroup::scheduler::interface::DeploymentScheduler;
use nodegroup::scheduler::stats::StatsMap;
use nodegroup::server::daemon::ServerDaemon;
use nodegroup::server::{DaemonState, DEFAULT_HOST};
use tokio::sync::mpsc;

#[derive(Clone, Debug)]
struct Never;

impl DeploymentScheduler for Never {
    fn schedule(&self, _stats: &StatsMap) -> Option<ServerInfo> {
        None
    }
}

/// Settles on one server, whatever the load.
#[derive(Clone, Debug, PartialEq)]
struct Always(ServerInfo);

impl DeploymentScheduler for Always {
    fn schedule(&self, _stats: &StatsMap) -> Option<ServerInfo> {
        Some(self.0.clone())
    }
}

type State = DaemonState<Never>;

fn server(id: u128) -> ServerInfo {
    ServerInfo { id, addr: format!("http://{}", id) }
}

fn daemon(state: State) -> ServerDaemon<Never> {
    let (tx, _rx) = mpsc::channel(1);
    ServerDaemon::with_state(state, tx)
}

#[test]
fn new_daemon_starts_at_the_default_address() {
    let (tx, mut rx) = mpsc::channel::<State>(1);
    let daemon = ServerDaemon::new(tx);
    let info = daemon.get_info();
    assert_eq!(info.server.unwrap().addr, DEFAULT_HOST);
    assert_eq!(info.group, None);
    assert_eq!(info.state, ServerState::Starting);
    daemon.tx.try_send(DaemonState::Failed).unwrap();
    assert!(matches!(rx.try_recv(), Ok(DaemonState::Failed)));
}

#[test]
fn copy_of_a_daemon_sends_on_the_same_channel() {
    let (tx, mut rx) = mpsc::channel::<State>(1);
    let daemon = ServerDaemon::with_state(DaemonState::Joining(server(1)), tx);
    let copy = daemon.clone();
    assert_eq!(copy.get_info(), daemon.get_info());
    copy.tx.try_send(DaemonState::Failed).unwrap();
    assert!(matches!(rx.try_recv(), Ok(DaemonState::Failed)));
}

#[test]
fn copy_of_a_scheduling_daemon_has_the_same_strategy() {
    let (tx, _rx) = mpsc::channel(1);
    let scheduler = AuthoritativeScheduler::new(
        Cluster::new(&server(1)),
        Cluster::new(&server(2)),
        Always(server(7)),
    );
    let daemon = ServerDaemon::with_state(DaemonState::Authoritative(server(1), scheduler), tx);
    for state in [daemon.state.clone(), daemon.clone().state] {
        match state {
            DaemonState::Authoritative(info, scheduler) => {
                assert_eq!(info, server(1));
                assert_eq!(scheduler.runtime.scheduler, Always(server(7)));
            }
            other => panic!("{:?}", other),
        }
    }
}

#[test]
fn daemon_tells_its_group_once_it_has_one() {
    let group = GroupInfo::with_number(&server(9), 2);
    let info = daemon(DaemonState::Running(server(1), group.clone())).get_info();
    assert_eq!(info.server, Some(Server::from(server(1))));
    assert_eq!(info.group, Some(Group::from(group)));
    assert_eq!(info.state, ServerState::Running);

    let scheduler =
        AuthoritativeScheduler::new(Cluster::new(&server(1)), Cluster::new(&server(2)), Never);
    let info = daemon(DaemonState::Authoritative(server(1), scheduler)).get_info();
    assert_eq!(info.group, Some(Group::from(GroupInfo::new(&server(1)))));
    assert_eq!(info.state, ServerState::Authoritative);

    for (state, name) in [
        (DaemonState::Uninitialized(server(1)), ServerState::Uninitialized),
        (DaemonState::Joining(server(1)), ServerState::Joining),
    ] {
        let info = daemon(state).get_info();
        assert_eq!(info.server, Some(Server::from(server(1))));
        assert_eq!(info.group, None);
        assert_eq!(info.state, name);
    }
}

#[test]
fn states_that_name_no_server() {
    assert!(State::Starting.get_server().is_none());
    assert!(State::Failed.get_server().is_none());
    assert_eq!(State::Failed.server_state(), ServerState::Failed);
    assert_eq!(State::Joining(server(3)).clone().get_server(), Some(&server(3)));
}

#[test]
fn plain_answers_of_a_daemon() {
    let daemon = daemon(DaemonState::Uninitialized(server(1)));
    assert!(daemon.ping().success);
    assert!(daemon.monitor().windows.is_empty());
    assert!(daemon.destroy().success);
    assert_eq!(
        daemon.spawn(SpawnRequest { deployment: None }),
        SpawnResponse { success: true, deployment: None, server: None }
    );
    assert_eq!(
        daemon.nominate(NominateRequest { nomination: None }),
        Err(Status::unimplemented("not implemented".to_string()))
    );
}
