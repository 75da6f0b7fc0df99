use std::cell::Cell;

use nodegroup::error::{Error, Status};
use nodegroup::id::format_id;
use nodegroup::info::{DeploymentInfo, ServerInfo};
use nodegroup::proto::{
    ClusterState, DeployRequest, DeployResponse, Deployment, JoinRequest, LookupRequest,
    LookupResponse, MonitorWindow, NominateResponse, NotifyRequest, NotifyResponse, ReportRequest,
    ReportResponse, Server, SpawnRequest, SpawnResponse,
};
use nodegroup::scheduler::authoritative::AuthoritativeScheduler;
use nodegroup::scheduler::call::{
    CallAction, CallEvent, DeployAction, DeployContext, DeployEvent, JoinAction, JoinEvent,
};
use nodegroup::scheduler::cluster::Cluster;
use nodegroup::scheduler::interface::{target_server, DeploymentScheduler};
use nodegroup::scheduler::runtime::SchedulerRuntime;
use nodegroup::scheduler::stats::StatsMap;

/// Picks the server with the fewest windows, the lower id among equals.
#[derive(Clone, Debug)]
struct FewestWindows;

impl DeploymentScheduler for FewestWindows {
    fn schedule(&self, stats: &StatsMap) -> Option<ServerInfo> {
        stats.0.values().min_by_key(|s| (s.stats.len(), s.server.id)).map(|s| s.server.clone())
    }
}

/// Settles on no server, and counts how often it was asked.
#[derive(Clone, Debug)]
struct Counting {
    asked: Cell<usize>,
}

impl DeploymentScheduler for Counting {
    fn schedule(&self, _stats: &StatsMap) -> Option<ServerInfo> {
        self.asked.set(self.asked.get() + 1);
        None
    }
}

type Scheduler = AuthoritativeScheduler<FewestWindows>;

fn server(id: u128) -> ServerInfo {
    ServerInfo { id, addr: format!("http://{}", id) }
}

fn deployment(id: u128) -> DeploymentInfo {
    DeploymentInfo { id, source: format!("source {}", id) }
}

fn scheduler() -> Scheduler {
    AuthoritativeScheduler::new(Cluster::new(&server(1)), Cluster::new(&server(100)), FewestWindows)
}

fn report(scheduler: &mut Scheduler, id: u128, windows: usize) {
    let windows = (0..windows).map(|_| MonitorWindow { encoded: vec![] }).collect();
    let request = ReportRequest { server: Some(Server::from(server(id))), windows };
    assert_eq!(scheduler.report(request), Ok(ReportResponse { success: true }));
}

fn spawned(success: bool) -> SpawnResponse {
    SpawnResponse { success, deployment: None, server: None }
}

fn place(scheduler: &mut Scheduler, id: u128, target: u128) {
    let event = CallEvent::Answered(server(target), Ok(spawned(true)));
    let action = scheduler.deploy_in_us(&deployment(id), event);
    assert!(matches!(action, CallAction::Done(Ok(_))));
}

fn lookup(scheduler: &Scheduler, id: &str) -> Result<LookupResponse, Status> {
    scheduler.lookup(LookupRequest { deployment_id: id.to_string() })
}

fn aborted<T>(message: &str) -> Result<T, Status> {
    Err(Status::aborted(message.to_string()))
}

#[test]
fn runtime_starts_with_two_first_groups() {
    let runtime = SchedulerRuntime::new(&server(1), &server(100), FewestWindows);
    assert_eq!(runtime.cluster.servers, vec![server(1)]);
    assert_eq!(runtime.other.servers, vec![server(100)]);
    assert_eq!(runtime.cluster.group.number, 0);
    assert_eq!(runtime.other.group.number, 0);
    assert!(runtime.deployments.0.is_empty());
}

#[test]
fn copies_do_not_follow_the_scheduler() {
    let mut scheduler = scheduler();
    let copy = scheduler.clone_inner();
    let twin = scheduler.clone();
    scheduler.push_server(server(2));
    assert_eq!(copy.cluster.servers, vec![server(1)]);
    assert_eq!(twin.runtime.cluster.servers, vec![server(1)]);
    assert_eq!(scheduler.runtime.cluster.servers, vec![server(1), server(2)]);
    assert_eq!(SchedulerRuntime::clone_inner(&scheduler.runtime).cluster.servers.len(), 2);
}

#[test]
fn peers_are_called_at_their_addresses() {
    let scheduler = scheduler();
    assert_eq!(scheduler.client(&server(7)), "http://7");
    assert_eq!(scheduler.other_client(), "http://100");
}

#[test]
fn joining_server_is_taken_in_and_told_of_the_group() {
    let mut scheduler = scheduler();
    let request = JoinRequest { server: Some(Server::from(server(2))) };
    assert!(matches!(scheduler.join(JoinEvent::Requested(request)), JoinAction::Notify));
    assert_eq!(scheduler.runtime.cluster.servers, vec![server(1), server(2)]);
    match scheduler.join(JoinEvent::Notified(Ok(()))) {
        JoinAction::Reply(Ok(response)) => {
            assert!(response.success);
            assert!(!response.is_scheduler);
            let group = response.group.unwrap();
            assert_eq!(group.number, 0);
            assert_eq!(group.scheduler, Some(Server::from(server(1))));
            assert_eq!(response.our_group, None);
            assert_eq!(response.nomination, None);
        }
        other => panic!("{:?}", other),
    }
}

#[test]
fn joining_server_with_a_bad_id_is_refused() {
    let mut scheduler = scheduler();
    let bad = Server { id: "x".to_string(), addr: "http://x".to_string() };
    let reason = uuid::Uuid::parse_str("x").unwrap_err().to_string();
    match scheduler.join(JoinEvent::Requested(JoinRequest { server: Some(bad) })) {
        JoinAction::Reply(reply) => assert_eq!(reply, aborted(&reason)),
        other => panic!("{:?}", other),
    }
    assert_eq!(scheduler.runtime.cluster.servers, vec![server(1)]);
}

#[test]
fn unreachable_scheduler_leads_to_a_nomination() {
    let mut scheduler = scheduler();
    let unreachable = Error::TransportError("refused".to_string());
    let action = scheduler.join(JoinEvent::Notified(Err(unreachable)));
    assert!(matches!(action, JoinAction::Nominate));
    let action = scheduler.join(JoinEvent::Nominated(Ok(())));
    assert!(matches!(action, JoinAction::Reply(Ok(_))));
    let failed = Error::Text("no".to_string());
    match scheduler.join(JoinEvent::Nominated(Err(failed))) {
        JoinAction::Reply(reply) => assert_eq!(reply, aborted("no")),
        other => panic!("{:?}", other),
    }
}

#[test]
fn other_failures_of_the_notification_are_final() {
    let mut scheduler = scheduler();
    let refusal = Error::RpcError(Status { code: 14, message: "busy".to_string() });
    match scheduler.join(JoinEvent::Notified(Err(refusal))) {
        JoinAction::Reply(reply) => assert_eq!(reply, aborted("busy")),
        other => panic!("{:?}", other),
    }
}

#[test]
fn notification_goes_to_the_other_scheduler_and_is_understood() {
    let mut sender = scheduler();
    sender.push_server(server(2));
    place(&mut sender, 10, 2);
    match sender.notify_to_other(CallEvent::Started) {
        CallAction::Connect(addr, ()) => assert_eq!(addr, "http://100"),
        other => panic!("{:?}", other),
    }
    let request = match sender.notify_to_other(CallEvent::Connected((), Ok(()))) {
        CallAction::Send(request, ()) => request,
        other => panic!("{:?}", other),
    };
    let mut receiver = AuthoritativeScheduler::new(
        Cluster::new(&server(100)),
        Cluster::new(&server(1)),
        FewestWindows,
    );
    assert_eq!(receiver.notify(request), Ok(NotifyResponse { success: true }));
    assert_eq!(receiver.runtime.other.servers, vec![server(1), server(2)]);
    assert_eq!(receiver.runtime.other.get_instance_server_ids(&10), Ok(vec![2]));
    assert_eq!(receiver.runtime.cluster.servers, vec![server(100)]);
}

#[test]
fn unreadable_notification_changes_nothing() {
    let mut scheduler = scheduler();
    let empty = ClusterState { group: None, servers: vec![], instances: vec![] };
    let reply = scheduler.notify(NotifyRequest { cluster: Some(empty) });
    assert_eq!(reply, aborted("Group cannot be empty"));
    assert_eq!(scheduler.runtime.other.servers, vec![server(100)]);
}

#[test]
fn outcomes_of_a_notification() {
    let scheduler = scheduler();
    let outcome = |event| match scheduler.notify_to_other(event) {
        CallAction::Done(outcome) => outcome,
        other => panic!("{:?}", other),
    };
    let refusal = || Status { code: 13, message: "no".to_string() };
    assert_eq!(
        outcome(CallEvent::Connected((), Err("down".to_string()))),
        Err(Error::TransportError("down".to_string()))
    );
    assert_eq!(outcome(CallEvent::Answered((), Err(refusal()))), Err(Error::RpcError(refusal())));
    assert_eq!(
        outcome(CallEvent::Answered((), Ok(NotifyResponse { success: false }))),
        Err(Error::Text("Unsuccessful notify".to_string()))
    );
    assert_eq!(outcome(CallEvent::Answered((), Ok(NotifyResponse { success: true }))), Ok(()));
}

#[test]
fn nomination_hands_over_the_other_cluster() {
    let scheduler = scheduler();
    let request = match scheduler.nominate_other_scheduler(CallEvent::Started) {
        CallAction::Connect(addr, request) => {
            assert_eq!(addr, "http://100");
            request
        }
        other => panic!("{:?}", other),
    };
    let sent = match scheduler.nominate_other_scheduler(CallEvent::Connected(request, Ok(()))) {
        CallAction::Send(sent, ()) => sent,
        other => panic!("{:?}", other),
    };
    let handed = Cluster::try_from(sent.nomination.unwrap().cluster.unwrap()).unwrap();
    assert_eq!(handed.group, scheduler.runtime.other.group);
    assert_eq!(handed.servers, scheduler.runtime.other.servers);
}

#[test]
fn outcomes_of_a_nomination() {
    let scheduler = scheduler();
    let outcome = |event| match scheduler.nominate_other_scheduler(event) {
        CallAction::Done(outcome) => outcome,
        other => panic!("{:?}", other),
    };
    assert_eq!(outcome(CallEvent::Answered((), Ok(NominateResponse { success: true }))), Ok(()));
    assert_eq!(
        outcome(CallEvent::Answered((), Ok(NominateResponse { success: false }))),
        Err(Error::Text("unsuccessful nomination of a new scheduler".to_string()))
    );
    let refusal = || Status { code: 12, message: "not implemented".to_string() };
    assert_eq!(outcome(CallEvent::Answered((), Err(refusal()))), Err(Error::RpcError(refusal())));
}

#[test]
fn reports_are_kept_or_refused() {
    let mut scheduler = scheduler();
    report(&mut scheduler, 2, 3);
    assert_eq!(scheduler.runtime.cluster.server_stats.0[&2].stats.len(), 3);
    let nobody = ReportRequest { server: None, windows: vec![] };
    assert_eq!(scheduler.report(nobody), aborted("server cannot be empty"));
    let bad = Server { id: "x".to_string(), addr: String::new() };
    let reason = uuid::Uuid::parse_str("x").unwrap_err().to_string();
    let request = ReportRequest { server: Some(bad), windows: vec![] };
    assert_eq!(scheduler.report(request), aborted(&reason));
    assert_eq!(scheduler.runtime.cluster.server_stats.0.len(), 1);
}

#[test]
fn deployment_goes_to_the_server_that_the_strategy_picks() {
    let mut scheduler = scheduler();
    report(&mut scheduler, 2, 3);
    report(&mut scheduler, 3, 1);
    match scheduler.deploy_in_us(&deployment(10), CallEvent::Started) {
        CallAction::Connect(addr, target) => {
            assert_eq!(addr, "http://3");
            assert_eq!(target, server(3));
        }
        other => panic!("{:?}", other),
    }
    assert!(scheduler.runtime.deployments.0.is_empty());
}

#[test]
fn deployment_falls_back_on_the_first_server() {
    let mut scheduler = scheduler();
    scheduler.push_server(server(2));
    match scheduler.deploy_in_us(&deployment(10), CallEvent::Started) {
        CallAction::Connect(addr, target) => {
            assert_eq!(addr, "http://1");
            assert_eq!(target, server(1));
        }
        other => panic!("{:?}", other),
    }
    assert_eq!(target_server(None, &vec![server(5), server(6)]), server(5));
    assert_eq!(target_server(Some(server(9)), &vec![server(5)]), server(9));
}

#[test]
fn server_is_asked_to_run_the_deployment() {
    let mut scheduler = scheduler();
    let event = CallEvent::Connected(server(3), Ok(()));
    match scheduler.deploy_in_us(&deployment(10), event) {
        CallAction::Send(SpawnRequest { deployment: Some(sent) }, target) => {
            assert_eq!(sent, Deployment::from(deployment(10)));
            assert_eq!(target, server(3));
        }
        other => panic!("{:?}", other),
    }
}

#[test]
fn only_a_success_goes_on_record() {
    let mut scheduler = scheduler();
    let unreachable = CallEvent::Connected(server(3), Err("down".to_string()));
    match scheduler.deploy_in_us(&deployment(10), unreachable) {
        CallAction::Done(outcome) => {
            assert_eq!(outcome, Err(Error::TransportError("down".to_string())))
        }
        other => panic!("{:?}", other),
    }
    let failed = CallEvent::Answered(server(3), Ok(spawned(false)));
    match scheduler.deploy_in_us(&deployment(10), failed) {
        CallAction::Done(outcome) => {
            assert_eq!(outcome, Err(Error::Text("Unsuccessful spawn".to_string())))
        }
        other => panic!("{:?}", other),
    }
    let refusal = || Status { code: 8, message: "full".to_string() };
    let refused = CallEvent::Answered(server(3), Err(refusal()));
    match scheduler.deploy_in_us(&deployment(10), refused) {
        CallAction::Done(outcome) => assert_eq!(outcome, Err(Error::RpcError(refusal()))),
        other => panic!("{:?}", other),
    }
    assert!(scheduler.runtime.deployments.0.is_empty());
    assert!(scheduler.runtime.cluster.instances.0.is_empty());
    place(&mut scheduler, 10, 3);
    place(&mut scheduler, 10, 4);
    assert_eq!(scheduler.runtime.deployments.0[&10], deployment(10));
    assert_eq!(scheduler.runtime.cluster.get_instance_server_ids(&10), Ok(vec![3, 4]));
}

#[test]
fn outcomes_of_a_deployment_in_the_other_group() {
    let scheduler = scheduler();
    let request = DeployRequest { source: "src".to_string(), authoritative: false };
    match scheduler.deploy_to_other(&request, CallEvent::Started) {
        CallAction::Connect(addr, ()) => assert_eq!(addr, "http://100"),
        other => panic!("{:?}", other),
    }
    match scheduler.deploy_to_other(&request, CallEvent::Connected((), Ok(()))) {
        CallAction::Send(sent, ()) => assert_eq!(sent, request),
        other => panic!("{:?}", other),
    }
    let outcome = |event| match scheduler.deploy_to_other(&request, event) {
        CallAction::Done(outcome) => outcome,
        other => panic!("{:?}", other),
    };
    let done = || DeployResponse { success: true, deployment: None };
    assert_eq!(outcome(CallEvent::Answered((), Ok(done()))), Ok(done()));
    assert_eq!(
        outcome(CallEvent::Answered((), Ok(DeployResponse { success: false, deployment: None }))),
        Err(Error::Text("Unsuccessful deploy".to_string()))
    );
    assert_eq!(
        outcome(CallEvent::Connected((), Err("down".to_string()))),
        Err(Error::TransportError("down".to_string()))
    );
}

fn begin(scheduler: &Scheduler, authoritative: bool) -> DeployContext {
    let request = DeployRequest { source: "src".to_string(), authoritative };
    match scheduler.deploy(DeployEvent::Requested(request)) {
        DeployAction::DeployInUs(context) => context,
        other => panic!("{:?}", other),
    }
}

#[test]
fn authoritative_deployment_is_passed_on_once() {
    let scheduler = scheduler();
    let context = begin(&scheduler, true);
    let id = format_id(context.deployment.id);
    let event = DeployEvent::DeployedInUs(context, Ok(spawned(true)));
    let (context, request) = match scheduler.deploy(event) {
        DeployAction::DeployToOther(context, request) => (context, request),
        other => panic!("{:?}", other),
    };
    assert_eq!(request, DeployRequest { source: "src".to_string(), authoritative: false });
    let there = DeployResponse { success: true, deployment: None };
    match scheduler.deploy(DeployEvent::DeployedToOther(context, Ok(there))) {
        DeployAction::Reply(reply) => {
            let deployment = Some(Deployment { id, source: "src".to_string() });
            assert_eq!(reply, Ok(DeployResponse { success: true, deployment }));
        }
        other => panic!("{:?}", other),
    }
    let context = begin(&scheduler, request.authoritative);
    let event = DeployEvent::DeployedInUs(context, Ok(spawned(true)));
    assert!(matches!(scheduler.deploy(event), DeployAction::Reply(Ok(_))));
}

#[test]
fn failed_deployment_is_answered_with_the_error() {
    let scheduler = scheduler();
    let context = begin(&scheduler, true);
    let event = DeployEvent::DeployedInUs(context, Err(Error::Text("one".to_string())));
    match scheduler.deploy(event) {
        DeployAction::Reply(reply) => assert_eq!(reply, aborted("one")),
        other => panic!("{:?}", other),
    }
    let context = begin(&scheduler, true);
    let event = DeployEvent::DeployedToOther(context, Err(Error::Text("two".to_string())));
    match scheduler.deploy(event) {
        DeployAction::Reply(reply) => assert_eq!(reply, aborted("two")),
        other => panic!("{:?}", other),
    }
}

#[test]
fn lookup_asks_only_about_servers_that_run_the_deployment() {
    let mut scheduler = scheduler();
    report(&mut scheduler, 2, 0);
    report(&mut scheduler, 3, 1);
    report(&mut scheduler, 4, 2);
    place(&mut scheduler, 10, 4);
    place(&mut scheduler, 10, 3);
    let found = lookup(&scheduler, &format_id(10)).unwrap();
    assert!(found.success);
    assert_eq!(found.deployment_id, format_id(10));
    assert_eq!(found.server, Some(Server::from(server(3))));
    let upper = lookup(&scheduler, &format_id(10).to_uppercase()).unwrap();
    assert_eq!(upper.deployment_id, format_id(10));
}

#[test]
fn lookup_is_refused_with_the_reason() {
    let mut scheduler = scheduler();
    let reason = uuid::Uuid::parse_str("ten").unwrap_err().to_string();
    assert_eq!(lookup(&scheduler, "ten"), aborted(&reason));
    assert_eq!(lookup(&scheduler, &format_id(10)), aborted("Deployment not found"));
    place(&mut scheduler, 10, 4);
    assert_eq!(lookup(&scheduler, &format_id(10)), aborted("Failed to schedule"));
    assert_eq!(Scheduler::lookup_response(10, None), aborted("Failed to schedule"));
}

#[test]
fn lookup_leaves_the_strategy_as_it_was() {
    let strategy = Counting { asked: Cell::new(0) };
    let mut scheduler =
        AuthoritativeScheduler::new(Cluster::new(&server(1)), Cluster::new(&server(100)), strategy);
    let event = CallEvent::Answered(server(4), Ok(spawned(true)));
    assert!(matches!(scheduler.deploy_in_us(&deployment(10), event), CallAction::Done(Ok(_))));
    let request = LookupRequest { deployment_id: format_id(10) };
    assert_eq!(scheduler.lookup(request), aborted("Failed to schedule"));
    assert_eq!(scheduler.runtime.scheduler.asked.get(), 0);
    let action = scheduler.deploy_in_us(&deployment(11), CallEvent::Started);
    assert!(matches!(action, CallAction::Connect(_, _)));
    assert_eq!(scheduler.runtime.scheduler.asked.get(), 1);
}

#[test]
fn recorded_deployment_has_an_instance() {
    let mut scheduler = scheduler();
    place(&mut scheduler, 10, 3);
    place(&mut scheduler, 11, 4);
    for id in scheduler.runtime.deployments.0.keys() {
        assert_eq!(scheduler.runtime.deployments.0[id].id, *id);
        assert!(!scheduler.runtime.cluster.instances.0[id].servers.is_empty());
    }
}
