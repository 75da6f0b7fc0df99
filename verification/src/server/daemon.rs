//! A server's daemon: how it answers the requests that reach it.
use tokio::sync::mpsc;
use vstd::prelude::*;

use crate::error::{ErrorView, Status, StatusView, UNIMPLEMENTED};
use crate::id;
use crate::info::{GroupInfoView, ServerInfo, ServerInfoView};
use crate::laws;
use crate::proto::{
    DestroyResponse, GetInfoResponse, GetInfoResponseView, Group, MonitorResponse, NominateRequest,
    NominateResponse, PingResponse, Server, SpawnRequest, SpawnResponse, SpawnResponseView,
};
use crate::scheduler::interface::DeploymentScheduler;
use crate::server::{DaemonState, DEFAULT_HOST};
use crate::views;

verus! {

/// `tokio::sync::mpsc::Sender`: the sending side of a channel. It is carried
/// along. A sender holds a handle of its channel and nothing else, so two senders
/// of one channel are the same value.
#[verifier::external_type_specification]
#[verifier::external_body]
#[verifier::reject_recursive_types(T)]
pub struct ExSender<T>(mpsc::Sender<T>);

/// `clone` of `tokio::sync::mpsc::Sender`, which copies the handle: the result is
/// a sender of the same channel. How many senders the channel counts is kept in
/// the channel, and is not part of the value.
pub assume_specification<T>[ <mpsc::Sender<T> as Clone>::clone ](
    sender: &mpsc::Sender<T>,
) -> (copy: mpsc::Sender<T>)
    ensures
        copy == *sender,
;

/// What a daemon knows of the server that it runs on.
#[derive(Debug)]
pub struct ServerDaemonRuntime {
    info: ServerInfo,
}

impl View for ServerDaemonRuntime {
    type V = ServerInfoView;

    closed spec fn view(&self) -> ServerInfoView {
        self.info@
    }
}

impl Clone for ServerDaemonRuntime {
    fn clone(&self) -> (copy: ServerDaemonRuntime)
        ensures
            copy@ == self@,
    {
        ServerDaemonRuntime { info: self.info.clone() }
    }
}

impl Default for ServerDaemonRuntime {
    fn default() -> (runtime: ServerDaemonRuntime)
        ensures
            runtime@.addr == DEFAULT_HOST@,
            id::is_random(runtime@.id),
            call_ensures(id::random_id, (), runtime@.id),
    {
        ServerDaemonRuntime { info: ServerInfo::new(DEFAULT_HOST) }
    }
}

/// The daemon of a server. Changes of its state are sent over `tx`.
#[derive(Debug)]
#[verifier::reject_recursive_types(S)]
pub struct ServerDaemon<S> {
    pub runtime: ServerDaemonRuntime,
    pub tx: mpsc::Sender<DaemonState<S>>,
    pub state: DaemonState<S>,
}

impl<S: Clone> Clone for ServerDaemon<S> {
    fn clone(&self) -> (copy: ServerDaemon<S>)
        ensures
            copy.runtime@ == self.runtime@,
            copy.tx == self.tx,
            copy.state@ == self.state@,
            self.state matches DaemonState::Authoritative(_, from)
                ==> copy.state matches DaemonState::Authoritative(_, to)
                && vstd::pervasive::strictly_cloned(from.runtime.scheduler, to.runtime.scheduler),
    {
        ServerDaemon {
            runtime: self.runtime.clone(),
            tx: self.tx.clone(),
            state: self.state.clone(),
        }
    }
}

impl<S: DeploymentScheduler> ServerDaemon<S> {
    /// The daemon of a server of which nothing is known yet.
    pub fn new(tx: mpsc::Sender<DaemonState<S>>) -> (daemon: ServerDaemon<S>)
        ensures
            daemon.tx == tx,
            daemon.state is Starting,
            daemon.runtime@.addr == DEFAULT_HOST@,
            id::is_random(daemon.runtime@.id),
            call_ensures(id::random_id, (), daemon.runtime@.id),
    {
        let runtime = ServerDaemonRuntime::default();
        let state = DaemonState::Starting;
        ServerDaemon { runtime, tx, state }
    }

    /// The daemon that is in the state given, which must name the server.
    pub fn with_state(state: DaemonState<S>, tx: mpsc::Sender<DaemonState<S>>) -> (daemon:
        ServerDaemon<S>)
        requires
            state@.server() is Some,
        ensures
            daemon.tx == tx,
            daemon.state == state,
            daemon.runtime@ == state@.server()->Some_0,
    {
        let info = state.get_server().unwrap().clone();
        let runtime = ServerDaemonRuntime { info };
        ServerDaemon { runtime, tx, state }
    }

    /// What the server tells of itself: who it is, the group that it belongs to,
    /// and its state.
    pub fn get_info(&self) -> (response: GetInfoResponse)
        ensures
            response@ == (GetInfoResponseView {
                server: Some(self.runtime@.encode()),
                group: match self.state@.group() {
                    Some(group) => Some(group.encode()),
                    None => None,
                },
                state: self.state@.server_state(),
            }),
            self.state matches DaemonState::Running(_, group) ==> response@.group is Some
                && GroupInfoView::decode(response@.group->Some_0) == Ok::<GroupInfoView, ErrorView>(
                group@,
            ),
            self.state matches DaemonState::Authoritative(_, scheduler) ==> response@.group is Some
                && GroupInfoView::decode(response@.group->Some_0) == Ok::<GroupInfoView, ErrorView>(
                scheduler@.cluster.group,
            ),
            !(self.state is Running || self.state is Authoritative) ==> response@.group is None,
    {
        proof {
            if self.state@.group() is Some {
                laws::group_survives_its_message(self.state@.group()->Some_0);
            }
        }
        let group = match self.state.get_group() {
            Some(group) => Some(Group::from(group.clone())),
            None => None,
        };
        GetInfoResponse {
            server: Some(Server::from(self.runtime.info.clone())),
            group,
            state: self.state.server_state(),
        }
    }

    /// Answers a ping.
    pub fn ping(&self) -> (response: PingResponse)
        ensures
            response.success,
    {
        PingResponse { success: true }
    }

    /// Refuses a nomination: a daemon cannot become a scheduler.
    pub fn nominate(&self, _request: NominateRequest) -> (reply: Result<NominateResponse, Status>)
        ensures
            views::result_view(reply) == Err::<NominateResponse, StatusView>(
                StatusView { code: UNIMPLEMENTED, message: "not implemented"@ },
            ),
    {
        Err(Status::unimplemented("not implemented".to_owned()))
    }

    /// The load windows that the server gives out on demand: none.
    pub fn monitor(&self) -> (response: MonitorResponse)
        ensures
            response@.windows == Seq::<Seq<u8>>::empty(),
    {
        MonitorResponse { windows: Vec::new() }
    }

    /// Accepts a request to run an instance.
    pub fn spawn(&self, _request: SpawnRequest) -> (response: SpawnResponse)
        ensures
            response@ == (SpawnResponseView { success: true, deployment: None, server: None }),
    {
        SpawnResponse { success: true, deployment: None, server: None }
    }

    /// Accepts a request to destroy an instance.
    pub fn destroy(&self) -> (response: DestroyResponse)
        ensures
            response.success,
    {
        DestroyResponse { success: true }
    }
}

} // verus!
