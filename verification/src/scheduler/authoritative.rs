//! The scheduler of a group, and how it answers the requests that reach it.
use vstd::prelude::*;

use crate::error::{Error, ErrorView, Status, StatusView};
use crate::id;
use crate::id::{format_id, parse_id, Id};
use crate::info::{DeploymentInfo, GroupInfoView, ServerInfo, ServerInfoView};
use crate::laws;
use crate::proto::{
    ClusterState, DeployRequest, DeployResponse, DeployResponseView, Deployment, Group,
    JoinResponse, LookupRequest, LookupResponse, LookupResponseView, NominateRequest,
    NominateResponse, NotifyRequest, NotifyResponse, ReportRequest, ReportResponse, Server,
    SpawnRequest, SpawnResponse, SpawnResponseView,
};
use crate::scheduler::call;
use crate::scheduler::call::{
    CallAction, CallEvent, DeployAction, DeployContext, DeployEvent, JoinAction, JoinActionView,
    JoinEvent,
};
use crate::scheduler::cluster::{Cluster, ClusterView};
use crate::scheduler::interface;
use crate::scheduler::interface::{target_server, DeploymentScheduler};
use crate::scheduler::runtime::{SchedulerRuntime, SchedulerRuntimeView};
use crate::scheduler::stats::{ServerStats, ServerStatsView};
use crate::utils::IdMap;
use crate::views;

verus! {

/// The scheduler of a group.
#[derive(Debug)]
pub struct AuthoritativeScheduler<S> {
    pub runtime: SchedulerRuntime<S>,
}

impl<S> View for AuthoritativeScheduler<S> {
    type V = SchedulerRuntimeView;

    open spec fn view(&self) -> SchedulerRuntimeView {
        self.runtime@
    }
}

impl<S: DeploymentScheduler> AuthoritativeScheduler<S> {
    /// A scheduler of the cluster given that has placed no deployment yet.
    pub fn new(cluster: Cluster, other: Cluster, scheduler: S) -> (authoritative:
        AuthoritativeScheduler<S>)
        ensures
            authoritative@ == SchedulerRuntimeView::of_clusters(cluster@, other@),
            authoritative.runtime.scheduler == scheduler,
            cluster@.well_formed() && other@.well_formed() ==> authoritative@.well_formed(),
    {
        let runtime = SchedulerRuntime { cluster, other, scheduler, deployments: IdMap::new() };
        assert(runtime@.deployments =~= Map::empty());
        AuthoritativeScheduler { runtime }
    }

    /// Takes a server into the group, after the others.
    pub fn push_server(&mut self, server: ServerInfo)
        ensures
            final(self)@ == old(self)@.with_server(server@),
            final(self)@.cluster.servers == old(self)@.cluster.servers.push(server@),
            final(self).runtime.scheduler == old(self).runtime.scheduler,
            old(self)@.well_formed() ==> final(self)@.well_formed(),
    {
        self.runtime.cluster.servers.push(server);
        assert(self@.cluster.servers =~= old(self)@.cluster.servers.push(server@));
    }

    /// A copy of the state, as it is now.
    pub fn clone_inner(&self) -> (copy: SchedulerRuntime<S>)
        ensures
            copy@ == self@,
            vstd::pervasive::strictly_cloned(self.runtime.scheduler, copy.scheduler),
    {
        SchedulerRuntime::clone_inner(&self.runtime)
    }

    /// The address at which a server is called.
    pub fn client(&self, server: &ServerInfo) -> (addr: String)
        ensures
            addr@ == server@.addr,
    {
        server.addr.clone()
    }

    /// The address at which the scheduler of the other group is called.
    pub fn other_client(&self) -> (addr: String)
        ensures
            addr@ == self@.other.group.scheduler_info.addr,
    {
        self.runtime.other.get_addr().to_owned()
    }

    /// Tells the other group what this one has become. What is told is the
    /// cluster as it is once the other scheduler was reached.
    pub fn notify_to_other(&self, event: CallEvent<(), (), NotifyResponse>) -> (action: CallAction<
        (),
        (),
        NotifyRequest,
        (),
    >)
        ensures
            match event {
                CallEvent::Started => action matches CallAction::Connect(addr, _) && addr@
                    == self@.other.group.scheduler_info.addr,
                CallEvent::Connected(_, Ok(_)) => action matches CallAction::Send(request, _)
                    && request@.cluster is Some && self@.cluster.encoded_as(
                    request@.cluster->Some_0,
                ),
                CallEvent::Connected(_, Err(text)) => action matches CallAction::Done(outcome)
                    && views::result_view(outcome) == Err::<(), ErrorView>(
                    ErrorView::TransportError(text@),
                ),
                CallEvent::Answered(_, answer) => action matches CallAction::Done(outcome)
                    && views::result_view(outcome) == call::notify_outcome(
                    views::result_view(answer),
                ) && (outcome is Ok <==> (answer is Ok && answer->Ok_0.success)),
            },
    {
        match event {
            CallEvent::Started => CallAction::Connect(self.other_client(), ()),
            CallEvent::Connected(_, Ok(_)) => {
                let runtime = self.clone_inner();
                let cluster = Some(ClusterState::from(runtime.cluster));
                CallAction::Send(NotifyRequest { cluster }, ())
            },
            CallEvent::Connected(_, Err(text)) => CallAction::Done(
                Err(Error::TransportError(text)),
            ),
            CallEvent::Answered(_, Err(status)) => CallAction::Done(Err(Error::RpcError(status))),
            CallEvent::Answered(_, Ok(response)) => {
                if response.success {
                    CallAction::Done(Ok(()))
                } else {
                    CallAction::Done(Err(Error::Text("Unsuccessful notify".to_owned())))
                }
            },
        }
    }

    /// Asks the scheduler of the other group for a deployment.
    pub fn deploy_to_other(
        &self,
        request: &DeployRequest,
        event: CallEvent<(), (), DeployResponse>,
    ) -> (action: CallAction<(), (), DeployRequest, DeployResponse>)
        ensures
            match event {
                CallEvent::Started => action matches CallAction::Connect(addr, _) && addr@
                    == self@.other.group.scheduler_info.addr,
                CallEvent::Connected(_, Ok(_)) => action matches CallAction::Send(sent, _) && sent@
                    == request@,
                CallEvent::Connected(_, Err(text)) => action matches CallAction::Done(outcome)
                    && views::result_view(outcome) == Err::<DeployResponseView, ErrorView>(
                    ErrorView::TransportError(text@),
                ),
                CallEvent::Answered(_, answer) => action matches CallAction::Done(outcome)
                    && views::result_view(outcome) == call::deploy_outcome(
                    views::result_view(answer),
                ) && (outcome is Ok <==> (answer is Ok && answer->Ok_0.success)) && (outcome is Ok
                    ==> outcome->Ok_0 == answer->Ok_0),
            },
    {
        match event {
            CallEvent::Started => CallAction::Connect(self.other_client(), ()),
            CallEvent::Connected(_, Ok(_)) => CallAction::Send(
                DeployRequest {
                    source: request.source.clone(),
                    authoritative: request.authoritative,
                },
                (),
            ),
            CallEvent::Connected(_, Err(text)) => CallAction::Done(
                Err(Error::TransportError(text)),
            ),
            CallEvent::Answered(_, Err(status)) => CallAction::Done(Err(Error::RpcError(status))),
            CallEvent::Answered(_, Ok(response)) => {
                if response.success {
                    CallAction::Done(Ok(response))
                } else {
                    CallAction::Done(Err(Error::Text("Unsuccessful deploy".to_owned())))
                }
            },
        }
    }

    /// Nominates the scheduler of the other group anew: hands it the other
    /// cluster, as it was when the nomination began.
    pub fn nominate_other_scheduler(
        &self,
        event: CallEvent<NominateRequest, (), NominateResponse>,
    ) -> (action: CallAction<NominateRequest, (), NominateRequest, ()>)
        ensures
            match event {
                CallEvent::Started => action matches CallAction::Connect(addr, request) && addr@
                    == self@.other.group.scheduler_info.addr && request@.nomination is Some
                    && request@.nomination->Some_0.cluster is Some && self@.other.encoded_as(
                    request@.nomination->Some_0.cluster->Some_0,
                ),
                CallEvent::Connected(request, Ok(_)) => action matches CallAction::Send(sent, _)
                    && sent == request,
                CallEvent::Connected(_, Err(text)) => action matches CallAction::Done(outcome)
                    && views::result_view(outcome) == Err::<(), ErrorView>(
                    ErrorView::TransportError(text@),
                ),
                CallEvent::Answered(_, answer) => action matches CallAction::Done(outcome)
                    && views::result_view(outcome) == call::nominate_outcome(
                    views::result_view(answer),
                ) && (outcome is Ok <==> (answer is Ok && answer->Ok_0.success)),
            },
    {
        match event {
            CallEvent::Started => {
                let nomination = Some(self.runtime.other.to_nomination());
                let addr = self.client(&self.runtime.other.group.scheduler_info);
                CallAction::Connect(addr, NominateRequest { nomination })
            },
            CallEvent::Connected(request, Ok(_)) => CallAction::Send(request, ()),
            CallEvent::Connected(_, Err(text)) => CallAction::Done(
                Err(Error::TransportError(text)),
            ),
            CallEvent::Answered(_, Err(status)) => CallAction::Done(Err(Error::RpcError(status))),
            CallEvent::Answered(_, Ok(response)) => {
                if response.success {
                    CallAction::Done(Ok(()))
                } else {
                    CallAction::Done(
                        Err(
                            Error::Text(
                                "unsuccessful nomination of a new scheduler".to_owned(),
                            ),
                        ),
                    )
                }
            },
        }
    }

    /// Runs an instance of a deployment in this group. The server is picked when
    /// the call begins; the deployment and its instance go on record together,
    /// once the server has said that the instance runs.
    pub fn deploy_in_us(
        &mut self,
        deployment: &DeploymentInfo,
        event: CallEvent<ServerInfo, ServerInfo, SpawnResponse>,
    ) -> (action: CallAction<ServerInfo, ServerInfo, SpawnRequest, SpawnResponse>)
        requires
            event is Started ==> old(self)@.cluster.servers.len() > 0,
        ensures
            final(self).runtime.scheduler == old(self).runtime.scheduler,
            final(self)@ == (match event {
                CallEvent::Answered(target, Ok(response)) if response.success =>
                    old(self)@.with_placement(deployment@, target@),
                _ => old(self)@,
            }),
            old(self)@.well_formed() ==> final(self)@.well_formed(),
            match event {
                CallEvent::Started => action matches CallAction::Connect(addr, target) && addr@
                    == target@.addr && exists|scheduled: Option<ServerInfoView>|
                    {
                        &&& #[trigger] interface::may_schedule(
                            &old(self).runtime.scheduler,
                            old(self)@.cluster.server_stats,
                            scheduled,
                        )
                        &&& target@ == interface::target_of(
                            scheduled,
                            old(self)@.cluster.servers,
                        )
                        &&& scheduled matches Some(picked) ==> target@ == picked
                        &&& scheduled is None ==> target@ == old(self)@.cluster.servers[0]
                    },
                CallEvent::Connected(target, Ok(_)) => action matches CallAction::Send(
                    request,
                    carried,
                ) && carried == target && request@.deployment == Some(deployment@.encode()),
                CallEvent::Connected(_, Err(text)) => action matches CallAction::Done(outcome)
                    && views::result_view(outcome) == Err::<SpawnResponseView, ErrorView>(
                    ErrorView::TransportError(text@),
                ),
                CallEvent::Answered(_, answer) => action matches CallAction::Done(outcome)
                    && views::result_view(outcome) == call::spawn_outcome(
                    views::result_view(answer),
                ) && (outcome is Ok <==> (answer is Ok && answer->Ok_0.success)) && (outcome is Ok
                    ==> outcome->Ok_0 == answer->Ok_0),
            },
    {
        match event {
            CallEvent::Started => {
                let scheduled = self.runtime.scheduler.schedule(
                    &self.runtime.cluster.server_stats,
                );
                let target = target_server(scheduled, &self.runtime.cluster.servers);
                let addr = self.client(&target);
                assert(interface::may_schedule(
                    &self.runtime.scheduler,
                    self@.cluster.server_stats,
                    views::opt_view(scheduled),
                ));
                CallAction::Connect(addr, target)
            },
            CallEvent::Connected(target, Ok(_)) => {
                let deployment = Some(Deployment::from(deployment.clone()));
                CallAction::Send(SpawnRequest { deployment }, target)
            },
            CallEvent::Connected(_, Err(text)) => CallAction::Done(
                Err(Error::TransportError(text)),
            ),
            CallEvent::Answered(_, Err(status)) => CallAction::Done(Err(Error::RpcError(status))),
            CallEvent::Answered(target, Ok(response)) => {
                if response.success {
                    let servers = vec![target];
                    assert(views::seq_view(servers@) =~= seq![target@]);
                    self.runtime.deployments.insert(deployment.id, deployment.clone());
                    self.runtime.cluster.insert_instance(deployment.clone(), servers);
                    proof {
                        if old(self)@.well_formed() {
                            old(self)@.placement_keeps_well_formed(deployment@, target@);
                        }
                    }
                    CallAction::Done(Ok(response))
                } else {
                    CallAction::Done(Err(Error::Text("Unsuccessful spawn".to_owned())))
                }
            },
        }
    }

    /// Answers a server that asks to join. The server is in the group from then
    /// on, whether or not the other group can be told.
    pub fn join(&mut self, event: JoinEvent) -> (action: JoinAction)
        requires
            event matches JoinEvent::Requested(request) ==> request@.server is Some,
        ensures
            final(self).runtime.scheduler == old(self).runtime.scheduler,
            final(self)@ == (match event {
                JoinEvent::Requested(request) => match ServerInfoView::decode(
                    request@.server->Some_0,
                ) {
                    Ok(server) => old(self)@.with_server(server),
                    Err(_) => old(self)@,
                },
                _ => old(self)@,
            }),
            old(self)@.well_formed() ==> final(self)@.well_formed(),
            action@ == (match event {
                JoinEvent::Requested(request) => match ServerInfoView::decode(
                    request@.server->Some_0,
                ) {
                    Ok(_) => JoinActionView::Notify,
                    Err(error) => JoinActionView::Reply(Err(error.status())),
                },
                JoinEvent::Notified(outcome) => call::join_after_notify(
                    old(self)@.cluster.group,
                    views::result_view(outcome),
                ),
                JoinEvent::Nominated(outcome) => JoinActionView::Reply(
                    call::join_reply(old(self)@.cluster.group, views::result_view(outcome)),
                ),
            }),
            action matches JoinAction::Reply(Ok(response)) ==> response.success
                && !response.is_scheduler && response@.group is Some && GroupInfoView::decode(
                response@.group->Some_0,
            ) == Ok::<GroupInfoView, ErrorView>(old(self)@.cluster.group),
    {
        match event {
            JoinEvent::Requested(request) => {
                let server = request.server.unwrap();
                match ServerInfo::try_from(server) {
                    Ok(server) => {
                        self.push_server(server);
                        JoinAction::Notify
                    },
                    Err(error) => JoinAction::Reply(Err(Status::from(error))),
                }
            },
            JoinEvent::Notified(outcome) => match outcome {
                Err(Error::TransportError(_)) => JoinAction::Nominate,
                other => JoinAction::Reply(self.join_response(other)),
            },
            JoinEvent::Nominated(outcome) => JoinAction::Reply(self.join_response(outcome)),
        }
    }

    /// The answer to a server that joined, after the other group was told, or
    /// was not.
    fn join_response(&self, outcome: Result<(), Error>) -> (reply: Result<JoinResponse, Status>)
        ensures
            views::result_view(reply) == call::join_reply(
                self@.cluster.group,
                views::result_view(outcome),
            ),
            reply matches Ok(response) ==> response.success && !response.is_scheduler
                && response@.group is Some && GroupInfoView::decode(response@.group->Some_0)
                == Ok::<GroupInfoView, ErrorView>(self@.cluster.group),
    {
        proof {
            laws::group_survives_its_message(self@.cluster.group);
        }
        match outcome {
            Err(error) => Err(Status::from(error)),
            Ok(_) => Ok(
                JoinResponse {
                    success: true,
                    group: Some(Group::from(self.runtime.cluster.group.clone())),
                    is_scheduler: false,
                    our_group: None,
                    nomination: None,
                },
            ),
        }
    }

    /// Takes in what the other group has become.
    pub fn notify(&mut self, request: NotifyRequest) -> (reply: Result<NotifyResponse, Status>)
        requires
            request@.cluster is Some,
        ensures
            final(self).runtime.scheduler == old(self).runtime.scheduler,
            match ClusterView::decode(request@.cluster->Some_0) {
                Ok(cluster) => {
                    &&& final(self)@ == old(self)@.with_other(cluster)
                    &&& final(self)@.other == cluster
                    &&& reply == Ok::<NotifyResponse, Status>(NotifyResponse { success: true })
                },
                Err(error) => {
                    &&& final(self)@ == old(self)@
                    &&& views::result_view(reply) == Err::<NotifyResponse, StatusView>(
                        StatusView::aborted(error.message()),
                    )
                },
            },
            old(self)@.well_formed() ==> final(self)@.well_formed(),
    {
        let state = request.cluster.unwrap();
        match Cluster::try_from(state) {
            Ok(cluster) => {
                self.runtime.other = cluster;
                Ok(NotifyResponse { success: true })
            },
            Err(error) => Err(Status::aborted(error.message())),
        }
    }

    /// Takes in a report of a server's load.
    pub fn report(&mut self, request: ReportRequest) -> (reply: Result<ReportResponse, Status>)
        ensures
            final(self).runtime.scheduler == old(self).runtime.scheduler,
            match request@.server {
                None => {
                    &&& final(self)@ == old(self)@
                    &&& views::result_view(reply) == Err::<ReportResponse, StatusView>(
                        StatusView::aborted("server cannot be empty"@),
                    )
                },
                Some(server) => match ServerInfoView::decode(server) {
                    Err(error) => {
                        &&& final(self)@ == old(self)@
                        &&& views::result_view(reply) == Err::<ReportResponse, StatusView>(
                            error.status(),
                        )
                    },
                    Ok(server) => {
                        &&& final(self)@ == old(self)@.with_stats(
                            ServerStatsView { server, stats: request@.windows },
                        )
                        &&& final(self)@.cluster.server_stats.contains_key(server.id)
                        &&& final(self)@.cluster.server_stats[server.id].stats == (if old(
                            self,
                        )@.cluster.server_stats.contains_key(server.id) {
                            old(self)@.cluster.server_stats[server.id].stats
                        } else {
                            Seq::empty()
                        }) + request@.windows
                        &&& reply == Ok::<ReportResponse, Status>(ReportResponse { success: true })
                    },
                },
            },
            old(self)@.well_formed() ==> final(self)@.well_formed(),
    {
        let server = match request.server {
            None => return Err(Status::aborted("server cannot be empty".to_owned())),
            Some(server) => server,
        };
        let server = match ServerInfo::try_from(server) {
            Err(error) => return Err(Status::from(error)),
            Ok(server) => server,
        };
        let stats = ServerStats::from_stats(server, request.windows);
        self.runtime.cluster.insert_stats(stats);
        Ok(ReportResponse { success: true })
    }

    /// Answers a request to deploy: deploys in this group, then, if the request
    /// is authoritative, in the other.
    pub fn deploy(&self, event: DeployEvent) -> (action: DeployAction)
        ensures
            match event {
                DeployEvent::Requested(request) => action matches DeployAction::DeployInUs(context)
                    && context@.deployment.source == request@.source && id::is_random(
                    context@.deployment.id,
                ) && call_ensures(id::random_id, (), context.deployment.id)
                    && context@.authoritative == request@.authoritative && context@.success,
                DeployEvent::DeployedInUs(context, outcome) => action@ == call::deploy_after_us(
                    context@,
                    views::result_view(outcome),
                ),
                DeployEvent::DeployedToOther(context, outcome) => action@
                    == call::deploy_after_other(context@, views::result_view(outcome)),
            },
    {
        match event {
            DeployEvent::Requested(request) => DeployAction::DeployInUs(
                DeployContext {
                    deployment: DeploymentInfo::new(request.source),
                    authoritative: request.authoritative,
                    success: true,
                },
            ),
            DeployEvent::DeployedInUs(context, outcome) => match outcome {
                Err(error) => DeployAction::Reply(Err(Status::from(error))),
                Ok(response) => {
                    let context = DeployContext {
                        success: context.success && response.success,
                        ..context
                    };
                    if context.authoritative {
                        let source = context.deployment.source.clone();
                        DeployAction::DeployToOther(
                            context,
                            DeployRequest { source, authoritative: false },
                        )
                    } else {
                        DeployAction::Reply(Ok(Self::deploy_response(context)))
                    }
                },
            },
            DeployEvent::DeployedToOther(context, outcome) => match outcome {
                Err(error) => DeployAction::Reply(Err(Status::from(error))),
                Ok(response) => DeployAction::Reply(
                    Ok(
                        Self::deploy_response(
                            DeployContext {
                                success: context.success && response.success,
                                ..context
                            },
                        ),
                    ),
                ),
            },
        }
    }

    /// The answer to a request to deploy, once all is done.
    fn deploy_response(context: DeployContext) -> (response: DeployResponse)
        ensures
            response@ == context@.response(),
    {
        DeployResponse {
            success: context.success,
            deployment: Some(Deployment::from(context.deployment)),
        }
    }

    /// Finds a server that runs a deployment: the strategy picks one, and is
    /// asked about the load of the servers that run the deployment, and no
    /// others. A copy of the strategy is asked, not the one that places
    /// deployments.
    pub fn lookup(&self, request: LookupRequest) -> (reply: Result<LookupResponse, Status>)
        ensures
            match id::id_of_text(request@.deployment_id) {
                Err(text) => views::result_view(reply) == Err::<LookupResponseView, StatusView>(
                    StatusView::aborted(text),
                ),
                Ok(id) => if !self@.cluster.instances.contains_key(id) {
                    views::result_view(reply) == Err::<LookupResponseView, StatusView>(
                        StatusView::aborted("Deployment not found"@),
                    )
                } else {
                    exists|asked: S, scheduled: Option<ServerInfoView>|
                        {
                            &&& vstd::pervasive::strictly_cloned(self.runtime.scheduler, asked)
                            &&& #[trigger] interface::may_schedule(
                                &asked,
                                self@.cluster.server_stats.restrict(
                                    self@.cluster.instance_server_ids(id).to_set(),
                                ),
                                scheduled,
                            )
                            &&& views::result_view(reply) == call::lookup_reply(id, scheduled)
                        }
                },
            },
    {
        let runtime = self.clone_inner();
        let id: Id = match parse_id(request.deployment_id.as_str()) {
            Err(text) => return Err(Status::aborted(text)),
            Ok(id) => id,
        };
        let server_ids = match runtime.cluster.get_instance_server_ids(&id) {
            Err(error) => return Err(Status::aborted(error.message())),
            Ok(server_ids) => server_ids,
        };
        let stats_map = runtime.cluster.server_stats.clone_by_ids(&server_ids);
        let scheduled = runtime.scheduler.schedule(&stats_map);
        assert(interface::may_schedule(
            &runtime.scheduler,
            self@.cluster.server_stats.restrict(self@.cluster.instance_server_ids(id).to_set()),
            views::opt_view(scheduled),
        ));
        Self::lookup_response(id, scheduled)
    }

    /// The answer to a lookup of a known deployment, after the strategy was
    /// asked.
    pub fn lookup_response(id: Id, scheduled: Option<ServerInfo>) -> (reply: Result<
        LookupResponse,
        Status,
    >)
        ensures
            views::result_view(reply) == call::lookup_reply(id, views::opt_view(scheduled)),
    {
        match scheduled {
            None => Err(Status::aborted("Failed to schedule".to_owned())),
            Some(target) => Ok(
                LookupResponse {
                    success: true,
                    deployment_id: format_id(id),
                    server: Some(Server::from(target)),
                },
            ),
        }
    }
}

impl<S: Clone> Clone for AuthoritativeScheduler<S> {
    fn clone(&self) -> (copy: AuthoritativeScheduler<S>)
        ensures
            copy@ == self@,
            vstd::pervasive::strictly_cloned(self.runtime.scheduler, copy.runtime.scheduler),
    {
        AuthoritativeScheduler { runtime: self.runtime.clone() }
    }
}

} // verus!
