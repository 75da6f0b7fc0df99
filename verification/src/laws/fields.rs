//! Contracts speak of values by their views. A view hides nothing: it shows every
//! field of the value, as it is.
use vstd::prelude::*;

use crate::error::{Error, ErrorView, Status};
use crate::id::Id;
use crate::info::{AppInstancesInfo, DeploymentInfo, GroupInfo, ServerInfo};
use crate::proto::{
    AppInstances, ClusterState, DeployRequest, DeployResponse, Deployment, GetInfoResponse, Group,
    JoinRequest, JoinResponse, LookupRequest, LookupResponse, MonitorResponse, MonitorWindow,
    NominateRequest, NominateResponse, Nomination, NotifyRequest, NotifyResponse, ReportRequest,
    ReportResponse, Server, SpawnRequest, SpawnResponse,
};
use crate::scheduler::authoritative::AuthoritativeScheduler;
use crate::scheduler::call::{
    DeployAction, DeployActionView, DeployContext, JoinAction, JoinActionView,
};
use crate::scheduler::cluster::Cluster;
use crate::scheduler::runtime::SchedulerRuntime;
use crate::scheduler::stats::ServerStats;
use crate::server::{DaemonState, DaemonStateView};
use crate::utils::IdMap;
use crate::views;

verus! {

/// What an option holds, or that it holds nothing, is seen in its view.
pub proof fn option_shows_what_it_holds<T: View>(value: T)
    ensures
        views::opt_view(Some(value)) == Some(value@),
        views::opt_view(None::<T>) == None::<T::V>,
{
}

/// A list shows as many elements as it has, each in its place.
pub proof fn list_shows_each_element<T: View>(items: Seq<T>)
    ensures
        views::seq_view(items).len() == items.len(),
        forall|k: int| 0 <= k < items.len() ==> #[trigger] views::seq_view(items)[k] == items[k]@,
{
}

/// A result shows which side it is on, and what it holds there.
pub proof fn result_shows_its_side<T: View, E: View>(value: T, error: E)
    ensures
        views::result_view(Ok::<T, E>(value)) == Ok::<T::V, E::V>(value@),
        views::result_view(Err::<T, E>(error)) == Err::<T::V, E::V>(error@),
{
}

/// A result that is a list shows the elements of the list.
pub proof fn list_result_shows_its_side<T: View, E: View>(items: Vec<T>, error: E)
    ensures
        views::list_result_view(Ok::<Vec<T>, E>(items)) == Ok::<Seq<T::V>, E::V>(
            views::seq_view(items@),
        ),
        views::list_result_view(Err::<Vec<T>, E>(error)) == Err::<Seq<T::V>, E::V>(error@),
{
}

/// A map shows the ids that have a value, and the value of each.
pub proof fn map_shows_each_entry<T: View>(map: IdMap<T>, id: Id)
    ensures
        map@.contains_key(id) <==> map.0@.contains_key(id),
        map.0@.contains_key(id) ==> map@[id] == map.0@[id]@,
{
}

/// A status shows its code and its message.
pub proof fn status_shows_code_and_message(status: Status)
    ensures
        status@.code == status.code,
        status@.message == status.message@,
{
}

/// An error shows its kind, and what it holds.
pub proof fn error_shows_its_kind(text: String, status: Status)
    ensures
        Error::Text(text)@ == ErrorView::Text(text@),
        Error::TransportError(text)@ == ErrorView::TransportError(text@),
        Error::RpcError(status)@ == ErrorView::RpcError(status@),
        Error::UuidError(text)@ == ErrorView::UuidError(text@),
{
}

/// Servers, groups and deployments show all that is known of them.
pub proof fn infos_show_every_field(
    server: ServerInfo,
    group: GroupInfo,
    deployment: DeploymentInfo,
    instances: AppInstancesInfo,
    stats: ServerStats,
    window: MonitorWindow,
)
    ensures
        server@.id == server.id,
        server@.addr == server.addr@,
        group@.number == group.number,
        group@.scheduler_info == group.scheduler_info@,
        deployment@.id == deployment.id,
        deployment@.source == deployment.source@,
        instances@.deployment == instances.deployment@,
        instances@.servers == views::seq_view(instances.servers@),
        stats@.server == stats.server@,
        stats@.stats == views::seq_view(stats.stats@),
        window@ == window.encoded@,
{
}

/// The messages on servers, groups and deployments show all that they hold.
pub proof fn described_things_show_every_field(
    server: Server,
    group: Group,
    deployment: Deployment,
    instances: AppInstances,
    state: ClusterState,
    nomination: Nomination,
)
    ensures
        server@.id == server.id@,
        server@.addr == server.addr@,
        group@.number == group.number,
        group@.scheduler == views::opt_view(group.scheduler),
        deployment@.id == deployment.id@,
        deployment@.source == deployment.source@,
        instances@.deployment == views::opt_view(instances.deployment),
        instances@.servers == views::seq_view(instances.servers@),
        state@.group == views::opt_view(state.group),
        state@.servers == views::seq_view(state.servers@),
        state@.instances == views::seq_view(state.instances@),
        nomination@.cluster == views::opt_view(nomination.cluster),
{
}

/// Requests show all that they hold.
pub proof fn requests_show_every_field(
    join: JoinRequest,
    notify: NotifyRequest,
    report: ReportRequest,
    deploy: DeployRequest,
    lookup: LookupRequest,
    nominate: NominateRequest,
    spawn: SpawnRequest,
)
    ensures
        join@.server == views::opt_view(join.server),
        notify@.cluster == views::opt_view(notify.cluster),
        report@.server == views::opt_view(report.server),
        report@.windows == views::seq_view(report.windows@),
        deploy@.source == deploy.source@,
        deploy@.authoritative == deploy.authoritative,
        lookup@.deployment_id == lookup.deployment_id@,
        nominate@.nomination == views::opt_view(nominate.nomination),
        spawn@.deployment == views::opt_view(spawn.deployment),
{
}

/// Answers show all that they hold.
pub proof fn answers_show_every_field(
    join: JoinResponse,
    notify: NotifyResponse,
    report: ReportResponse,
    deploy: DeployResponse,
    lookup: LookupResponse,
    nominate: NominateResponse,
    spawn: SpawnResponse,
    info: GetInfoResponse,
    monitor: MonitorResponse,
)
    ensures
        join@.success == join.success,
        join@.group == views::opt_view(join.group),
        join@.is_scheduler == join.is_scheduler,
        join@.our_group == views::opt_view(join.our_group),
        join@.nomination == views::opt_view(join.nomination),
        notify@ == notify,
        report@ == report,
        deploy@.success == deploy.success,
        deploy@.deployment == views::opt_view(deploy.deployment),
        lookup@.success == lookup.success,
        lookup@.deployment_id == lookup.deployment_id@,
        lookup@.server == views::opt_view(lookup.server),
        nominate@ == nominate,
        spawn@.success == spawn.success,
        spawn@.deployment == views::opt_view(spawn.deployment),
        spawn@.server == views::opt_view(spawn.server),
        info@.server == views::opt_view(info.server),
        info@.group == views::opt_view(info.group),
        info@.state == info.state,
        monitor@.windows == views::seq_view(monitor.windows@),
{
}

/// A scheduler shows both clusters and the deployments that it placed, and a
/// cluster all that is known of the group.
pub proof fn schedulers_show_their_state<S>(
    cluster: Cluster,
    runtime: SchedulerRuntime<S>,
    scheduler: AuthoritativeScheduler<S>,
)
    ensures
        cluster@.group == cluster.group@,
        cluster@.servers == views::seq_view(cluster.servers@),
        cluster@.instances == cluster.instances@,
        cluster@.server_stats == cluster.server_stats@,
        runtime@.cluster == runtime.cluster@,
        runtime@.other == runtime.other@,
        runtime@.deployments == runtime.deployments@,
        scheduler@ == scheduler.runtime@,
{
}

/// The state of a daemon shows its kind, and what it holds.
pub proof fn daemon_state_shows_its_kind<S>(
    server: ServerInfo,
    group: GroupInfo,
    scheduler: AuthoritativeScheduler<S>,
)
    ensures
        DaemonState::<S>::Starting@ == DaemonStateView::Starting,
        DaemonState::<S>::Uninitialized(server)@ == DaemonStateView::Uninitialized(server@),
        DaemonState::<S>::Joining(server)@ == DaemonStateView::Joining(server@),
        DaemonState::<S>::Running(server, group)@ == DaemonStateView::Running(server@, group@),
        DaemonState::Authoritative(server, scheduler)@ == DaemonStateView::Authoritative(
            server@,
            scheduler@,
        ),
        DaemonState::<S>::Failed@ == DaemonStateView::Failed,
{
}

/// What is to be done next shows its kind, and what it carries.
pub proof fn actions_show_their_kind(
    joined: Result<JoinResponse, Status>,
    context: DeployContext,
    request: DeployRequest,
    deployed: Result<DeployResponse, Status>,
)
    ensures
        JoinAction::Notify@ == JoinActionView::Notify,
        JoinAction::Nominate@ == JoinActionView::Nominate,
        JoinAction::Reply(joined)@ == JoinActionView::Reply(views::result_view(joined)),
        context@.deployment == context.deployment@,
        context@.authoritative == context.authoritative,
        context@.success == context.success,
        DeployAction::DeployInUs(context)@ == DeployActionView::DeployInUs(context@),
        DeployAction::DeployToOther(context, request)@ == DeployActionView::DeployToOther(
            context@,
            request@,
        ),
        DeployAction::Reply(deployed)@ == DeployActionView::Reply(views::result_view(deployed)),
{
}

} // verus!
