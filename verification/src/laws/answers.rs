//! How requests are answered.
use vstd::prelude::*;

use crate::error::{ErrorView, StatusView};
use crate::id;
use crate::id::Id;
use crate::info::{DeploymentInfoView, GroupInfoView, ServerInfo, ServerInfoView};
use crate::laws;
use crate::proto::{
    DeployResponseView, NominateResponse, NotifyResponse, ServerState, SpawnResponseView,
};
use crate::scheduler::call;
use crate::scheduler::call::{DeployActionView, DeployContextView, JoinActionView};
use crate::scheduler::cluster::ClusterView;
use crate::scheduler::interface;
use crate::scheduler::interface::DeploymentScheduler;
use crate::scheduler::runtime::SchedulerRuntimeView;
use crate::scheduler::stats::{ServerStatsView, StatsMap};
use crate::server::DaemonStateView;
use crate::views;

verus! {

/// Where the strategy settles on a server, the deployment goes there; where it
/// settles on none, to the earliest server of the group, however many came after.
pub proof fn deployment_falls_back_on_the_earliest_server(
    picked: ServerInfoView,
    earliest: ServerInfoView,
    later: Seq<ServerInfoView>,
    servers: Seq<ServerInfoView>,
)
    ensures
        interface::target_of(Some(picked), servers) == picked,
        interface::target_of(None, seq![earliest] + later) == earliest,
        servers.len() > 0 ==> interface::target_of(None, servers) == servers[0],
{
    assert((seq![earliest] + later)[0] == earliest);
    if servers.len() > 0 {
        assert(servers =~= seq![servers[0]] + servers.drop_first());
    }
}

/// The server that deployments fall back on is the first scheduler of the group,
/// and stays so whatever happens: joins, reports, notifications and placements do
/// not move it.
pub proof fn server_to_fall_back_on_never_moves(
    group: GroupInfoView,
    state: SchedulerRuntimeView,
    server: ServerInfoView,
    stats: ServerStatsView,
    other: ClusterView,
    deployment: DeploymentInfoView,
)
    requires
        state.cluster.servers.len() > 0,
    ensures
        interface::target_of(None, ClusterView::of_group(group).servers) == group.scheduler_info,
        ({
            let before = interface::target_of(None, state.cluster.servers);
            &&& interface::target_of(None, state.with_server(server).cluster.servers) == before
            &&& interface::target_of(None, state.with_stats(stats).cluster.servers) == before
            &&& interface::target_of(None, state.with_other(other).cluster.servers) == before
            &&& interface::target_of(
                None,
                state.with_placement(deployment, server).cluster.servers,
            ) == before
        }),
{
}

/// What a strategy may settle on is what it may answer when it is asked about that
/// very load.
pub proof fn strategy_is_asked_about_the_load_given<S: DeploymentScheduler>(
    strategy: S,
    load: Map<Id, ServerStatsView>,
    target: Option<ServerInfoView>,
    allowed: spec_fn(Map<Id, ServerStatsView>, Option<ServerInfoView>) -> bool,
)
    requires
        interface::may_schedule(&strategy, load, target),
        forall|asked: StatsMap, answer: Option<ServerInfo>|
            call_ensures(S::schedule, (&strategy, &asked), answer) ==> #[trigger] allowed(
                asked@,
                views::opt_view(answer),
            ),
    ensures
        allowed(load, target),
{
    let (asked, answer) = choose|asked: StatsMap, answer: Option<ServerInfo>|
        #![trigger call_ensures(S::schedule, (&strategy, &asked), answer)]
        asked@ == load && call_ensures(S::schedule, (&strategy, &asked), answer)
            && views::opt_view(answer) == target;
    assert(allowed(asked@, views::opt_view(answer)));
}

/// With a strategy that picks among the servers whose load it is asked about, a
/// lookup finds a server that runs the deployment.
pub proof fn lookup_finds_a_server_that_runs_the_deployment<S: DeploymentScheduler>(
    strategy: S,
    cluster: ClusterView,
    id: Id,
    target: ServerInfoView,
)
    requires
        forall|asked: StatsMap, answer: Option<ServerInfo>|
            #![trigger call_ensures(S::schedule, (&strategy, &asked), answer)]
            call_ensures(S::schedule, (&strategy, &asked), answer) ==> (answer matches Some(server)
                ==> asked@.contains_key(server@.id)),
        interface::may_schedule(
            &strategy,
            cluster.server_stats.restrict(cluster.instance_server_ids(id).to_set()),
            Some(target),
        ),
    ensures
        exists|k: int|
            0 <= k < cluster.instances[id].servers.len()
                && #[trigger] cluster.instances[id].servers[k].id == target.id,
{
    let load = cluster.server_stats.restrict(cluster.instance_server_ids(id).to_set());
    let (asked, answer) = choose|asked: StatsMap, answer: Option<ServerInfo>|
        #![trigger call_ensures(S::schedule, (&strategy, &asked), answer)]
        asked@ == load && call_ensures(S::schedule, (&strategy, &asked), answer)
            && views::opt_view(answer) == Some(target);
    assert(load.contains_key(target.id));
    let ids = cluster.instance_server_ids(id);
    assert(ids.to_set().contains(target.id));
    let k = choose|k: int| 0 <= k < ids.len() && ids[k] == target.id;
    assert(cluster.instances[id].servers[k].id == target.id);
}

/// A lookup is refused where the strategy settles on no server.
pub proof fn lookup_without_a_server_is_refused(id: Id)
    ensures
        call::lookup_reply(id, None) is Err,
        call::lookup_reply(id, None)->Err_0.code == 10,
        call::lookup_reply(id, None)->Err_0.message == "Failed to schedule"@,
{
}

/// A notification comes to a success just where the other scheduler answers that
/// it was one. A refusal is handed on as it is.
pub proof fn notification_succeeds_as_answered(
    answer: Result<NotifyResponse, StatusView>,
)
    ensures
        call::notify_outcome(answer) is Ok <==> (answer is Ok && answer->Ok_0.success),
        answer matches Err(refusal) ==> call::notify_outcome(answer) == Err::<(), ErrorView>(
            ErrorView::RpcError(refusal),
        ),
        answer is Ok && !answer->Ok_0.success ==> call::notify_outcome(answer) == Err::<
            (),
            ErrorView,
        >(ErrorView::Text("Unsuccessful notify"@)),
{
}

/// A nomination comes to a success just where the server answers that it was one.
/// A refusal is handed on as it is.
pub proof fn nomination_succeeds_as_answered(
    answer: Result<NominateResponse, StatusView>,
)
    ensures
        call::nominate_outcome(answer) is Ok <==> (answer is Ok && answer->Ok_0.success),
        answer matches Err(refusal) ==> call::nominate_outcome(answer) == Err::<(), ErrorView>(
            ErrorView::RpcError(refusal),
        ),
        answer is Ok && !answer->Ok_0.success ==> call::nominate_outcome(answer) == Err::<
            (),
            ErrorView,
        >(ErrorView::Text("unsuccessful nomination of a new scheduler"@)),
{
}

/// A deployment in the other group comes to a success just where the other
/// scheduler answers that it was one, whatever deployment the answer names, and
/// then to that very answer. A refusal is handed on as it is.
pub proof fn forwarded_deployment_succeeds_as_answered(
    answer: Result<DeployResponseView, StatusView>,
)
    ensures
        call::deploy_outcome(answer) is Ok <==> (answer is Ok && answer->Ok_0.success),
        call::deploy_outcome(answer) is Ok ==> call::deploy_outcome(answer)->Ok_0 == answer->Ok_0,
        answer matches Err(refusal) ==> call::deploy_outcome(answer) == Err::<
            DeployResponseView,
            ErrorView,
        >(ErrorView::RpcError(refusal)),
        answer is Ok && !answer->Ok_0.success ==> call::deploy_outcome(answer) == Err::<
            DeployResponseView,
            ErrorView,
        >(ErrorView::Text("Unsuccessful deploy"@)),
{
}

/// An attempt to run an instance comes to a success just where the server answers
/// that it was one, whatever else the answer names, and then to that very answer.
/// A refusal is handed on as it is.
pub proof fn spawn_succeeds_as_answered(answer: Result<SpawnResponseView, StatusView>)
    ensures
        call::spawn_outcome(answer) is Ok <==> (answer is Ok && answer->Ok_0.success),
        call::spawn_outcome(answer) is Ok ==> call::spawn_outcome(answer)->Ok_0 == answer->Ok_0,
        answer matches Err(refusal) ==> call::spawn_outcome(answer) == Err::<
            SpawnResponseView,
            ErrorView,
        >(ErrorView::RpcError(refusal)),
        answer is Ok && !answer->Ok_0.success ==> call::spawn_outcome(answer) == Err::<
            SpawnResponseView,
            ErrorView,
        >(ErrorView::Text("Unsuccessful spawn"@)),
{
}

/// A server that is told of success is told of the very group that it joined, by
/// number and scheduler, and that it does not schedule.
pub proof fn joined_server_is_told_of_its_group(
    group: GroupInfoView,
    notified: Result<(), ErrorView>,
    nominated: Result<(), ErrorView>,
)
    ensures
        ({
            let reply = match call::join_after_notify(group, notified) {
                JoinActionView::Reply(reply) => reply,
                _ => call::join_reply(group, nominated),
            };
            reply matches Ok(response) ==> {
                &&& response.success
                &&& !response.is_scheduler
                &&& response.our_group is None
                &&& response.nomination is None
                &&& response.group is Some
                &&& GroupInfoView::decode(response.group->Some_0) == Ok::<
                    GroupInfoView,
                    ErrorView,
                >(group)
                &&& response.group->Some_0.number == group.number
            }
        }),
{
    laws::group_survives_its_message(group);
}

/// The answer to a joining server says whether the last thing that was tried with
/// the other group went well, and if not, why not.
pub proof fn join_is_answered_with_the_last_outcome(
    group: GroupInfoView,
    outcome: Result<(), ErrorView>,
)
    ensures
        call::join_reply(group, outcome) is Ok <==> outcome is Ok,
        outcome matches Err(error) ==> call::join_reply(group, outcome) is Err
            && call::join_reply(group, outcome)->Err_0.code == 10
            && call::join_reply(group, outcome)->Err_0.message == error.message(),
        outcome is Ok ==> call::join_after_notify(group, outcome) == JoinActionView::Reply(
            call::join_reply(group, outcome),
        ),
        outcome matches Err(error) ==> (call::join_after_notify(group, outcome) is Nominate
            <==> error is TransportError),
        outcome matches Err(error) ==> (!(error is TransportError) ==> call::join_after_notify(
            group,
            outcome,
        ) == JoinActionView::Reply(call::join_reply(group, outcome))),
{
}

/// A deployment in this group that fails is answered with the reason, and is not
/// passed on.
pub proof fn failed_deployment_is_not_passed_on(context: DeployContextView, error: ErrorView)
    ensures
        ({
            let reply = call::deploy_after_us(context, Err(error));
            &&& reply is Reply
            &&& reply->Reply_0 is Err
            &&& reply->Reply_0->Err_0.code == 10
            &&& reply->Reply_0->Err_0.message == error.message()
        }),
        ({
            let reply = call::deploy_after_other(context, Err(error));
            &&& reply is Reply
            &&& reply->Reply_0 is Err
            &&& reply->Reply_0->Err_0.code == 10
            &&& reply->Reply_0->Err_0.message == error.message()
        }),
{
}

/// A deployment that went well in this group is passed on just where it is
/// authoritative, with its source. What is remembered of it stays, and it is a
/// success as long as every step was one.
pub proof fn authoritative_deployment_is_passed_on(
    context: DeployContextView,
    response: SpawnResponseView,
)
    ensures
        context.authoritative <==> call::deploy_after_us(context, Ok(response)) is DeployToOther,
        call::deploy_after_us(context, Ok(response)) matches DeployActionView::DeployToOther(
            next,
            request,
        ) ==> {
            &&& request.source == context.deployment.source
            &&& !request.authoritative
            &&& next.deployment == context.deployment
            &&& next.authoritative == context.authoritative
            &&& next.success == (context.success && response.success)
        },
        !context.authoritative ==> call::deploy_after_us(context, Ok(response)) is Reply,
{
}

/// The answer to a deployment that was carried out names the deployment by id and
/// source, and says whether every step was a success.
pub proof fn deployment_is_answered_with_its_id_and_source(
    context: DeployContextView,
    spawned: SpawnResponseView,
    deployed: DeployResponseView,
)
    ensures
        !context.authoritative ==> {
            let reply = call::deploy_after_us(context, Ok(spawned))->Reply_0;
            &&& reply is Ok
            &&& reply->Ok_0.success == (context.success && spawned.success)
            &&& reply->Ok_0.deployment is Some
            &&& DeploymentInfoView::decode(reply->Ok_0.deployment->Some_0) == Ok::<
                DeploymentInfoView,
                ErrorView,
            >(context.deployment)
        },
        ({
            let action = call::deploy_after_other(context, Ok(deployed));
            &&& action is Reply
            &&& action->Reply_0 is Ok
            &&& action->Reply_0->Ok_0.success == (context.success && deployed.success)
            &&& action->Reply_0->Ok_0.deployment is Some
            &&& DeploymentInfoView::decode(action->Reply_0->Ok_0.deployment->Some_0) == Ok::<
                DeploymentInfoView,
                ErrorView,
            >(context.deployment)
        }),
{
    laws::deployment_survives_its_message(context.deployment);
}

/// A deployment is answered as a success just where the instance runs and, if the
/// request was authoritative, the other group answered that it deployed as well.
/// A peer's refusal is handed on with its message.
pub proof fn deployment_succeeds_with_every_group_asked(
    context: DeployContextView,
    spawned: Result<SpawnResponseView, StatusView>,
    deployed: Result<DeployResponseView, StatusView>,
)
    requires
        context.success,
    ensures
        ({
            let action = match call::deploy_after_us(context, call::spawn_outcome(spawned)) {
                DeployActionView::DeployToOther(next, _) => call::deploy_after_other(
                    next,
                    call::deploy_outcome(deployed),
                ),
                action => action,
            };
            let runs = spawned is Ok && spawned->Ok_0.success;
            let there = deployed is Ok && deployed->Ok_0.success;
            &&& action is Reply
            &&& action->Reply_0 is Ok <==> runs && (context.authoritative ==> there)
            &&& action->Reply_0 is Ok ==> action->Reply_0->Ok_0.success
            &&& spawned is Err ==> action->Reply_0->Err_0.message == spawned->Err_0.message
            &&& runs && context.authoritative && deployed is Err
                ==> action->Reply_0->Err_0.message == deployed->Err_0.message
        }),
{
}

/// A daemon tells the group that it runs in, or schedules for; the group on the
/// other side is of no account. Without a group there is none to tell.
pub proof fn daemon_belongs_to_its_own_group(
    server: ServerInfoView,
    group: GroupInfoView,
    scheduler: SchedulerRuntimeView,
    other: ClusterView,
)
    ensures
        DaemonStateView::Running(server, group).group() == Some(group),
        DaemonStateView::Authoritative(server, scheduler).group() == Some(scheduler.cluster.group),
        DaemonStateView::Authoritative(server, scheduler.with_other(other)).group()
            == DaemonStateView::Authoritative(server, scheduler).group(),
        DaemonStateView::Starting.group() is None,
        DaemonStateView::Uninitialized(server).group() is None,
        DaemonStateView::Joining(server).group() is None,
        DaemonStateView::Failed.group() is None,
{
}

/// A daemon runs on the server that its state names, where it names one.
pub proof fn daemon_runs_on_the_server_named(
    server: ServerInfoView,
    group: GroupInfoView,
    scheduler: SchedulerRuntimeView,
)
    ensures
        DaemonStateView::Uninitialized(server).server() == Some(server),
        DaemonStateView::Joining(server).server() == Some(server),
        DaemonStateView::Running(server, group).server() == Some(server),
        DaemonStateView::Authoritative(server, scheduler).server() == Some(server),
        DaemonStateView::Starting.server() is None,
        DaemonStateView::Failed.server() is None,
{
}

/// Each state of a daemon is told by the name of its own.
pub proof fn daemon_state_is_told_by_its_name(
    server: ServerInfoView,
    group: GroupInfoView,
    scheduler: SchedulerRuntimeView,
)
    ensures
        DaemonStateView::Starting.server_state() == ServerState::Starting,
        DaemonStateView::Uninitialized(server).server_state() == ServerState::Uninitialized,
        DaemonStateView::Joining(server).server_state() == ServerState::Joining,
        DaemonStateView::Running(server, group).server_state() == ServerState::Running,
        DaemonStateView::Authoritative(server, scheduler).server_state()
            == ServerState::Authoritative,
        DaemonStateView::Failed.server_state() == ServerState::Failed,
{
}

/// A random id carries version four in its thirteenth digit, and in its
/// seventeenth one the variant: eight, nine, a or b.
pub proof fn random_id_is_marked(id: Id)
    requires
        id::is_random(id),
    ensures
        id::nibble(id, 12) == 4,
        8 <= id::nibble(id, 16) < 12,
{
    assert((id >> 62u128) & 0x3 == 2 ==> 8 <= (id >> 60u128) & 0xf < 12) by (bit_vector);
}

} // verus!
