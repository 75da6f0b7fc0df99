//! What holds of the library as a whole.
pub mod answers;
pub mod fields;
pub mod messages;
pub mod states;

use vstd::prelude::*;

use crate::error::{ErrorView, StatusView};
use crate::id;
use crate::id::Id;
use crate::info;
use crate::info::{AppInstancesInfoView, DeploymentInfoView, GroupInfoView, ServerInfoView};
use crate::proto::{
    AppInstancesView, ClusterStateView, DeployRequestView, DeployResponseView, NotifyResponse,
    SpawnResponseView,
};
use crate::scheduler::call;
use crate::scheduler::call::{DeployActionView, DeployContextView, JoinActionView};
use crate::scheduler::cluster;
use crate::scheduler::cluster::ClusterView;
use crate::scheduler::runtime::SchedulerRuntimeView;
use crate::scheduler::stats::ServerStatsView;

verus! {

/// A server is read back from the message that names it.
pub proof fn server_survives_its_message(server: ServerInfoView)
    ensures
        ServerInfoView::decode(server.encode()) == Ok::<ServerInfoView, ErrorView>(server),
{
    id::id_of_hyphenated(server.id);
}

/// Servers are read back, in order, from the messages that name them.
pub proof fn servers_survive_their_messages(servers: Seq<ServerInfoView>)
    ensures
        ServerInfoView::decode_all(info::encode_servers(servers)) == Ok::<
            Seq<ServerInfoView>,
            ErrorView,
        >(servers),
    decreases servers.len(),
{
    let messages = info::encode_servers(servers);
    if servers.len() == 0 {
        assert(servers =~= Seq::empty());
    } else {
        servers_survive_their_messages(servers.drop_last());
        server_survives_its_message(servers.last());
        assert(messages.drop_last() =~= info::encode_servers(servers.drop_last()));
        assert(servers =~= servers.drop_last().push(servers.last()));
    }
}

/// A group is read back from the message that describes it.
pub proof fn group_survives_its_message(group: GroupInfoView)
    ensures
        GroupInfoView::decode(group.encode()) == Ok::<GroupInfoView, ErrorView>(group),
{
    server_survives_its_message(group.scheduler_info);
}

/// A deployment is read back from the message that describes it.
pub proof fn deployment_survives_its_message(deployment: DeploymentInfoView)
    ensures
        DeploymentInfoView::decode(deployment.encode()) == Ok::<DeploymentInfoView, ErrorView>(
            deployment,
        ),
{
    id::id_of_hyphenated(deployment.id);
}

/// The instances of a deployment are read back from the message that describes
/// them.
pub proof fn instances_survive_their_message(instances: AppInstancesInfoView)
    ensures
        AppInstancesInfoView::decode(instances.encode()) == Ok::<AppInstancesInfoView, ErrorView>(
            instances,
        ),
{
    deployment_survives_its_message(instances.deployment);
    servers_survive_their_messages(instances.servers);
}

/// Reading the messages on the first entries of a map gives those entries.
proof fn listed_instances_are_read(
    order: Seq<Id>,
    instances: Map<Id, AppInstancesInfoView>,
    messages: Seq<AppInstancesView>,
)
    requires
        order.no_duplicates(),
        forall|k: int|
            0 <= k < order.len() ==> instances.contains_key(#[trigger] order[k])
                && instances[order[k]].deployment.id == order[k],
        messages == order.map_values(|id: Id| instances[id].encode()),
    ensures
        cluster::decode_instances(messages) == Ok::<Map<Id, AppInstancesInfoView>, ErrorView>(
            instances.restrict(order.to_set()),
        ),
    decreases order.len(),
{
    broadcast use vstd::seq_lib::group_seq_properties;

    if order.len() == 0 {
        assert(instances.restrict(order.to_set()) =~= Map::empty());
    } else {
        let before = order.drop_last();
        let last = order.last();
        assert(messages.drop_last() =~= before.map_values(|id: Id| instances[id].encode()));
        listed_instances_are_read(before, instances, messages.drop_last());
        instances_survive_their_message(instances[last]);
        assert(order =~= before.push(last));
        assert(instances.restrict(order.to_set()) =~= instances.restrict(
            before.to_set(),
        ).insert(last, instances[last]));
    }
}

/// A cluster is read back from any message that describes it, but for the load,
/// which is not told.
pub proof fn cluster_survives_its_message(cluster: ClusterView, state: ClusterStateView)
    requires
        cluster.instances_keyed(),
        cluster.encoded_as(state),
    ensures
        ClusterView::decode(state) == Ok::<ClusterView, ErrorView>(cluster.without_stats()),
{
    let order = choose|order: Seq<Id>| #[trigger]
        cluster::lists_instances(order, cluster.instances, state.instances);
    group_survives_its_message(cluster.group);
    servers_survive_their_messages(cluster.servers);
    assert forall|k: int| 0 <= k < order.len() implies cluster.instances.contains_key(
        #[trigger] order[k],
    ) by {
        assert(order.to_set().contains(order[k]));
    }
    listed_instances_are_read(order, cluster.instances, state.instances);
    assert(cluster.instances.restrict(order.to_set()) =~= cluster.instances);
}

/// A scheduler that is told what the other group has become knows all of it but
/// the load, and keeps all that it knows of its own group.
pub proof fn notified_scheduler_knows_the_other_group(
    sender: SchedulerRuntimeView,
    receiver: SchedulerRuntimeView,
    state: ClusterStateView,
)
    requires
        sender.cluster.instances_keyed(),
        sender.cluster.encoded_as(state),
    ensures
        ClusterView::decode(state) is Ok,
        ({
            let after = receiver.with_other(ClusterView::decode(state)->Ok_0);
            &&& after.other == sender.cluster.without_stats()
            &&& after.cluster == receiver.cluster
            &&& after.deployments == receiver.deployments
        }),
{
    cluster_survives_its_message(sender.cluster, state);
}

/// A server that joined a group is known to the other group once that was
/// notified: it is the last of the servers.
pub proof fn joined_server_becomes_known_to_the_other_group(
    sender: SchedulerRuntimeView,
    server: ServerInfoView,
    receiver: SchedulerRuntimeView,
    state: ClusterStateView,
)
    requires
        sender.cluster.instances_keyed(),
        sender.with_server(server).cluster.encoded_as(state),
    ensures
        ClusterView::decode(state) is Ok,
        receiver.with_other(ClusterView::decode(state)->Ok_0).other.servers
            == sender.cluster.servers.push(server),
{
    cluster_survives_its_message(sender.with_server(server).cluster, state);
}

/// A nominated scheduler is handed the other cluster just as the nominating one
/// was told of it: what was read from a message comes back from a message on it.
pub proof fn nomination_hands_over_what_was_told(
    told: ClusterStateView,
    handed: ClusterStateView,
)
    requires
        ClusterView::decode(told) is Ok,
        ClusterView::decode(told)->Ok_0.encoded_as(handed),
    ensures
        ClusterView::decode(handed) == ClusterView::decode(told),
{
    let other = ClusterView::decode(told)->Ok_0;
    cluster::decoded_cluster_is_well_formed(told);
    cluster_survives_its_message(other, handed);
    assert(other.without_stats() =~= other);
}

/// A deployment that was placed on a server can be looked up: that server is the
/// last to be named for it, after those that were named before.
pub proof fn placed_deployment_is_found(
    state: SchedulerRuntimeView,
    deployment: DeploymentInfoView,
    target: ServerInfoView,
)
    ensures
        ({
            let placed = state.with_placement(deployment, target);
            let known = if state.cluster.instances.contains_key(deployment.id) {
                state.cluster.instance_server_ids(deployment.id)
            } else {
                Seq::empty()
            };
            &&& placed.deployments.contains_key(deployment.id)
            &&& placed.deployments[deployment.id] == deployment
            &&& placed.cluster.instances.contains_key(deployment.id)
            &&& placed.cluster.instance_server_ids(deployment.id) == known.push(target.id)
        }),
{
    let placed = state.with_placement(deployment, target);
    let known = if state.cluster.instances.contains_key(deployment.id) {
        state.cluster.instance_server_ids(deployment.id)
    } else {
        Seq::empty()
    };
    assert(placed.cluster.instance_server_ids(deployment.id) =~= known.push(target.id));
}

/// The id in the answer to a deployment is one that a lookup understands: it
/// stands for the deployment that went on record.
pub proof fn answered_id_can_be_looked_up(
    state: SchedulerRuntimeView,
    context: DeployContextView,
    target: ServerInfoView,
)
    ensures
        context.response().deployment is Some,
        ({
            let answered = id::id_of_text(context.response().deployment->Some_0.id);
            &&& answered == Ok::<Id, Seq<char>>(context.deployment.id)
            &&& state.with_placement(
                context.deployment,
                target,
            ).cluster.instances.contains_key(answered->Ok_0)
        }),
{
    id::id_of_hyphenated(context.deployment.id);
}

/// A lookup for which the strategy settled on a server is answered with that
/// server and with the id that was asked for.
pub proof fn lookup_is_answered_with_server_and_id(id: Id, target: ServerInfoView)
    ensures
        call::lookup_reply(id, Some(target)) is Ok,
        ({
            let response = call::lookup_reply(id, Some(target))->Ok_0;
            &&& response.success
            &&& id::id_of_text(response.deployment_id) == Ok::<Id, Seq<char>>(id)
            &&& response.server is Some
            &&& ServerInfoView::decode(response.server->Some_0) == Ok::<
                ServerInfoView,
                ErrorView,
            >(target)
        }),
{
    id::id_of_hyphenated(id);
    server_survives_its_message(target);
}

/// Placing a deployment changes nothing of what is known of the others.
pub proof fn placement_leaves_other_deployments(
    state: SchedulerRuntimeView,
    deployment: DeploymentInfoView,
    target: ServerInfoView,
    id: Id,
)
    requires
        id != deployment.id,
    ensures
        ({
            let placed = state.with_placement(deployment, target);
            &&& placed.deployments.contains_key(id) == state.deployments.contains_key(id)
            &&& state.deployments.contains_key(id) ==> placed.deployments[id]
                == state.deployments[id]
            &&& placed.cluster.instances.contains_key(id)
                == state.cluster.instances.contains_key(id)
            &&& state.cluster.instances.contains_key(id) ==> placed.cluster.instances[id]
                == state.cluster.instances[id]
        }),
{
}

/// Giving servers instances of a deployment in two goes comes to the same as
/// giving them in one.
pub proof fn instances_add_up(
    cluster: ClusterView,
    deployment: DeploymentInfoView,
    first: Seq<ServerInfoView>,
    second: Seq<ServerInfoView>,
)
    ensures
        cluster.with_instance(deployment, first).with_instance(deployment, second)
            == cluster.with_instance(deployment, first + second),
{
    let twice = cluster.with_instance(deployment, first).with_instance(deployment, second);
    let once = cluster.with_instance(deployment, first + second);
    assert(twice.instances[deployment.id].servers =~= once.instances[deployment.id].servers);
    assert(twice.instances =~= once.instances);
}

/// The instances of different deployments do not touch each other: the order in
/// which they are given is of no account.
pub proof fn instances_of_different_deployments_commute(
    cluster: ClusterView,
    first: DeploymentInfoView,
    first_servers: Seq<ServerInfoView>,
    second: DeploymentInfoView,
    second_servers: Seq<ServerInfoView>,
)
    requires
        first.id != second.id,
    ensures
        cluster.with_instance(first, first_servers).with_instance(second, second_servers)
            == cluster.with_instance(second, second_servers).with_instance(first, first_servers),
{
    assert(cluster.with_instance(first, first_servers).with_instance(
        second,
        second_servers,
    ).instances =~= cluster.with_instance(second, second_servers).with_instance(
        first,
        first_servers,
    ).instances);
}

/// Two reports of a server come to the same as one with the windows of both.
pub proof fn reports_add_up(
    cluster: ClusterView,
    server: ServerInfoView,
    first: Seq<Seq<u8>>,
    second: Seq<Seq<u8>>,
)
    ensures
        cluster.with_stats(ServerStatsView { server, stats: first }).with_stats(
            ServerStatsView { server, stats: second },
        ) == cluster.with_stats(ServerStatsView { server, stats: first + second }),
{
    let twice = cluster.with_stats(ServerStatsView { server, stats: first }).with_stats(
        ServerStatsView { server, stats: second },
    );
    let once = cluster.with_stats(ServerStatsView { server, stats: first + second });
    assert(twice.server_stats[server.id].stats =~= once.server_stats[server.id].stats);
    assert(twice.server_stats =~= once.server_stats);
}

/// The reports of different servers do not touch each other: their order is of
/// no account.
pub proof fn reports_of_different_servers_commute(
    cluster: ClusterView,
    first: ServerStatsView,
    second: ServerStatsView,
)
    requires
        first.server.id != second.server.id,
    ensures
        cluster.with_stats(first).with_stats(second) == cluster.with_stats(second).with_stats(
            first,
        ),
{
    assert(cluster.with_stats(first).with_stats(second).server_stats
        =~= cluster.with_stats(second).with_stats(first).server_stats);
}

/// A cluster has a server from the start, and nothing that happens to a scheduler
/// takes one away, so there is always one to fall back on when a deployment is
/// placed.
pub proof fn servers_only_grow(
    group: GroupInfoView,
    state: SchedulerRuntimeView,
    server: ServerInfoView,
    stats: ServerStatsView,
    other: ClusterView,
    deployment: DeploymentInfoView,
)
    ensures
        ClusterView::of_group(group).servers.len() > 0,
        state.cluster.servers.is_prefix_of(state.with_server(server).cluster.servers),
        state.with_stats(stats).cluster.servers == state.cluster.servers,
        state.with_other(other).cluster.servers == state.cluster.servers,
        state.with_placement(deployment, server).cluster.servers == state.cluster.servers,
{
}

/// Nothing that happens to a scheduler changes the number or the scheduler of its
/// own group.
pub proof fn group_never_changes(
    state: SchedulerRuntimeView,
    server: ServerInfoView,
    stats: ServerStatsView,
    other: ClusterView,
    deployment: DeploymentInfoView,
)
    ensures
        state.with_server(server).cluster.group == state.cluster.group,
        state.with_stats(stats).cluster.group == state.cluster.group,
        state.with_other(other).cluster.group == state.cluster.group,
        state.with_placement(deployment, server).cluster.group == state.cluster.group,
{
}

/// A server that joins is told of success just where the other group was
/// notified, or could not be reached and took the nomination.
pub proof fn join_succeeds_with_the_other_group(
    group: GroupInfoView,
    notified: Result<(), ErrorView>,
    nominated: Result<(), ErrorView>,
)
    ensures
        ({
            let reply = match call::join_after_notify(group, notified) {
                JoinActionView::Reply(reply) => reply,
                _ => call::join_reply(group, nominated),
            };
            reply is Ok <==> (notified is Ok || (notified->Err_0 is TransportError
                && nominated is Ok))
        }),
{
}

/// A scheduler that could be connected to is not replaced, whatever it answers:
/// a nomination follows only where it could not be reached.
pub proof fn reachable_scheduler_is_not_replaced(
    group: GroupInfoView,
    answer: Result<NotifyResponse, StatusView>,
    text: Seq<char>,
)
    ensures
        call::join_after_notify(group, call::notify_outcome(answer)) is Reply,
        call::join_after_notify(group, Err(ErrorView::TransportError(text))) is Nominate,
{
}

/// What is passed on to the other group is not authoritative, and what is not
/// authoritative is passed on no further.
pub proof fn forwarded_deployment_goes_no_further(
    context: DeployContextView,
    outcome: Result<SpawnResponseView, ErrorView>,
    request: DeployRequestView,
    there: DeployContextView,
    outcome_there: Result<SpawnResponseView, ErrorView>,
)
    requires
        call::deploy_after_us(context, outcome) matches DeployActionView::DeployToOther(
            _,
            forwarded,
        ) && forwarded == request,
        there.authoritative == request.authoritative,
    ensures
        context.authoritative,
        request.source == context.deployment.source,
        call::deploy_after_us(there, outcome_there) is Reply,
{
}

/// A deployment that is answered at all is answered as a success, whether or not
/// the other group was to take part: a step that fails is answered as an error.
pub proof fn answered_deployment_succeeded(
    context: DeployContextView,
    spawned: Result<SpawnResponseView, StatusView>,
    deployed: Result<DeployResponseView, StatusView>,
)
    requires
        context.success,
    ensures
        ({
            let reply = match call::deploy_after_us(context, call::spawn_outcome(spawned)) {
                DeployActionView::DeployToOther(next, _) => call::deploy_after_other(
                    next,
                    call::deploy_outcome(deployed),
                ),
                action => action,
            };
            reply matches DeployActionView::Reply(Ok(response)) ==> response.success
                && response.deployment == Some(context.deployment.encode())
        }),
{
}

} // verus!
