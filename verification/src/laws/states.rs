//! What each thing that happens changes in the state, and what it leaves.
use vstd::prelude::*;

use crate::id::Id;
use crate::info::{DeploymentInfoView, GroupInfoView, ServerInfoView};
use crate::scheduler::cluster::ClusterView;
use crate::scheduler::runtime::SchedulerRuntimeView;
use crate::scheduler::stats::ServerStatsView;

verus! {

/// A group starts with its scheduler as its one server. Nothing is deployed, and
/// no load is known.
pub proof fn group_starts_with_its_scheduler(group: GroupInfoView, id: Id)
    ensures
        ClusterView::of_group(group).group == group,
        ClusterView::of_group(group).servers.len() == 1,
        ClusterView::of_group(group).servers[0] == group.scheduler_info,
        !ClusterView::of_group(group).instances.contains_key(id),
        !ClusterView::of_group(group).server_stats.contains_key(id),
{
}

/// A scheduler starts with both clusters as they are given, and has placed
/// nothing.
pub proof fn scheduler_starts_with_both_clusters(cluster: ClusterView, other: ClusterView, id: Id)
    ensures
        SchedulerRuntimeView::of_clusters(cluster, other).cluster == cluster,
        SchedulerRuntimeView::of_clusters(cluster, other).other == other,
        !SchedulerRuntimeView::of_clusters(cluster, other).deployments.contains_key(id),
{
}

/// A server that joins is the last of the group, once more for every time that it
/// joins. The servers that were there stay in their places, and nothing else
/// changes.
pub proof fn joining_server_comes_last(state: SchedulerRuntimeView, server: ServerInfoView)
    ensures
        ({
            let after = state.with_server(server);
            &&& after.cluster.servers.len() == state.cluster.servers.len() + 1
            &&& after.cluster.servers.last() == server
            &&& after.cluster.servers.drop_last() == state.cluster.servers
            &&& after.cluster.group == state.cluster.group
            &&& after.cluster.instances == state.cluster.instances
            &&& after.cluster.server_stats == state.cluster.server_stats
            &&& after.other == state.other
            &&& after.deployments == state.deployments
            &&& after.cluster == state.cluster.with_server(server)
        }),
{
    assert(state.with_server(server).cluster.servers.drop_last() =~= state.cluster.servers);
}

/// After a report, the load of the server that reported is known, whether or not
/// the server belongs to the group: the windows that were known of it, then those
/// of the report. The first report also fixes what is known of the server.
pub proof fn report_goes_on_record(cluster: ClusterView, stats: ServerStatsView)
    ensures
        ({
            let after = cluster.with_stats(stats).server_stats;
            let known = if cluster.server_stats.contains_key(stats.server.id) {
                cluster.server_stats[stats.server.id].stats
            } else {
                Seq::empty()
            };
            &&& after.contains_key(stats.server.id)
            &&& after[stats.server.id].stats == known + stats.stats
            &&& after[stats.server.id].server == if cluster.server_stats.contains_key(
                stats.server.id,
            ) {
                cluster.server_stats[stats.server.id].server
            } else {
                stats.server
            }
        }),
{
    if !cluster.server_stats.contains_key(stats.server.id) {
        assert(Seq::<Seq<u8>>::empty() + stats.stats =~= stats.stats);
    }
}

/// A report changes the load of the server that reported, and nothing else.
pub proof fn report_leaves_the_rest(cluster: ClusterView, stats: ServerStatsView, id: Id)
    ensures
        ({
            let after = cluster.with_stats(stats);
            &&& id != stats.server.id ==> after.server_stats.contains_key(id)
                == cluster.server_stats.contains_key(id)
            &&& id != stats.server.id && cluster.server_stats.contains_key(id)
                ==> after.server_stats[id] == cluster.server_stats[id]
            &&& after.group == cluster.group
            &&& after.servers == cluster.servers
            &&& after.instances == cluster.instances
        }),
{
}

/// A report to a scheduler goes on record in the scheduler's own group, and
/// touches neither the other group nor what was placed.
pub proof fn report_is_on_the_own_group(state: SchedulerRuntimeView, stats: ServerStatsView)
    ensures
        state.with_stats(stats).cluster == state.cluster.with_stats(stats),
        state.with_stats(stats).other == state.other,
        state.with_stats(stats).deployments == state.deployments,
{
}

/// After servers were given instances of a deployment, these are on record: the
/// servers that had one, then the new ones. What was first known of the deployment
/// stays.
pub proof fn instances_go_on_record(
    cluster: ClusterView,
    deployment: DeploymentInfoView,
    servers: Seq<ServerInfoView>,
)
    ensures
        ({
            let after = cluster.with_instance(deployment, servers).instances;
            let had = cluster.instances.contains_key(deployment.id);
            let known = if had {
                cluster.instances[deployment.id].servers
            } else {
                Seq::empty()
            };
            &&& after.contains_key(deployment.id)
            &&& after[deployment.id].servers == known + servers
            &&& had ==> after[deployment.id].deployment
                == cluster.instances[deployment.id].deployment
            &&& !had ==> after[deployment.id].deployment == deployment
        }),
{
    if !cluster.instances.contains_key(deployment.id) {
        assert(Seq::<ServerInfoView>::empty() + servers =~= servers);
    }
}

/// Giving servers instances of a deployment changes what is known of that
/// deployment, and nothing else.
pub proof fn instances_leave_the_rest(
    cluster: ClusterView,
    deployment: DeploymentInfoView,
    servers: Seq<ServerInfoView>,
    id: Id,
)
    ensures
        ({
            let after = cluster.with_instance(deployment, servers);
            &&& id != deployment.id ==> after.instances.contains_key(id)
                == cluster.instances.contains_key(id)
            &&& id != deployment.id && cluster.instances.contains_key(id) ==> after.instances[id]
                == cluster.instances[id]
            &&& after.group == cluster.group
            &&& after.servers == cluster.servers
            &&& after.server_stats == cluster.server_stats
        }),
{
}

/// A placement records the deployment, and one instance of it: on the target, and
/// after the instances that it has. It touches neither the members of the group,
/// nor the load, nor the other group.
pub proof fn placement_records_deployment_and_instance(
    state: SchedulerRuntimeView,
    deployment: DeploymentInfoView,
    target: ServerInfoView,
)
    ensures
        ({
            let after = state.with_placement(deployment, target);
            let known = if state.cluster.instances.contains_key(deployment.id) {
                state.cluster.instances[deployment.id].servers
            } else {
                Seq::empty()
            };
            &&& after.deployments.contains_key(deployment.id)
            &&& after.deployments[deployment.id] == deployment
            &&& after.cluster.instances.contains_key(deployment.id)
            &&& after.cluster.instances[deployment.id].servers == known.push(target)
            &&& after.cluster.group == state.cluster.group
            &&& after.cluster.servers == state.cluster.servers
            &&& after.cluster.server_stats == state.cluster.server_stats
            &&& after.other == state.other
        }),
{
    let after = state.with_placement(deployment, target);
    let known = if state.cluster.instances.contains_key(deployment.id) {
        state.cluster.instances[deployment.id].servers
    } else {
        Seq::empty()
    };
    assert(after.cluster.instances[deployment.id].servers =~= known.push(target));
}

/// A deployment that is placed for the first time is known as it was asked for;
/// one that is placed again stays as it was first known.
pub proof fn placement_keeps_what_was_first_known(
    state: SchedulerRuntimeView,
    deployment: DeploymentInfoView,
    target: ServerInfoView,
)
    ensures
        ({
            let placed = state.with_placement(deployment, target).cluster.instances[deployment.id];
            if state.cluster.instances.contains_key(deployment.id) {
                placed.deployment == state.cluster.instances[deployment.id].deployment
            } else {
                placed.deployment == deployment
            }
        }),
{
}

/// What the other group tells replaces what was known of it, and nothing else.
pub proof fn notification_replaces_the_other_group(state: SchedulerRuntimeView, other: ClusterView)
    ensures
        state.with_other(other).other == other,
        state.with_other(other).cluster == state.cluster,
        state.with_other(other).deployments == state.deployments,
{
}

/// Without its load a cluster is what it was, and no load is known.
pub proof fn only_the_load_is_left_out(cluster: ClusterView, id: Id)
    ensures
        cluster.without_stats().group == cluster.group,
        cluster.without_stats().servers == cluster.servers,
        cluster.without_stats().instances == cluster.instances,
        !cluster.without_stats().server_stats.contains_key(id),
{
}

/// The servers of a deployment are named one by one, each by its id, in its place.
pub proof fn every_server_of_a_deployment_is_named(cluster: ClusterView, id: Id, k: int)
    requires
        0 <= k < cluster.instances[id].servers.len(),
    ensures
        cluster.instance_server_ids(id).len() == cluster.instances[id].servers.len(),
        cluster.instance_server_ids(id)[k] == cluster.instances[id].servers[k].id,
{
}

/// In a well-formed state a deployment on record stands under its own id, and so
/// do its instances, of which there is one at least.
pub proof fn well_formed_state_has_an_instance_of_each_deployment(
    state: SchedulerRuntimeView,
    id: Id,
)
    requires
        state.well_formed(),
        state.deployments.contains_key(id),
    ensures
        state.deployments[id].id == id,
        state.cluster.instances.contains_key(id),
        state.cluster.instances[id].deployment.id == id,
        state.cluster.instances[id].servers.len() > 0,
{
}

/// In a well-formed state both clusters keep instances under the id of the
/// deployment, and the load under the id of the server.
pub proof fn well_formed_state_keeps_things_under_their_ids(state: SchedulerRuntimeView, id: Id)
    requires
        state.well_formed(),
    ensures
        state.cluster.well_formed(),
        state.other.well_formed(),
        state.cluster.instances.contains_key(id) ==> state.cluster.instances[id].deployment.id
            == id,
        state.other.instances.contains_key(id) ==> state.other.instances[id].deployment.id == id,
        state.cluster.server_stats.contains_key(id) ==> state.cluster.server_stats[id].server.id
            == id,
        state.other.server_stats.contains_key(id) ==> state.other.server_stats[id].server.id == id,
{
}

/// In a well-formed cluster instances are kept under the id of the deployment,
/// and the load under the id of the server.
pub proof fn well_formed_cluster_keeps_things_under_their_ids(cluster: ClusterView, id: Id)
    requires
        cluster.well_formed(),
    ensures
        cluster.instances_keyed(),
        cluster.instances.contains_key(id) ==> cluster.instances[id].deployment.id == id,
        cluster.server_stats.contains_key(id) ==> cluster.server_stats[id].server.id == id,
{
}

} // verus!
