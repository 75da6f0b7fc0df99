//! What a scheduler knows of one group: its servers, the deployments that run
//! on them, and their load.
use std::collections::hash_map::Entry;

use vstd::prelude::*;
use vstd::std_specs::convert::{FromSpecImpl, TryFromSpecImpl};

use crate::error::{Error, ErrorView};
use crate::id::Id;
use crate::info;
use crate::info::{
    clone_servers, servers_from_messages, servers_into_messages, AppInstancesInfo,
    AppInstancesInfoView, DeploymentInfo, DeploymentInfoView, GroupInfo, GroupInfoView, ServerInfo,
    ServerInfoView,
};
use crate::proto::{
    AppInstances, AppInstancesView, ClusterState, ClusterStateView, Group, Nomination,
};
use crate::scheduler::stats::{ServerStats, ServerStatsView, StatsMap};
use crate::utils::IdMap;
use crate::views;

verus! {

broadcast use vstd::std_specs::hash::group_hash_axioms;

/// The instances of deployments, by the id of the deployment.
pub type AppInstanceMap = IdMap<AppInstancesInfo>;

/// One group of servers.
#[derive(Debug)]
pub struct Cluster {
    pub group: GroupInfo,
    pub servers: Vec<ServerInfo>,
    pub instances: AppInstanceMap,
    pub server_stats: StatsMap,
}

/// The view of a [`Cluster`].
#[verifier::ext_equal]
pub struct ClusterView {
    pub group: GroupInfoView,
    pub servers: Seq<ServerInfoView>,
    pub instances: Map<Id, AppInstancesInfoView>,
    pub server_stats: Map<Id, ServerStatsView>,
}

impl View for Cluster {
    type V = ClusterView;

    open spec fn view(&self) -> ClusterView {
        ClusterView {
            group: self.group@,
            servers: views::seq_view(self.servers@),
            instances: self.instances@,
            server_stats: self.server_stats@,
        }
    }
}

impl ClusterView {
    /// The cluster that a group starts as: its scheduler is its only server,
    /// nothing is deployed, and no load is known.
    pub open spec fn of_group(group: GroupInfoView) -> ClusterView {
        ClusterView {
            group,
            servers: seq![group.scheduler_info],
            instances: Map::empty(),
            server_stats: Map::empty(),
        }
    }

    /// Whether every deployment stands under its own id.
    pub open spec fn instances_keyed(self) -> bool {
        forall|id: Id| #[trigger]
            self.instances.contains_key(id) ==> self.instances[id].deployment.id == id
    }

    /// Whether every deployment stands under its own id, and the load of every
    /// server under that of the server.
    pub open spec fn well_formed(self) -> bool {
        &&& self.instances_keyed()
        &&& forall|id: Id| #[trigger]
            self.server_stats.contains_key(id) ==> self.server_stats[id].server.id == id
    }

    /// The cluster with one server more, after the others.
    pub open spec fn with_server(self, server: ServerInfoView) -> ClusterView {
        ClusterView { servers: self.servers.push(server), ..self }
    }

    /// The cluster after servers were given an instance of a deployment: they
    /// come after those that have one already. What is known of a deployment
    /// stays as it first was.
    pub open spec fn with_instance(
        self,
        deployment: DeploymentInfoView,
        servers: Seq<ServerInfoView>,
    ) -> ClusterView {
        let instances = if self.instances.contains_key(deployment.id) {
            let known = self.instances[deployment.id];
            AppInstancesInfoView {
                deployment: known.deployment,
                servers: known.servers + servers,
            }
        } else {
            AppInstancesInfoView { deployment, servers }
        };
        ClusterView { instances: self.instances.insert(deployment.id, instances), ..self }
    }

    /// The cluster after a server reported its load: the windows come after
    /// those that it reported before. What is known of a server stays as it was
    /// with its first report.
    pub open spec fn with_stats(self, stats: ServerStatsView) -> ClusterView {
        let all = if self.server_stats.contains_key(stats.server.id) {
            let known = self.server_stats[stats.server.id];
            ServerStatsView { server: known.server, stats: known.stats + stats.stats }
        } else {
            stats
        };
        ClusterView { server_stats: self.server_stats.insert(stats.server.id, all), ..self }
    }

    /// The cluster without what is known of the load.
    pub open spec fn without_stats(self) -> ClusterView {
        ClusterView { server_stats: Map::empty(), ..self }
    }

    /// The ids of the servers that run a deployment, in the order in which they
    /// were given their instances.
    pub open spec fn instance_server_ids(self, deployment_id: Id) -> Seq<Id> {
        self.instances[deployment_id].servers.map_values(|server: ServerInfoView| server.id)
    }

    /// Whether a message describes this cluster. It lists the instances in some
    /// order; the load is left out.
    pub open spec fn encoded_as(self, state: ClusterStateView) -> bool {
        &&& state.group == Some(self.group.encode())
        &&& state.servers == info::encode_servers(self.servers)
        &&& exists|order: Seq<Id>| #[trigger]
            lists_instances(order, self.instances, state.instances)
    }

    /// The cluster that a message describes: it must hold a group, and all that
    /// it lists must be readable. The first thing that is not is the error, the
    /// group before the servers, these before the instances.
    pub open spec fn decode(state: ClusterStateView) -> Result<ClusterView, ErrorView> {
        match state.group {
            None => Err(ErrorView::Text("Group cannot be empty"@)),
            Some(group) => match GroupInfoView::decode(group) {
                Err(error) => Err(error),
                Ok(group) => match ServerInfoView::decode_all(state.servers) {
                    Err(error) => Err(error),
                    Ok(servers) => match decode_instances(state.instances) {
                        Err(error) => Err(error),
                        Ok(instances) => Ok(
                            ClusterView { group, servers, instances, server_stats: Map::empty() },
                        ),
                    },
                },
            },
        }
    }
}

/// Whether messages describe the instances of a map, each once, in the order of
/// the ids given.
pub open spec fn lists_instances(
    order: Seq<Id>,
    instances: Map<Id, AppInstancesInfoView>,
    messages: Seq<AppInstancesView>,
) -> bool {
    &&& order.no_duplicates()
    &&& order.to_set() == instances.dom()
    &&& messages == order.map_values(|id: Id| instances[id].encode())
}

/// The instances that a list of messages describes, by the id of the deployment,
/// or the error of the first message that describes none. Of two messages on one
/// deployment the later holds.
pub open spec fn decode_instances(messages: Seq<AppInstancesView>) -> Result<
    Map<Id, AppInstancesInfoView>,
    ErrorView,
>
    decreases messages.len(),
{
    if messages.len() == 0 {
        Ok(Map::empty())
    } else {
        match decode_instances(messages.drop_last()) {
            Err(error) => Err(error),
            Ok(instances) => match AppInstancesInfoView::decode(messages.last()) {
                Err(error) => Err(error),
                Ok(last) => Ok(instances.insert(last.deployment.id, last)),
            },
        }
    }
}

/// Where a prefix of a list of messages has an error, so has the list.
proof fn decode_instances_keeps_error(messages: Seq<AppInstancesView>, count: int)
    requires
        0 <= count <= messages.len(),
        decode_instances(messages.take(count)) is Err,
    ensures
        decode_instances(messages) == decode_instances(messages.take(count)),
    decreases messages.len(),
{
    if count == messages.len() {
        assert(messages.take(count) == messages);
    } else {
        assert(messages.drop_last().take(count) == messages.take(count));
        decode_instances_keeps_error(messages.drop_last(), count);
    }
}

/// Instances read from messages stand under the ids of their deployments.
proof fn decoded_instances_are_keyed(messages: Seq<AppInstancesView>)
    ensures
        decode_instances(messages) is Ok ==> forall|id: Id| #[trigger]
            decode_instances(messages)->Ok_0.contains_key(id)
                ==> decode_instances(messages)->Ok_0[id].deployment.id == id,
    decreases messages.len(),
{
    if messages.len() > 0 {
        decoded_instances_are_keyed(messages.drop_last());
    }
}

/// A cluster that was read from a message is well formed.
pub proof fn decoded_cluster_is_well_formed(state: ClusterStateView)
    requires
        ClusterView::decode(state) is Ok,
    ensures
        ClusterView::decode(state)->Ok_0.well_formed(),
{
    decoded_instances_are_keyed(state.instances);
}

/// Describes each entry of a map of instances in a message.
fn instances_into_messages(instances: &AppInstanceMap) -> (messages: Vec<AppInstances>)
    ensures
        exists|order: Seq<Id>| #[trigger]
            lists_instances(order, instances@, views::seq_view(messages@)),
{
    let mut messages: Vec<AppInstances> = Vec::new();
    let entries = instances.0.iter();
    let ghost pairs = vstd::std_specs::iter::IteratorSpec::remaining(&entries);
    let ghost mut order: Seq<Id> = Seq::empty();
    for entry in it: entries
        invariant
            it.seq() == pairs,
            order.len() == it.index(),
            messages@.len() == it.index(),
            forall|k: int| 0 <= k < it.index() ==> #[trigger] order[k] == *pairs[k].0,
            forall|k: int|
                0 <= k < it.index() ==> (#[trigger] messages@[k])@ == pairs[k].1@.encode(),
    {
        messages.push(AppInstances::from(entry.1.clone()));
        proof {
            order = order.push(*entry.0);
        }
    }
    proof {
        let map = instances.0@;
        assert(order.len() == pairs.len());
        assert forall|k: int| 0 <= k < order.len() implies map.contains_key(#[trigger] order[k])
            && map[order[k]] == *pairs[k].1 by {
            assert(map.contains_key(*pairs[k].0));
        }
        assert forall|a: int, b: int| 0 <= a < order.len() && 0 <= b < order.len() && a != b implies
            order[a] != order[b] by {
            assert(pairs[a] != pairs[b]);
        }
        assert forall|id: Id| map.contains_key(id) implies order.contains(id) by {
            assert(pairs.contains((&id, &map[id])));
            let k = choose|k: int| 0 <= k < pairs.len() && pairs[k] == (&id, &map[id]);
            assert(order[k] == id);
        }
        assert(order.to_set() =~= instances@.dom());
        assert forall|k: int| 0 <= k < order.len() implies (#[trigger] messages@[k])@
            == instances@[order[k]].encode() by {
            assert(instances@[order[k]] == map[order[k]]@);
        }
        assert(views::seq_view(messages@) =~= order.map_values(
            |id: Id| instances@[id].encode(),
        ));
        assert(lists_instances(order, instances@, views::seq_view(messages@)));
    }
    messages
}

/// Reads the instances that a list of messages describes.
fn instances_from_messages(messages: Vec<AppInstances>) -> (instances: Result<
    AppInstanceMap,
    Error,
>)
    ensures
        views::result_view(instances) == decode_instances(views::seq_view(messages@)),
{
    let mut instances: AppInstanceMap = IdMap::new();
    let ghost all = views::seq_view(messages@);
    assert(all.take(0) == Seq::<AppInstancesView>::empty());
    assert(instances@ == Map::<Id, AppInstancesInfoView>::empty());
    for message in it: messages
        invariant
            all == views::seq_view(messages@),
            it.seq() == messages@,
            decode_instances(all.take(it.index())) == Ok::<
                Map<Id, AppInstancesInfoView>,
                ErrorView,
            >(instances@),
    {
        assert(all.take(it.index() + 1).drop_last() == all.take(it.index()));
        match AppInstancesInfo::try_from(message) {
            Ok(read) => {
                instances.insert(read.deployment.id, read);
            },
            Err(error) => {
                proof {
                    decode_instances_keeps_error(all, it.index() + 1);
                }
                return Err(error);
            },
        }
    }
    assert(all.take(messages@.len() as int) == all);
    Ok(instances)
}

impl Clone for Cluster {
    fn clone(&self) -> (copy: Cluster)
        ensures
            copy@ == self@,
    {
        let copy = Cluster {
            group: self.group.clone(),
            servers: clone_servers(&self.servers),
            instances: self.instances.clone(),
            server_stats: self.server_stats.clone(),
        };
        assert(copy@.instances =~= self@.instances);
        assert(copy@.server_stats =~= self@.server_stats);
        copy
    }
}

impl From<Cluster> for ClusterState {
    fn from(cluster: Cluster) -> (state: ClusterState)
        ensures
            cluster@.encoded_as(state@),
    {
        let instances = instances_into_messages(&cluster.instances);
        let ghost order = choose|order: Seq<Id>| #[trigger]
            lists_instances(order, cluster@.instances, views::seq_view(instances@));
        let state = ClusterState {
            group: Some(Group::from(cluster.group)),
            servers: servers_into_messages(&cluster.servers),
            instances,
        };
        assert(state@.group == Some(cluster@.group.encode()));
        assert(state@.servers == info::encode_servers(cluster@.servers));
        assert(lists_instances(order, cluster@.instances, state@.instances));
        state
    }
}

/// The order of the instances is open: see the contract of `from`.
impl FromSpecImpl<Cluster> for ClusterState {
    open spec fn obeys_from_spec() -> bool {
        false
    }

    open spec fn from_spec(cluster: Cluster) -> ClusterState {
        arbitrary()
    }
}

impl TryFrom<ClusterState> for Cluster {
    type Error = Error;

    fn try_from(state: ClusterState) -> (cluster: Result<Cluster, Error>)
        ensures
            views::result_view(cluster) == ClusterView::decode(state@),
            cluster is Ok ==> cluster->Ok_0@.well_formed(),
    {
        let group = match state.group {
            None => return Err(Error::Text("Group cannot be empty".to_owned())),
            Some(group) => group,
        };
        let group = match GroupInfo::try_from(group) {
            Err(error) => return Err(error),
            Ok(group) => group,
        };
        let servers = match servers_from_messages(state.servers) {
            Err(error) => return Err(error),
            Ok(servers) => servers,
        };
        let instances = match instances_from_messages(state.instances) {
            Err(error) => return Err(error),
            Ok(instances) => instances,
        };
        let cluster = Cluster { group, servers, instances, server_stats: IdMap::new() };
        proof {
            assert(cluster@.server_stats =~= Map::empty());
            assert(ClusterView::decode(state@) == Ok::<ClusterView, ErrorView>(cluster@));
            decoded_cluster_is_well_formed(state@);
        }
        Ok(cluster)
    }
}

/// See the contract of `try_from`.
impl TryFromSpecImpl<ClusterState> for Cluster {
    open spec fn obeys_try_from_spec() -> bool {
        false
    }

    open spec fn try_from_spec(state: ClusterState) -> Result<Cluster, Error> {
        arbitrary()
    }
}

impl Cluster {
    /// The first group, with the scheduler given as its only server.
    pub fn new(scheduler: &ServerInfo) -> (cluster: Cluster)
        ensures
            cluster@ == ClusterView::of_group(
                GroupInfoView { number: 0, scheduler_info: scheduler@ },
            ),
            cluster@.well_formed(),
    {
        Cluster::with_group(&GroupInfo::new(scheduler))
    }

    /// The cluster that the group given starts as.
    pub fn with_group(group: &GroupInfo) -> (cluster: Cluster)
        ensures
            cluster@ == ClusterView::of_group(group@),
            cluster@.well_formed(),
    {
        let cluster = Cluster {
            group: group.clone(),
            servers: vec![group.scheduler_info.clone()],
            instances: IdMap::new(),
            server_stats: IdMap::new(),
        };
        proof {
            assert(cluster@.servers =~= seq![group@.scheduler_info]);
            assert(cluster@.instances =~= Map::empty());
            assert(cluster@.server_stats =~= Map::empty());
        }
        cluster
    }

    /// The cluster that the group after this one starts as, with the scheduler
    /// given.
    pub fn next_cluster(&self, scheduler_info: &ServerInfo) -> (cluster: Cluster)
        requires
            self@.group.number < u32::MAX,
        ensures
            cluster@ == ClusterView::of_group(
                GroupInfoView {
                    number: (self@.group.number + 1) as u32,
                    scheduler_info: scheduler_info@,
                },
            ),
            cluster@.well_formed(),
    {
        let number: u32 = self.group.number + 1;
        let other_group = GroupInfo::with_number(scheduler_info, number);
        Cluster::with_group(&other_group)
    }

    /// The nomination that hands this cluster over.
    pub fn to_nomination(&self) -> (nomination: Nomination)
        ensures
            nomination@.cluster is Some,
            self@.encoded_as(nomination@.cluster->Some_0),
    {
        Nomination { cluster: Some(ClusterState::from(self.clone())) }
    }

    /// Records that servers were given an instance of a deployment.
    pub fn insert_instance(&mut self, deployment: DeploymentInfo, servers: Vec<ServerInfo>)
        ensures
            final(self)@ == old(self)@.with_instance(deployment@, views::seq_view(servers@)),
            final(self)@.instances.contains_key(deployment@.id),
            final(self)@.instances[deployment@.id].servers == (if old(
                self,
            )@.instances.contains_key(deployment@.id) {
                old(self)@.instances[deployment@.id].servers
            } else {
                Seq::empty()
            }) + views::seq_view(servers@),
            old(self)@.well_formed() ==> final(self)@.well_formed(),
    {
        let id: Id = deployment.id;
        match self.instances.0.entry(id) {
            Entry::Occupied(mut entry) => {
                let mut added = servers;
                let known = entry.get_mut();
                known.servers.append(&mut added);
            },
            Entry::Vacant(entry) => {
                let _ = entry.insert(AppInstancesInfo { deployment, servers });
            },
        }
        proof {
            let expected = old(self)@.with_instance(deployment@, views::seq_view(servers@));
            let known = old(self).instances.0@;
            assert(known.contains_key(id) ==> views::seq_view(self.instances.0@[id].servers@)
                =~= views::seq_view(known[id].servers@) + views::seq_view(servers@));
            assert(self.instances.0@[id]@ == expected.instances[id]);
            assert(self.instances.0@ =~= known.insert(id, self.instances.0@[id]));
            assert(self@.instances =~= expected.instances);
        }
    }

    /// Records a report of a server's load.
    pub fn insert_stats(&mut self, stats: ServerStats)
        ensures
            final(self)@ == old(self)@.with_stats(stats@),
            final(self)@.server_stats.contains_key(stats@.server.id),
            final(self)@.server_stats[stats@.server.id].stats == (if old(
                self,
            )@.server_stats.contains_key(stats@.server.id) {
                old(self)@.server_stats[stats@.server.id].stats
            } else {
                Seq::empty()
            }) + stats@.stats,
            old(self)@.well_formed() ==> final(self)@.well_formed(),
    {
        let id: Id = stats.server.id;
        match self.server_stats.0.entry(id) {
            Entry::Occupied(mut entry) => {
                let known = entry.get_mut();
                known.append(stats.stats);
            },
            Entry::Vacant(entry) => {
                let _ = entry.insert(stats);
            },
        }
        proof {
            let expected = old(self)@.with_stats(stats@);
            assert(self.server_stats.0@[id]@ == expected.server_stats[id]);
            assert(self.server_stats.0@ =~= old(self).server_stats.0@.insert(
                id,
                self.server_stats.0@[id],
            ));
            assert(self@.server_stats =~= expected.server_stats);
        }
    }

    /// The ids of the servers that run a deployment, in the order in which they
    /// were given their instances. The deployment must be known.
    pub fn get_instance_server_ids(&self, deployment_id: &Id) -> (ids: Result<Vec<Id>, Error>)
        ensures
            match ids {
                Ok(ids) => self@.instances.contains_key(*deployment_id) && ids@
                    == self@.instance_server_ids(*deployment_id),
                Err(error) => !self@.instances.contains_key(*deployment_id) && error@
                    == ErrorView::Text("Deployment not found"@),
            },
    {
        match self.instances.get(deployment_id) {
            None => Err(Error::Text("Deployment not found".to_owned())),
            Some(instances) => {
                let mut ids: Vec<Id> = Vec::new();
                for i in 0..instances.servers.len()
                    invariant
                        ids@.len() == i,
                        forall|k: int|
                            0 <= k < i ==> #[trigger] ids@[k] == instances.servers@[k].id,
                {
                    ids.push(instances.servers[i].id);
                }
                assert(ids@ =~= self@.instance_server_ids(*deployment_id));
                Ok(ids)
            },
        }
    }

    /// The address of the scheduler of the group.
    pub fn get_addr(&self) -> (addr: &str)
        ensures
            addr@ == self@.group.scheduler_info.addr,
    {
        self.group.scheduler_info.addr.as_str()
    }
}

} // verus!
