//! The state of a scheduler.
use vstd::prelude::*;

use crate::id::Id;
use crate::info::{DeploymentInfo, DeploymentInfoView, GroupInfoView, ServerInfo, ServerInfoView};
use crate::scheduler::cluster::{Cluster, ClusterView};
use crate::scheduler::interface::DeploymentScheduler;
use crate::scheduler::stats::ServerStatsView;
use crate::utils::IdMap;

verus! {

broadcast use vstd::std_specs::hash::group_hash_axioms;

/// What a scheduler holds: its own group, the other group as that last told of
/// itself, the strategy that picks servers, and the deployments that it has
/// placed.
#[derive(Debug)]
pub struct SchedulerRuntime<S> {
    pub cluster: Cluster,
    pub other: Cluster,
    pub scheduler: S,
    pub deployments: IdMap<DeploymentInfo>,
}

/// The view of a [`SchedulerRuntime`], without the strategy.
#[verifier::ext_equal]
pub struct SchedulerRuntimeView {
    pub cluster: ClusterView,
    pub other: ClusterView,
    pub deployments: Map<Id, DeploymentInfoView>,
}

impl<S> View for SchedulerRuntime<S> {
    type V = SchedulerRuntimeView;

    open spec fn view(&self) -> SchedulerRuntimeView {
        SchedulerRuntimeView {
            cluster: self.cluster@,
            other: self.other@,
            deployments: self.deployments@,
        }
    }
}

impl SchedulerRuntimeView {
    /// The state that a scheduler starts in.
    pub open spec fn of_clusters(cluster: ClusterView, other: ClusterView) -> SchedulerRuntimeView {
        SchedulerRuntimeView { cluster, other, deployments: Map::empty() }
    }

    /// Whether both clusters are well formed, every deployment stands under its
    /// own id, and every deployment has an instance on record.
    pub open spec fn well_formed(self) -> bool {
        &&& self.cluster.well_formed()
        &&& self.other.well_formed()
        &&& forall|id: Id| #[trigger]
            self.deployments.contains_key(id) ==> self.deployments[id].id == id
                && self.cluster.instances.contains_key(id)
                && self.cluster.instances[id].servers.len() > 0
    }

    /// The state after a server joined.
    pub open spec fn with_server(self, server: ServerInfoView) -> SchedulerRuntimeView {
        SchedulerRuntimeView { cluster: self.cluster.with_server(server), ..self }
    }

    /// The state after a server reported its load.
    pub open spec fn with_stats(self, stats: ServerStatsView) -> SchedulerRuntimeView {
        SchedulerRuntimeView { cluster: self.cluster.with_stats(stats), ..self }
    }

    /// The state after the other group told what it has become.
    pub open spec fn with_other(self, other: ClusterView) -> SchedulerRuntimeView {
        SchedulerRuntimeView { other, ..self }
    }

    /// The state after a deployment was placed on a server: the deployment and
    /// its instance go on record together.
    pub open spec fn with_placement(
        self,
        deployment: DeploymentInfoView,
        target: ServerInfoView,
    ) -> SchedulerRuntimeView {
        SchedulerRuntimeView {
            cluster: self.cluster.with_instance(deployment, seq![target]),
            deployments: self.deployments.insert(deployment.id, deployment),
            ..self
        }
    }

    /// A well-formed state stays so when a deployment is placed.
    pub proof fn placement_keeps_well_formed(
        self,
        deployment: DeploymentInfoView,
        target: ServerInfoView,
    )
        requires
            self.well_formed(),
        ensures
            self.with_placement(deployment, target).well_formed(),
    {
        let placed = self.with_placement(deployment, target);
        assert forall|id: Id| #[trigger] placed.deployments.contains_key(id) implies
            placed.deployments[id].id == id && placed.cluster.instances.contains_key(id)
                && placed.cluster.instances[id].servers.len() > 0 by {
            if id != deployment.id {
                assert(self.deployments.contains_key(id));
            }
        }
        assert forall|id: Id| #[trigger] placed.cluster.instances.contains_key(id) implies
            placed.cluster.instances[id].deployment.id == id by {
            if id != deployment.id {
                assert(self.cluster.instances.contains_key(id));
            }
        }
    }
}

impl<S: DeploymentScheduler> SchedulerRuntime<S> {
    /// The state of a scheduler that knows of itself and of the scheduler of the
    /// other group.
    pub fn new(this_server: &ServerInfo, other_server: &ServerInfo, scheduler: S) -> (runtime:
        SchedulerRuntime<S>)
        ensures
            runtime@ == SchedulerRuntimeView::of_clusters(
                ClusterView::of_group(
                    GroupInfoView { number: 0, scheduler_info: this_server@ },
                ),
                ClusterView::of_group(
                    GroupInfoView { number: 0, scheduler_info: other_server@ },
                ),
            ),
            runtime.scheduler == scheduler,
            runtime@.well_formed(),
    {
        let cluster = Cluster::new(this_server);
        let other = Cluster::new(other_server);
        let runtime = SchedulerRuntime { cluster, other, scheduler, deployments: IdMap::new() };
        assert(runtime@.deployments =~= Map::empty());
        runtime
    }

    /// A copy of the state, as it is now.
    pub fn clone_inner(runtime: &SchedulerRuntime<S>) -> (copy: SchedulerRuntime<S>)
        ensures
            copy@ == runtime@,
            vstd::pervasive::strictly_cloned(runtime.scheduler, copy.scheduler),
    {
        runtime.clone()
    }
}

impl<S: Clone> Clone for SchedulerRuntime<S> {
    fn clone(&self) -> (copy: SchedulerRuntime<S>)
        ensures
            copy@ == self@,
            vstd::pervasive::strictly_cloned(self.scheduler, copy.scheduler),
    {
        let copy = SchedulerRuntime {
            cluster: self.cluster.clone(),
            other: self.other.clone(),
            scheduler: self.scheduler.clone(),
            deployments: self.deployments.clone(),
        };
        assert(copy@.deployments =~= self@.deployments);
        copy
    }
}

} // verus!
