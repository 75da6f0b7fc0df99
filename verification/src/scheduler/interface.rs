//! The strategy that picks the server to use.
use vstd::prelude::*;

use crate::id::Id;
use crate::info::{ServerInfo, ServerInfoView};
use crate::scheduler::stats::{ServerStatsView, StatsMap};
use crate::views;

verus! {

/// Picks a server out of those whose load is known. Implementations are the
/// users' own: nothing is assumed of which server they pick, if any.
pub trait DeploymentScheduler: Clone {
    /// The server to use, or `None` where the strategy settles on none.
    fn schedule(&self, stats: &StatsMap) -> (target: Option<ServerInfo>);
}

/// Whether a strategy may settle on the target given when it is asked about the
/// load given.
pub open spec fn may_schedule<S: DeploymentScheduler>(
    scheduler: &S,
    stats: Map<Id, ServerStatsView>,
    target: Option<ServerInfoView>,
) -> bool {
    exists|asked: StatsMap, answer: Option<ServerInfo>|
        #![trigger call_ensures(S::schedule, (scheduler, &asked), answer)]
        asked@ == stats && call_ensures(S::schedule, (scheduler, &asked), answer)
            && views::opt_view(answer) == target
}

/// The server on which a deployment is placed: the one that the strategy settled
/// on, else the first of the group.
pub open spec fn target_of(
    scheduled: Option<ServerInfoView>,
    servers: Seq<ServerInfoView>,
) -> ServerInfoView {
    match scheduled {
        Some(server) => server,
        None => servers[0],
    }
}

/// The server on which a deployment is placed, after the strategy was asked.
pub fn target_server(scheduled: Option<ServerInfo>, servers: &Vec<ServerInfo>) -> (target:
    ServerInfo)
    requires
        servers@.len() > 0,
    ensures
        target@ == target_of(views::opt_view(scheduled), views::seq_view(servers@)),
        scheduled matches Some(server) ==> target == server,
        scheduled is None ==> target == servers@[0],
{
    match scheduled {
        Some(server) => server,
        None => servers[0].clone(),
    }
}

} // verus!
