//! The load that servers have reported.
use vstd::prelude::*;

use crate::id::Id;
use crate::info::{ServerInfo, ServerInfoView};
use crate::proto::MonitorWindow;
use crate::utils::IdMap;
use crate::views;

verus! {

broadcast use vstd::std_specs::hash::group_hash_axioms;

/// What a server has reported of its load: the windows, oldest report first.
#[derive(Debug, PartialEq, Eq)]
pub struct ServerStats {
    pub server: ServerInfo,
    pub stats: Vec<MonitorWindow>,
}

/// The view of a [`ServerStats`].
#[verifier::ext_equal]
pub struct ServerStatsView {
    pub server: ServerInfoView,
    pub stats: Seq<Seq<u8>>,
}

impl View for ServerStats {
    type V = ServerStatsView;

    open spec fn view(&self) -> ServerStatsView {
        ServerStatsView { server: self.server@, stats: views::seq_view(self.stats@) }
    }
}

impl ServerStats {
    /// What a server has reported with its first report.
    pub fn from_stats(server: ServerInfo, windows: Vec<MonitorWindow>) -> (stats: ServerStats)
        ensures
            stats@ == (ServerStatsView { server: server@, stats: views::seq_view(windows@) }),
    {
        ServerStats { server, stats: windows }
    }

    /// Adds the windows of a later report.
    pub fn append(&mut self, windows: Vec<MonitorWindow>)
        ensures
            final(self)@ == (ServerStatsView {
                server: old(self)@.server,
                stats: old(self)@.stats + views::seq_view(windows@),
            }),
    {
        let mut added = windows;
        self.stats.append(&mut added);
        assert(views::seq_view(self.stats@) == views::seq_view(old(self).stats@)
            + views::seq_view(windows@));
    }
}

impl Clone for ServerStats {
    fn clone(&self) -> (copy: ServerStats)
        ensures
            copy@ == self@,
    {
        let copy = ServerStats { server: self.server.clone(), stats: self.stats.clone() };
        assert(views::seq_view(copy.stats@) == views::seq_view(self.stats@));
        copy
    }
}

/// The load of servers, by the id of the server.
pub type StatsMap = IdMap<ServerStats>;

impl IdMap<ServerStats> {
    /// The part of the map that the ids given name. An id without an entry
    /// names nothing.
    pub fn clone_by_ids(&self, ids: &Vec<Id>) -> (part: StatsMap)
        ensures
            part@ == self@.restrict(ids@.to_set()),
    {
        let mut part: StatsMap = IdMap::new();
        for i in 0..ids.len()
            invariant
                part@ == self@.restrict(ids@.take(i as int).to_set()),
        {
            let id: Id = ids[i];
            match self.get(&id) {
                Some(stats) => part.insert(id, stats.clone()),
                None => {},
            }
            proof {
                broadcast use vstd::seq_lib::group_seq_properties;

                assert(ids@.take(i + 1) == ids@.take(i as int).push(id));
                assert(part@ =~= self@.restrict(ids@.take(i + 1).to_set()));
            }
        }
        assert(ids@.take(ids@.len() as int) == ids@);
        part
    }
}

} // verus!
