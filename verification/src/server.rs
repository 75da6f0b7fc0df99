//! A server's daemon: the states that it goes through.
pub mod daemon;

use vstd::prelude::*;

use crate::info::{GroupInfo, GroupInfoView, ServerInfo, ServerInfoView};
use crate::proto::ServerState;
use crate::scheduler::authoritative::AuthoritativeScheduler;
use crate::scheduler::interface::DeploymentScheduler;
use crate::scheduler::runtime::SchedulerRuntimeView;
use crate::views;

verus! {

/// The address of a server that was given none.
pub const DEFAULT_HOST: &'static str = "http://127.0.0.1:50051";

/// The state that a server's daemon is in.
#[derive(Debug)]
pub enum DaemonState<S> {
    /// Nothing is known yet.
    Starting,
    /// The server is known, and belongs to no group.
    Uninitialized(ServerInfo),
    /// The server has asked to join a group.
    Joining(ServerInfo),
    /// The server belongs to a group.
    Running(ServerInfo, GroupInfo),
    /// The server schedules for a group.
    Authoritative(ServerInfo, AuthoritativeScheduler<S>),
    /// The daemon has failed.
    Failed,
}

/// The view of a [`DaemonState`].
pub enum DaemonStateView {
    Starting,
    Uninitialized(ServerInfoView),
    Joining(ServerInfoView),
    Running(ServerInfoView, GroupInfoView),
    Authoritative(ServerInfoView, SchedulerRuntimeView),
    Failed,
}

impl<S> View for DaemonState<S> {
    type V = DaemonStateView;

    open spec fn view(&self) -> DaemonStateView {
        match *self {
            DaemonState::Starting => DaemonStateView::Starting,
            DaemonState::Uninitialized(server) => DaemonStateView::Uninitialized(server@),
            DaemonState::Joining(server) => DaemonStateView::Joining(server@),
            DaemonState::Running(server, group) => DaemonStateView::Running(server@, group@),
            DaemonState::Authoritative(server, scheduler) => DaemonStateView::Authoritative(
                server@,
                scheduler@,
            ),
            DaemonState::Failed => DaemonStateView::Failed,
        }
    }
}

impl DaemonStateView {
    /// The server that the daemon runs on, once it is known.
    pub open spec fn server(self) -> Option<ServerInfoView> {
        match self {
            DaemonStateView::Starting | DaemonStateView::Failed => None,
            DaemonStateView::Uninitialized(server) => Some(server),
            DaemonStateView::Joining(server) => Some(server),
            DaemonStateView::Running(server, _) => Some(server),
            DaemonStateView::Authoritative(server, _) => Some(server),
        }
    }

    /// The group that the server belongs to, if it belongs to one.
    pub open spec fn group(self) -> Option<GroupInfoView> {
        match self {
            DaemonStateView::Running(_, group) => Some(group),
            DaemonStateView::Authoritative(_, scheduler) => Some(scheduler.cluster.group),
            _ => None,
        }
    }

    /// The name under which the state is told to peers.
    pub open spec fn server_state(self) -> ServerState {
        match self {
            DaemonStateView::Starting => ServerState::Starting,
            DaemonStateView::Uninitialized(_) => ServerState::Uninitialized,
            DaemonStateView::Joining(_) => ServerState::Joining,
            DaemonStateView::Running(_, _) => ServerState::Running,
            DaemonStateView::Authoritative(_, _) => ServerState::Authoritative,
            DaemonStateView::Failed => ServerState::Failed,
        }
    }
}

impl<S: DeploymentScheduler> DaemonState<S> {
    /// The server that the daemon runs on, once it is known.
    pub fn get_server(&self) -> (server: Option<&ServerInfo>)
        ensures
            views::opt_view(server) == self@.server(),
    {
        match self {
            DaemonState::Starting | DaemonState::Failed => None,
            DaemonState::Uninitialized(server) => Some(server),
            DaemonState::Joining(server) => Some(server),
            DaemonState::Running(server, _) => Some(server),
            DaemonState::Authoritative(server, _) => Some(server),
        }
    }

    /// The group that the server belongs to, if it belongs to one.
    pub fn get_group(&self) -> (group: Option<&GroupInfo>)
        ensures
            views::opt_view(group) == self@.group(),
            *self matches DaemonState::Running(_, joined) ==> group == Some(&joined),
            *self matches DaemonState::Authoritative(_, scheduler) ==> group == Some(
                &scheduler.runtime.cluster.group,
            ),
            !(*self is Running || *self is Authoritative) ==> group is None,
    {
        match self {
            DaemonState::Running(_, group) => Some(group),
            DaemonState::Authoritative(_, scheduler) => Some(&scheduler.runtime.cluster.group),
            _ => None,
        }
    }

    /// The name under which the state is told to peers.
    pub fn server_state(&self) -> (state: ServerState)
        ensures
            state == self@.server_state(),
    {
        match self {
            DaemonState::Starting => ServerState::Starting,
            DaemonState::Uninitialized(_) => ServerState::Uninitialized,
            DaemonState::Joining(_) => ServerState::Joining,
            DaemonState::Running(_, _) => ServerState::Running,
            DaemonState::Authoritative(_, _) => ServerState::Authoritative,
            DaemonState::Failed => ServerState::Failed,
        }
    }
}

impl<S: Clone> Clone for DaemonState<S> {
    fn clone(&self) -> (copy: DaemonState<S>)
        ensures
            copy@ == self@,
            *self matches DaemonState::Authoritative(_, from)
                ==> copy matches DaemonState::Authoritative(_, to)
                && vstd::pervasive::strictly_cloned(from.runtime.scheduler, to.runtime.scheduler),
    {
        match self {
            DaemonState::Starting => DaemonState::Starting,
            DaemonState::Uninitialized(server) => DaemonState::Uninitialized(server.clone()),
            DaemonState::Joining(server) => DaemonState::Joining(server.clone()),
            DaemonState::Running(server, group) => DaemonState::Running(
                server.clone(),
                group.clone(),
            ),
            DaemonState::Authoritative(server, scheduler) => DaemonState::Authoritative(
                server.clone(),
                scheduler.clone(),
            ),
            DaemonState::Failed => DaemonState::Failed,
        }
    }
}

} // verus!
