//! The messages that servers and schedulers exchange, as plain values.
use vstd::prelude::*;

use crate::views;

verus! {

/// A server, as it is named to a peer.
#[derive(Debug, PartialEq, Eq)]
pub struct Server {
    pub id: String,
    pub addr: String,
}

/// The view of a [`Server`].
#[verifier::ext_equal]
pub struct ServerView {
    pub id: Seq<char>,
    pub addr: Seq<char>,
}

impl View for Server {
    type V = ServerView;

    open spec fn view(&self) -> ServerView {
        ServerView { id: self.id@, addr: self.addr@ }
    }
}

/// A group of servers: its number, and the server that schedules for it.
#[derive(Debug, PartialEq, Eq)]
pub struct Group {
    pub number: u32,
    pub scheduler: Option<Server>,
}

/// The view of a [`Group`].
#[verifier::ext_equal]
pub struct GroupView {
    pub number: u32,
    pub scheduler: Option<ServerView>,
}

impl View for Group {
    type V = GroupView;

    open spec fn view(&self) -> GroupView {
        GroupView { number: self.number, scheduler: views::opt_view(self.scheduler) }
    }
}

/// A deployed application.
#[derive(Debug, PartialEq, Eq)]
pub struct Deployment {
    pub id: String,
    pub source: String,
}

/// The view of a [`Deployment`].
#[verifier::ext_equal]
pub struct DeploymentView {
    pub id: Seq<char>,
    pub source: Seq<char>,
}

impl View for Deployment {
    type V = DeploymentView;

    open spec fn view(&self) -> DeploymentView {
        DeploymentView { id: self.id@, source: self.source@ }
    }
}

/// A deployment and the servers that run an instance of it.
#[derive(Debug, PartialEq, Eq)]
pub struct AppInstances {
    pub deployment: Option<Deployment>,
    pub servers: Vec<Server>,
}

/// The view of an [`AppInstances`].
#[verifier::ext_equal]
pub struct AppInstancesView {
    pub deployment: Option<DeploymentView>,
    pub servers: Seq<ServerView>,
}

impl View for AppInstances {
    type V = AppInstancesView;

    open spec fn view(&self) -> AppInstancesView {
        AppInstancesView {
            deployment: views::opt_view(self.deployment),
            servers: views::seq_view(self.servers@),
        }
    }
}

/// What one group tells another of itself.
#[derive(Debug, PartialEq, Eq)]
pub struct ClusterState {
    pub group: Option<Group>,
    pub servers: Vec<Server>,
    pub instances: Vec<AppInstances>,
}

/// The view of a [`ClusterState`].
#[verifier::ext_equal]
pub struct ClusterStateView {
    pub group: Option<GroupView>,
    pub servers: Seq<ServerView>,
    pub instances: Seq<AppInstancesView>,
}

impl View for ClusterState {
    type V = ClusterStateView;

    open spec fn view(&self) -> ClusterStateView {
        ClusterStateView {
            group: views::opt_view(self.group),
            servers: views::seq_view(self.servers@),
            instances: views::seq_view(self.instances@),
        }
    }
}

/// The cluster that a nominated scheduler takes over.
#[derive(Debug, PartialEq, Eq)]
pub struct Nomination {
    pub cluster: Option<ClusterState>,
}

/// The view of a [`Nomination`].
#[verifier::ext_equal]
pub struct NominationView {
    pub cluster: Option<ClusterStateView>,
}

impl View for Nomination {
    type V = NominationView;

    open spec fn view(&self) -> NominationView {
        NominationView { cluster: views::opt_view(self.cluster) }
    }
}

/// One window of a server's load, in the encoding in which it was reported. It is
/// stored and handed to the deployment scheduler as it came.
#[derive(Debug, PartialEq, Eq)]
pub struct MonitorWindow {
    pub encoded: Vec<u8>,
}

impl View for MonitorWindow {
    type V = Seq<u8>;

    open spec fn view(&self) -> Seq<u8> {
        self.encoded@
    }
}

impl Clone for MonitorWindow {
    fn clone(&self) -> (copy: MonitorWindow)
        ensures
            copy@ == self@,
    {
        MonitorWindow { encoded: self.encoded.clone() }
    }
}

/// A server asks to join the group.
#[derive(Debug, PartialEq, Eq)]
pub struct JoinRequest {
    pub server: Option<Server>,
}

/// The view of a [`JoinRequest`].
#[verifier::ext_equal]
pub struct JoinRequestView {
    pub server: Option<ServerView>,
}

impl View for JoinRequest {
    type V = JoinRequestView;

    open spec fn view(&self) -> JoinRequestView {
        JoinRequestView { server: views::opt_view(self.server) }
    }
}

/// The answer to a [`JoinRequest`].
#[derive(Debug, PartialEq, Eq)]
pub struct JoinResponse {
    pub success: bool,
    pub group: Option<Group>,
    pub is_scheduler: bool,
    pub our_group: Option<Group>,
    pub nomination: Option<Nomination>,
}

/// The view of a [`JoinResponse`].
#[verifier::ext_equal]
pub struct JoinResponseView {
    pub success: bool,
    pub group: Option<GroupView>,
    pub is_scheduler: bool,
    pub our_group: Option<GroupView>,
    pub nomination: Option<NominationView>,
}

impl View for JoinResponse {
    type V = JoinResponseView;

    open spec fn view(&self) -> JoinResponseView {
        JoinResponseView {
            success: self.success,
            group: views::opt_view(self.group),
            is_scheduler: self.is_scheduler,
            our_group: views::opt_view(self.our_group),
            nomination: views::opt_view(self.nomination),
        }
    }
}

/// A group tells another what it has become.
#[derive(Debug, PartialEq, Eq)]
pub struct NotifyRequest {
    pub cluster: Option<ClusterState>,
}

/// The view of a [`NotifyRequest`].
#[verifier::ext_equal]
pub struct NotifyRequestView {
    pub cluster: Option<ClusterStateView>,
}

impl View for NotifyRequest {
    type V = NotifyRequestView;

    open spec fn view(&self) -> NotifyRequestView {
        NotifyRequestView { cluster: views::opt_view(self.cluster) }
    }
}

/// The answer to a [`NotifyRequest`].
#[derive(Debug, PartialEq, Eq)]
pub struct NotifyResponse {
    pub success: bool,
}

impl View for NotifyResponse {
    type V = NotifyResponse;

    open spec fn view(&self) -> NotifyResponse {
        *self
    }
}

/// A server reports its load.
#[derive(Debug, PartialEq, Eq)]
pub struct ReportRequest {
    pub server: Option<Server>,
    pub windows: Vec<MonitorWindow>,
}

/// The view of a [`ReportRequest`].
#[verifier::ext_equal]
pub struct ReportRequestView {
    pub server: Option<ServerView>,
    pub windows: Seq<Seq<u8>>,
}

impl View for ReportRequest {
    type V = ReportRequestView;

    open spec fn view(&self) -> ReportRequestView {
        ReportRequestView {
            server: views::opt_view(self.server),
            windows: views::seq_view(self.windows@),
        }
    }
}

/// The answer to a [`ReportRequest`].
#[derive(Debug, PartialEq, Eq)]
pub struct ReportResponse {
    pub success: bool,
}

impl View for ReportResponse {
    type V = ReportResponse;

    open spec fn view(&self) -> ReportResponse {
        *self
    }
}

/// A client, or the scheduler of the other group, asks for a deployment. Only an
/// authoritative request is passed on to the other group.
#[derive(Debug, PartialEq, Eq)]
pub struct DeployRequest {
    pub source: String,
    pub authoritative: bool,
}

/// The view of a [`DeployRequest`].
#[verifier::ext_equal]
pub struct DeployRequestView {
    pub source: Seq<char>,
    pub authoritative: bool,
}

impl View for DeployRequest {
    type V = DeployRequestView;

    open spec fn view(&self) -> DeployRequestView {
        DeployRequestView { source: self.source@, authoritative: self.authoritative }
    }
}

/// The answer to a [`DeployRequest`].
#[derive(Debug, PartialEq, Eq)]
pub struct DeployResponse {
    pub success: bool,
    pub deployment: Option<Deployment>,
}

/// The view of a [`DeployResponse`].
#[verifier::ext_equal]
pub struct DeployResponseView {
    pub success: bool,
    pub deployment: Option<DeploymentView>,
}

impl View for DeployResponse {
    type V = DeployResponseView;

    open spec fn view(&self) -> DeployResponseView {
        DeployResponseView {
            success: self.success,
            deployment: views::opt_view(self.deployment),
        }
    }
}

/// A client asks for a server that runs a deployment.
#[derive(Debug, PartialEq, Eq)]
pub struct LookupRequest {
    pub deployment_id: String,
}

/// The view of a [`LookupRequest`].
#[verifier::ext_equal]
pub struct LookupRequestView {
    pub deployment_id: Seq<char>,
}

impl View for LookupRequest {
    type V = LookupRequestView;

    open spec fn view(&self) -> LookupRequestView {
        LookupRequestView { deployment_id: self.deployment_id@ }
    }
}

/// The answer to a [`LookupRequest`].
#[derive(Debug, PartialEq, Eq)]
pub struct LookupResponse {
    pub success: bool,
    pub deployment_id: String,
    pub server: Option<Server>,
}

/// The view of a [`LookupResponse`].
#[verifier::ext_equal]
pub struct LookupResponseView {
    pub success: bool,
    pub deployment_id: Seq<char>,
    pub server: Option<ServerView>,
}

impl View for LookupResponse {
    type V = LookupResponseView;

    open spec fn view(&self) -> LookupResponseView {
        LookupResponseView {
            success: self.success,
            deployment_id: self.deployment_id@,
            server: views::opt_view(self.server),
        }
    }
}

/// A server is asked to become the scheduler of a cluster.
#[derive(Debug, PartialEq, Eq)]
pub struct NominateRequest {
    pub nomination: Option<Nomination>,
}

/// The view of a [`NominateRequest`].
#[verifier::ext_equal]
pub struct NominateRequestView {
    pub nomination: Option<NominationView>,
}

impl View for NominateRequest {
    type V = NominateRequestView;

    open spec fn view(&self) -> NominateRequestView {
        NominateRequestView { nomination: views::opt_view(self.nomination) }
    }
}

/// The answer to a [`NominateRequest`].
#[derive(Debug, PartialEq, Eq)]
pub struct NominateResponse {
    pub success: bool,
}

impl View for NominateResponse {
    type V = NominateResponse;

    open spec fn view(&self) -> NominateResponse {
        *self
    }
}

/// A server is asked to run an instance of a deployment.
#[derive(Debug, PartialEq, Eq)]
pub struct SpawnRequest {
    pub deployment: Option<Deployment>,
}

/// The view of a [`SpawnRequest`].
#[verifier::ext_equal]
pub struct SpawnRequestView {
    pub deployment: Option<DeploymentView>,
}

impl View for SpawnRequest {
    type V = SpawnRequestView;

    open spec fn view(&self) -> SpawnRequestView {
        SpawnRequestView { deployment: views::opt_view(self.deployment) }
    }
}

/// The answer to a [`SpawnRequest`].
#[derive(Debug, PartialEq, Eq)]
pub struct SpawnResponse {
    pub success: bool,
    pub deployment: Option<Deployment>,
    pub server: Option<Server>,
}

/// The view of a [`SpawnResponse`].
#[verifier::ext_equal]
pub struct SpawnResponseView {
    pub success: bool,
    pub deployment: Option<DeploymentView>,
    pub server: Option<ServerView>,
}

impl View for SpawnResponse {
    type V = SpawnResponseView;

    open spec fn view(&self) -> SpawnResponseView {
        SpawnResponseView {
            success: self.success,
            deployment: views::opt_view(self.deployment),
            server: views::opt_view(self.server),
        }
    }
}

/// The state that a server is in, as it is named to a peer.
#[derive(Clone, Copy, Debug, PartialEq, Eq, Structural)]
pub enum ServerState {
    Starting,
    Uninitialized,
    Joining,
    Running,
    Authoritative,
    Failed,
}

/// What a server answers when it is asked about itself.
#[derive(Debug, PartialEq, Eq)]
pub struct GetInfoResponse {
    pub server: Option<Server>,
    pub group: Option<Group>,
    pub state: ServerState,
}

/// The view of a [`GetInfoResponse`].
#[verifier::ext_equal]
pub struct GetInfoResponseView {
    pub server: Option<ServerView>,
    pub group: Option<GroupView>,
    pub state: ServerState,
}

impl View for GetInfoResponse {
    type V = GetInfoResponseView;

    open spec fn view(&self) -> GetInfoResponseView {
        GetInfoResponseView {
            server: views::opt_view(self.server),
            group: views::opt_view(self.group),
            state: self.state,
        }
    }
}

/// The answer to a ping.
#[derive(Debug, PartialEq, Eq)]
pub struct PingResponse {
    pub success: bool,
}

/// The load windows that a server gives out on demand.
#[derive(Debug, PartialEq, Eq)]
pub struct MonitorResponse {
    pub windows: Vec<MonitorWindow>,
}

/// The view of a [`MonitorResponse`].
#[verifier::ext_equal]
pub struct MonitorResponseView {
    pub windows: Seq<Seq<u8>>,
}

impl View for MonitorResponse {
    type V = MonitorResponseView;

    open spec fn view(&self) -> MonitorResponseView {
        MonitorResponseView { windows: views::seq_view(self.windows@) }
    }
}

/// The answer to a request to destroy an instance.
#[derive(Debug, PartialEq, Eq)]
pub struct DestroyResponse {
    pub success: bool,
}

} // verus!
