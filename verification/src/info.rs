//! What a scheduler knows of servers, groups and deployments, and how each is
//! written into a message and read back from one.
use vstd::prelude::*;
use vstd::std_specs::convert::{FromSpecImpl, TryFromSpecImpl};

use crate::error::{Error, ErrorView};
use crate::id;
use crate::id::{format_id, parse_id, random_id, Id};
use crate::proto::{
    AppInstances, AppInstancesView, Deployment, DeploymentView, Group, GroupView, Server,
    ServerView,
};
use crate::views;

verus! {

/// A server: its id, and the address under which it is reached.
#[derive(Debug, PartialEq, Eq)]
pub struct ServerInfo {
    pub id: Id,
    pub addr: String,
}

/// The view of a [`ServerInfo`].
#[verifier::ext_equal]
pub struct ServerInfoView {
    pub id: Id,
    pub addr: Seq<char>,
}

impl View for ServerInfo {
    type V = ServerInfoView;

    open spec fn view(&self) -> ServerInfoView {
        ServerInfoView { id: self.id, addr: self.addr@ }
    }
}

impl ServerInfoView {
    /// The message that names this server.
    pub open spec fn encode(self) -> ServerView {
        ServerView { id: id::hyphenated(self.id), addr: self.addr }
    }

    /// The server that a message names: its id must be one.
    pub open spec fn decode(message: ServerView) -> Result<ServerInfoView, ErrorView> {
        match id::id_of_text(message.id) {
            Ok(id) => Ok(ServerInfoView { id, addr: message.addr }),
            Err(text) => Err(ErrorView::UuidError(text)),
        }
    }

    /// The servers that a list of messages names, in order, or the error of the
    /// first message that names none.
    pub open spec fn decode_all(messages: Seq<ServerView>) -> Result<Seq<ServerInfoView>, ErrorView>
        decreases messages.len(),
    {
        if messages.len() == 0 {
            Ok(Seq::empty())
        } else {
            match Self::decode_all(messages.drop_last()) {
                Ok(servers) => match Self::decode(messages.last()) {
                    Ok(server) => Ok(servers.push(server)),
                    Err(error) => Err(error),
                },
                Err(error) => Err(error),
            }
        }
    }
}

/// The messages that name the servers of a list, in order.
pub open spec fn encode_servers(servers: Seq<ServerInfoView>) -> Seq<ServerView> {
    servers.map_values(|server: ServerInfoView| server.encode())
}

impl ServerInfo {
    /// A server of a fresh random id, reached under the address given.
    pub fn new(addr: &str) -> (server: ServerInfo)
        ensures
            server@.addr == addr@,
            id::is_random(server@.id),
            call_ensures(random_id, (), server.id),
    {
        ServerInfo { id: random_id(), addr: addr.to_owned() }
    }
}

impl Clone for ServerInfo {
    fn clone(&self) -> (copy: ServerInfo)
        ensures
            copy == *self,
    {
        ServerInfo { id: self.id, addr: self.addr.clone() }
    }
}

impl From<ServerInfo> for Server {
    fn from(server: ServerInfo) -> (message: Server)
        ensures
            message@ == server@.encode(),
    {
        Server { id: format_id(server.id), addr: server.addr }
    }
}

/// The texts of a message are fixed only as texts: see the contract of `from`.
impl FromSpecImpl<ServerInfo> for Server {
    open spec fn obeys_from_spec() -> bool {
        false
    }

    open spec fn from_spec(server: ServerInfo) -> Server {
        arbitrary()
    }
}

impl TryFrom<Server> for ServerInfo {
    type Error = Error;

    fn try_from(message: Server) -> (server: Result<ServerInfo, Error>)
        ensures
            views::result_view(server) == ServerInfoView::decode(message@),
    {
        match parse_id(message.id.as_str()) {
            Ok(id) => Ok(ServerInfo { id, addr: message.addr }),
            Err(text) => Err(Error::UuidError(text)),
        }
    }
}

/// See the contract of `try_from`.
impl TryFromSpecImpl<Server> for ServerInfo {
    open spec fn obeys_try_from_spec() -> bool {
        false
    }

    open spec fn try_from_spec(message: Server) -> Result<ServerInfo, Error> {
        arbitrary()
    }
}

/// Names each server of a list in a message.
pub(crate) fn servers_into_messages(servers: &Vec<ServerInfo>) -> (messages: Vec<Server>)
    ensures
        views::seq_view(messages@) == encode_servers(views::seq_view(servers@)),
{
    let mut messages: Vec<Server> = Vec::new();
    for i in 0..servers.len()
        invariant
            messages@.len() == i,
            forall|k: int| 0 <= k < i ==> (#[trigger] messages@[k])@ == servers@[k]@.encode(),
    {
        messages.push(Server::from(servers[i].clone()));
    }
    messages
}

/// Where a prefix of a list of messages names a server too few, so does the list.
proof fn decode_all_keeps_error(messages: Seq<ServerView>, count: int)
    requires
        0 <= count <= messages.len(),
        ServerInfoView::decode_all(messages.take(count)) is Err,
    ensures
        ServerInfoView::decode_all(messages) == ServerInfoView::decode_all(messages.take(count)),
    decreases messages.len(),
{
    if count == messages.len() {
        assert(messages.take(count) == messages);
    } else {
        assert(messages.drop_last().take(count) == messages.take(count));
        decode_all_keeps_error(messages.drop_last(), count);
    }
}

/// Reads the servers that a list of messages names.
pub(crate) fn servers_from_messages(messages: Vec<Server>) -> (servers: Result<
    Vec<ServerInfo>,
    Error,
>)
    ensures
        views::list_result_view(servers) == ServerInfoView::decode_all(views::seq_view(messages@)),
{
    let mut servers: Vec<ServerInfo> = Vec::new();
    let ghost all = views::seq_view(messages@);
    assert(all.take(0) == Seq::<ServerView>::empty());
    assert(views::seq_view(servers@) == Seq::<ServerInfoView>::empty());
    for message in it: messages
        invariant
            all == views::seq_view(messages@),
            it.seq() == messages@,
            ServerInfoView::decode_all(all.take(it.index())) == Ok::<
                Seq<ServerInfoView>,
                ErrorView,
            >(views::seq_view(servers@)),
    {
        let ghost read = views::seq_view(servers@);
        assert(all.take(it.index() + 1).drop_last() == all.take(it.index()));
        match ServerInfo::try_from(message) {
            Ok(server) => {
                servers.push(server);
                assert(views::seq_view(servers@) == read.push(server@));
            },
            Err(error) => {
                proof {
                    decode_all_keeps_error(all, it.index() + 1);
                }
                return Err(error);
            },
        }
    }
    assert(all.take(messages@.len() as int) == all);
    Ok(servers)
}

/// A group of servers: its number, and the server that schedules for it.
#[derive(Debug, PartialEq, Eq)]
pub struct GroupInfo {
    pub number: u32,
    pub scheduler_info: ServerInfo,
}

/// The view of a [`GroupInfo`].
#[verifier::ext_equal]
pub struct GroupInfoView {
    pub number: u32,
    pub scheduler_info: ServerInfoView,
}

impl View for GroupInfo {
    type V = GroupInfoView;

    open spec fn view(&self) -> GroupInfoView {
        GroupInfoView { number: self.number, scheduler_info: self.scheduler_info@ }
    }
}

impl GroupInfoView {
    /// The message that describes this group.
    pub open spec fn encode(self) -> GroupView {
        GroupView { number: self.number, scheduler: Some(self.scheduler_info.encode()) }
    }

    /// The group that a message describes: it must name a scheduler.
    pub open spec fn decode(message: GroupView) -> Result<GroupInfoView, ErrorView> {
        match message.scheduler {
            None => Err(ErrorView::Text("Scheduler cannot be empty"@)),
            Some(scheduler) => match ServerInfoView::decode(scheduler) {
                Ok(scheduler_info) => Ok(GroupInfoView { number: message.number, scheduler_info }),
                Err(error) => Err(error),
            },
        }
    }
}

impl GroupInfo {
    /// The first group, number zero, with the scheduler given.
    pub fn new(scheduler: &ServerInfo) -> (group: GroupInfo)
        ensures
            group@ == (GroupInfoView { number: 0, scheduler_info: scheduler@ }),
    {
        GroupInfo::with_number(scheduler, 0)
    }

    /// The group of the number given, with the scheduler given.
    pub fn with_number(scheduler: &ServerInfo, number: u32) -> (group: GroupInfo)
        ensures
            group@ == (GroupInfoView { number, scheduler_info: scheduler@ }),
    {
        GroupInfo { number, scheduler_info: scheduler.clone() }
    }
}

impl Clone for GroupInfo {
    fn clone(&self) -> (copy: GroupInfo)
        ensures
            copy == *self,
    {
        GroupInfo { number: self.number, scheduler_info: self.scheduler_info.clone() }
    }
}

impl From<GroupInfo> for Group {
    fn from(group: GroupInfo) -> (message: Group)
        ensures
            message@ == group@.encode(),
    {
        Group { number: group.number, scheduler: Some(Server::from(group.scheduler_info)) }
    }
}

/// See the contract of `from`.
impl FromSpecImpl<GroupInfo> for Group {
    open spec fn obeys_from_spec() -> bool {
        false
    }

    open spec fn from_spec(group: GroupInfo) -> Group {
        arbitrary()
    }
}

impl TryFrom<Group> for GroupInfo {
    type Error = Error;

    fn try_from(message: Group) -> (group: Result<GroupInfo, Error>)
        ensures
            views::result_view(group) == GroupInfoView::decode(message@),
    {
        match message.scheduler {
            None => Err(Error::Text("Scheduler cannot be empty".to_owned())),
            Some(scheduler) => match ServerInfo::try_from(scheduler) {
                Ok(scheduler_info) => Ok(GroupInfo { number: message.number, scheduler_info }),
                Err(error) => Err(error),
            },
        }
    }
}

/// See the contract of `try_from`.
impl TryFromSpecImpl<Group> for GroupInfo {
    open spec fn obeys_try_from_spec() -> bool {
        false
    }

    open spec fn try_from_spec(message: Group) -> Result<GroupInfo, Error> {
        arbitrary()
    }
}

/// A deployed application: its id, and the source that it is run from.
#[derive(Debug, PartialEq, Eq)]
pub struct DeploymentInfo {
    pub id: Id,
    pub source: String,
}

/// The view of a [`DeploymentInfo`].
#[verifier::ext_equal]
pub struct DeploymentInfoView {
    pub id: Id,
    pub source: Seq<char>,
}

impl View for DeploymentInfo {
    type V = DeploymentInfoView;

    open spec fn view(&self) -> DeploymentInfoView {
        DeploymentInfoView { id: self.id, source: self.source@ }
    }
}

impl DeploymentInfoView {
    /// The message that describes this deployment.
    pub open spec fn encode(self) -> DeploymentView {
        DeploymentView { id: id::hyphenated(self.id), source: self.source }
    }

    /// The deployment that a message describes: its id must be one.
    pub open spec fn decode(message: DeploymentView) -> Result<DeploymentInfoView, ErrorView> {
        match id::id_of_text(message.id) {
            Ok(id) => Ok(DeploymentInfoView { id, source: message.source }),
            Err(text) => Err(ErrorView::UuidError(text)),
        }
    }
}

impl DeploymentInfo {
    /// A deployment of a fresh random id, run from the source given.
    pub fn new(source: String) -> (deployment: DeploymentInfo)
        ensures
            deployment@.source == source@,
            id::is_random(deployment@.id),
            call_ensures(random_id, (), deployment.id),
    {
        DeploymentInfo { id: random_id(), source }
    }
}

impl Clone for DeploymentInfo {
    fn clone(&self) -> (copy: DeploymentInfo)
        ensures
            copy == *self,
    {
        DeploymentInfo { id: self.id, source: self.source.clone() }
    }
}

impl From<DeploymentInfo> for Deployment {
    fn from(deployment: DeploymentInfo) -> (message: Deployment)
        ensures
            message@ == deployment@.encode(),
    {
        Deployment { id: format_id(deployment.id), source: deployment.source }
    }
}

/// See the contract of `from`.
impl FromSpecImpl<DeploymentInfo> for Deployment {
    open spec fn obeys_from_spec() -> bool {
        false
    }

    open spec fn from_spec(deployment: DeploymentInfo) -> Deployment {
        arbitrary()
    }
}

impl TryFrom<Deployment> for DeploymentInfo {
    type Error = Error;

    fn try_from(message: Deployment) -> (deployment: Result<DeploymentInfo, Error>)
        ensures
            views::result_view(deployment) == DeploymentInfoView::decode(message@),
    {
        match parse_id(message.id.as_str()) {
            Ok(id) => Ok(DeploymentInfo { id, source: message.source }),
            Err(text) => Err(Error::UuidError(text)),
        }
    }
}

/// See the contract of `try_from`.
impl TryFromSpecImpl<Deployment> for DeploymentInfo {
    open spec fn obeys_try_from_spec() -> bool {
        false
    }

    open spec fn try_from_spec(message: Deployment) -> Result<DeploymentInfo, Error> {
        arbitrary()
    }
}

/// A deployment, and the servers that run an instance of it, in the order in
/// which they were given one.
#[derive(Debug, PartialEq, Eq)]
pub struct AppInstancesInfo {
    pub deployment: DeploymentInfo,
    pub servers: Vec<ServerInfo>,
}

/// The view of an [`AppInstancesInfo`].
#[verifier::ext_equal]
pub struct AppInstancesInfoView {
    pub deployment: DeploymentInfoView,
    pub servers: Seq<ServerInfoView>,
}

impl View for AppInstancesInfo {
    type V = AppInstancesInfoView;

    open spec fn view(&self) -> AppInstancesInfoView {
        AppInstancesInfoView {
            deployment: self.deployment@,
            servers: views::seq_view(self.servers@),
        }
    }
}

impl AppInstancesInfoView {
    /// The message that describes these instances.
    pub open spec fn encode(self) -> AppInstancesView {
        AppInstancesView {
            deployment: Some(self.deployment.encode()),
            servers: encode_servers(self.servers),
        }
    }

    /// The instances that a message describes: it must hold a deployment, and
    /// every server in it must be one.
    pub open spec fn decode(message: AppInstancesView) -> Result<AppInstancesInfoView, ErrorView> {
        match message.deployment {
            None => Err(ErrorView::Text("Deployment cannot be empty"@)),
            Some(deployment) => match DeploymentInfoView::decode(deployment) {
                Err(error) => Err(error),
                Ok(deployment) => match ServerInfoView::decode_all(message.servers) {
                    Err(error) => Err(error),
                    Ok(servers) => Ok(AppInstancesInfoView { deployment, servers }),
                },
            },
        }
    }
}

/// Copies a list of servers.
pub(crate) fn clone_servers(servers: &Vec<ServerInfo>) -> (copy: Vec<ServerInfo>)
    ensures
        copy@ == servers@,
{
    servers.clone()
}

impl Clone for AppInstancesInfo {
    fn clone(&self) -> (copy: AppInstancesInfo)
        ensures
            copy@ == self@,
    {
        AppInstancesInfo {
            deployment: self.deployment.clone(),
            servers: clone_servers(&self.servers),
        }
    }
}

impl From<AppInstancesInfo> for AppInstances {
    fn from(instances: AppInstancesInfo) -> (message: AppInstances)
        ensures
            message@ == instances@.encode(),
    {
        AppInstances {
            deployment: Some(Deployment::from(instances.deployment)),
            servers: servers_into_messages(&instances.servers),
        }
    }
}

/// See the contract of `from`.
impl FromSpecImpl<AppInstancesInfo> for AppInstances {
    open spec fn obeys_from_spec() -> bool {
        false
    }

    open spec fn from_spec(instances: AppInstancesInfo) -> AppInstances {
        arbitrary()
    }
}

impl TryFrom<AppInstances> for AppInstancesInfo {
    type Error = Error;

    fn try_from(message: AppInstances) -> (instances: Result<AppInstancesInfo, Error>)
        ensures
            views::result_view(instances) == AppInstancesInfoView::decode(message@),
    {
        let deployment = match message.deployment {
            None => return Err(Error::Text("Deployment cannot be empty".to_owned())),
            Some(deployment) => deployment,
        };
        let deployment = match DeploymentInfo::try_from(deployment) {
            Err(error) => return Err(error),
            Ok(deployment) => deployment,
        };
        match servers_from_messages(message.servers) {
            Err(error) => Err(error),
            Ok(servers) => Ok(AppInstancesInfo { deployment, servers }),
        }
    }
}

/// See the contract of `try_from`.
impl TryFromSpecImpl<AppInstances> for AppInstancesInfo {
    open spec fn obeys_try_from_spec() -> bool {
        false
    }

    open spec fn try_from_spec(message: AppInstances) -> Result<AppInstancesInfo, Error> {
        arbitrary()
    }
}

} // verus!
