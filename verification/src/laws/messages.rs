//! What messages tell, and what is read from them.
use vstd::prelude::*;

use crate::error::{ErrorView, StatusView};
use crate::id;
use crate::id::Id;
use crate::info;
use crate::info::{AppInstancesInfoView, DeploymentInfoView, GroupInfoView, ServerInfoView};
use crate::proto::{
    AppInstancesView, ClusterStateView, DeploymentView, GroupView, ServerView,
};
use crate::scheduler::cluster;
use crate::scheduler::cluster::ClusterView;

verus! {

/// The canonical text of an id has 36 characters: hyphens after eight, twelve,
/// sixteen and twenty digits, and the digits of the id, in order, elsewhere.
pub proof fn canonical_text_has_the_digits_in_order(id: Id, index: int)
    requires
        0 <= index < 32,
    ensures
        id::hyphenated(id).len() == 36,
        id::hyphenated(id)[8] == '-',
        id::hyphenated(id)[13] == '-',
        id::hyphenated(id)[18] == '-',
        id::hyphenated(id)[23] == '-',
        ({
            let hyphens: int = if index < 8 {
                0
            } else if index < 12 {
                1
            } else if index < 16 {
                2
            } else if index < 20 {
                3
            } else {
                4
            };
            let value = (id >> ((4 * (31 - index)) as u128)) & 0xf;
            let digit = id::hyphenated(id)[index + hyphens];
            &&& value < 10 ==> digit as int == '0' as int + value
            &&& value >= 10 ==> digit as int == 'a' as int + value - 10
        }),
{
    let shift: u128 = (4 * (31 - index)) as u128;
    assert((id >> shift) & 0xf < 16) by (bit_vector);
}

/// A text that is no canonical one is read as the UUID parser reads it, or
/// refused with the reason that the parser gives.
pub proof fn other_texts_are_left_to_the_parser(text: Seq<char>)
    requires
        forall|id: Id| text != id::hyphenated(id),
    ensures
        id::id_of_text(text) == id::uuid_parse_str(text),
{
}

/// Whatever goes wrong, a request is refused as aborted, with the message of what
/// went wrong.
pub proof fn failure_is_told_by_its_message(text: Seq<char>, refusal: StatusView)
    ensures
        ErrorView::Text(text).message() == text,
        ErrorView::TransportError(text).message() == text,
        ErrorView::RpcError(refusal).message() == refusal.message,
        ErrorView::UuidError(text).message() == text,
        ErrorView::Text(text).status().message == text,
        ErrorView::TransportError(text).status().message == text,
        ErrorView::RpcError(refusal).status().message == refusal.message,
        ErrorView::UuidError(text).status().message == text,
        ErrorView::Text(text).status().code == 10,
        ErrorView::TransportError(text).status().code == 10,
        ErrorView::RpcError(refusal).status().code == 10,
        ErrorView::UuidError(text).status().code == 10,
        StatusView::aborted(text).code == 10,
        StatusView::aborted(text).message == text,
{
}

/// A message on a server tells its address, and its id by the canonical text.
pub proof fn server_message_tells_id_and_address(server: ServerInfoView)
    ensures
        server.encode().id == id::hyphenated(server.id),
        server.encode().addr == server.addr,
{
}

/// A message on a group tells its number and its scheduler.
pub proof fn group_message_tells_number_and_scheduler(group: GroupInfoView)
    ensures
        group.encode().number == group.number,
        group.encode().scheduler is Some,
        group.encode().scheduler->Some_0.id == id::hyphenated(group.scheduler_info.id),
        group.encode().scheduler->Some_0.addr == group.scheduler_info.addr,
{
}

/// A message on a deployment tells its source, and its id by the canonical text.
pub proof fn deployment_message_tells_id_and_source(deployment: DeploymentInfoView)
    ensures
        deployment.encode().id == id::hyphenated(deployment.id),
        deployment.encode().source == deployment.source,
{
}

/// A message on the instances of a deployment tells the deployment, and each
/// server in its place.
pub proof fn instances_message_tells_each_server(instances: AppInstancesInfoView)
    ensures
        instances.encode().deployment == Some(instances.deployment.encode()),
        instances.encode().servers.len() == instances.servers.len(),
        forall|k: int|
            0 <= k < instances.servers.len() ==> #[trigger] instances.encode().servers[k]
                == instances.servers[k].encode(),
{
}

/// Servers are told of one by one, each in its place.
pub proof fn server_messages_tell_each_server(servers: Seq<ServerInfoView>)
    ensures
        info::encode_servers(servers).len() == servers.len(),
        forall|k: int|
            0 <= k < servers.len() ==> #[trigger] info::encode_servers(servers)[k]
                == servers[k].encode(),
{
}

/// A server is read from a message just where the id in it is one: it has that id,
/// and the address in the message.
pub proof fn readable_server_has_id_and_address(message: ServerView)
    ensures
        ServerInfoView::decode(message) is Ok <==> id::id_of_text(message.id) is Ok,
        ServerInfoView::decode(message) matches Ok(server) ==> id::id_of_text(message.id) == Ok::<
            Id,
            Seq<char>,
        >(server.id) && server.addr == message.addr,
        ServerInfoView::decode(message) matches Err(error) ==> error == ErrorView::UuidError(
            id::id_of_text(message.id)->Err_0,
        ),
{
}

/// A deployment is read from a message just where the id in it is one: it has that
/// id, and the source in the message.
pub proof fn readable_deployment_has_id_and_source(message: DeploymentView)
    ensures
        DeploymentInfoView::decode(message) is Ok <==> id::id_of_text(message.id) is Ok,
        DeploymentInfoView::decode(message) matches Ok(deployment) ==> id::id_of_text(message.id)
            == Ok::<Id, Seq<char>>(deployment.id) && deployment.source == message.source,
        DeploymentInfoView::decode(message) matches Err(error) ==> error == ErrorView::UuidError(
            id::id_of_text(message.id)->Err_0,
        ),
{
}

/// A group is read from a message just where a scheduler can be: it has that
/// scheduler, and the number in the message.
pub proof fn readable_group_has_number_and_scheduler(message: GroupView)
    ensures
        GroupInfoView::decode(message) is Ok <==> (message.scheduler is Some
            && ServerInfoView::decode(message.scheduler->Some_0) is Ok),
        GroupInfoView::decode(message) matches Ok(group) ==> group.number == message.number
            && ServerInfoView::decode(message.scheduler->Some_0) == Ok::<
            ServerInfoView,
            ErrorView,
        >(group.scheduler_info),
        message.scheduler is None ==> GroupInfoView::decode(message) == Err::<
            GroupInfoView,
            ErrorView,
        >(ErrorView::Text("Scheduler cannot be empty"@)),
        message.scheduler is Some && ServerInfoView::decode(message.scheduler->Some_0) is Err
            ==> GroupInfoView::decode(message) == Err::<GroupInfoView, ErrorView>(
            ServerInfoView::decode(message.scheduler->Some_0)->Err_0,
        ),
{
}

/// Servers are read from a list of messages just where each message names one,
/// and each then stands in its place. Else the first message that names none
/// gives the error.
pub proof fn servers_are_read_one_by_one(messages: Seq<ServerView>)
    ensures
        match ServerInfoView::decode_all(messages) {
            Ok(servers) => {
                &&& servers.len() == messages.len()
                &&& forall|k: int|
                    0 <= k < messages.len() ==> #[trigger] ServerInfoView::decode(messages[k])
                        == Ok::<ServerInfoView, ErrorView>(servers[k])
            },
            Err(error) => exists|k: int|
                {
                    &&& 0 <= k < messages.len()
                    &&& #[trigger] ServerInfoView::decode(messages[k]) == Err::<
                        ServerInfoView,
                        ErrorView,
                    >(error)
                    &&& forall|j: int|
                        0 <= j < k ==> #[trigger] ServerInfoView::decode(messages[j]) is Ok
                },
        },
    decreases messages.len(),
{
    if messages.len() > 0 {
        let before = messages.drop_last();
        servers_are_read_one_by_one(before);
        assert forall|k: int| 0 <= k < before.len() implies before[k] == messages[k] by {}
        let last = messages.len() - 1;
        assert(messages[last] == messages.last());
        match ServerInfoView::decode_all(before) {
            Err(error) => {
                let k = choose|k: int|
                    {
                        &&& 0 <= k < before.len()
                        &&& #[trigger] ServerInfoView::decode(before[k]) == Err::<
                            ServerInfoView,
                            ErrorView,
                        >(error)
                        &&& forall|j: int|
                            0 <= j < k ==> #[trigger] ServerInfoView::decode(before[j]) is Ok
                    };
                assert(ServerInfoView::decode(messages[k]) == Err::<ServerInfoView, ErrorView>(
                    error,
                ));
                assert forall|j: int| 0 <= j < k implies #[trigger] ServerInfoView::decode(
                    messages[j],
                ) is Ok by {
                    assert(ServerInfoView::decode(before[j]) is Ok);
                }
            },
            Ok(servers) => {
                assert forall|j: int| 0 <= j < last implies #[trigger] ServerInfoView::decode(
                    messages[j],
                ) == Ok::<ServerInfoView, ErrorView>(servers[j]) by {
                    assert(ServerInfoView::decode(before[j]) is Ok);
                }
                assert(ServerInfoView::decode(messages[last]) == ServerInfoView::decode(
                    messages.last(),
                ));
            },
        }
    }
}

/// The instances of a deployment are read from a message just where the deployment
/// and every server in it can be. The deployment is read first.
pub proof fn readable_instances_have_deployment_and_servers(message: AppInstancesView)
    ensures
        message.deployment is None ==> AppInstancesInfoView::decode(message) == Err::<
            AppInstancesInfoView,
            ErrorView,
        >(ErrorView::Text("Deployment cannot be empty"@)),
        message.deployment matches Some(deployment) ==> match DeploymentInfoView::decode(
            deployment,
        ) {
            Err(error) => AppInstancesInfoView::decode(message) == Err::<
                AppInstancesInfoView,
                ErrorView,
            >(error),
            Ok(deployment) => match ServerInfoView::decode_all(message.servers) {
                Err(error) => AppInstancesInfoView::decode(message) == Err::<
                    AppInstancesInfoView,
                    ErrorView,
                >(error),
                Ok(servers) => {
                    &&& AppInstancesInfoView::decode(message) is Ok
                    &&& AppInstancesInfoView::decode(message)->Ok_0.deployment == deployment
                    &&& AppInstancesInfoView::decode(message)->Ok_0.servers == servers
                },
            },
        },
{
}

/// Where a list of messages on instances can be read, each message can, each
/// deployment that is told of has an entry, and no other has one.
pub proof fn instances_are_read_one_by_one(messages: Seq<AppInstancesView>)
    requires
        cluster::decode_instances(messages) is Ok,
    ensures
        forall|k: int|
            0 <= k < messages.len() ==> #[trigger] AppInstancesInfoView::decode(messages[k]) is Ok
                && cluster::decode_instances(messages)->Ok_0.contains_key(
                AppInstancesInfoView::decode(messages[k])->Ok_0.deployment.id,
            ),
        forall|id: Id| #[trigger]
            cluster::decode_instances(messages)->Ok_0.contains_key(id) ==> exists|k: int|
                0 <= k < messages.len() && (#[trigger] AppInstancesInfoView::decode(
                    messages[k],
                ))->Ok_0.deployment.id == id,
    decreases messages.len(),
{
    if messages.len() > 0 {
        let before = messages.drop_last();
        let last = messages.len() - 1;
        let all = cluster::decode_instances(messages)->Ok_0;
        instances_are_read_one_by_one(before);
        assert(messages[last] == messages.last());
        assert forall|k: int| 0 <= k < messages.len() implies (
        #[trigger] AppInstancesInfoView::decode(messages[k])) is Ok && all.contains_key(
            AppInstancesInfoView::decode(messages[k])->Ok_0.deployment.id,
        ) by {
            if k < last {
                assert(AppInstancesInfoView::decode(before[k]) is Ok);
            }
        }
        assert forall|id: Id| #[trigger] all.contains_key(id) implies exists|k: int|
            0 <= k < messages.len() && (#[trigger] AppInstancesInfoView::decode(
                messages[k],
            ))->Ok_0.deployment.id == id by {
            if id == AppInstancesInfoView::decode(messages[last])->Ok_0.deployment.id {
            } else {
                assert(cluster::decode_instances(before)->Ok_0.contains_key(id));
                let k = choose|k: int|
                    0 <= k < before.len() && (#[trigger] AppInstancesInfoView::decode(
                        before[k],
                    ))->Ok_0.deployment.id == id;
                assert(AppInstancesInfoView::decode(messages[k])->Ok_0.deployment.id == id);
            }
        }
    }
}

/// Of the messages on one deployment the last holds, and holds whole.
pub proof fn last_message_on_a_deployment_holds(messages: Seq<AppInstancesView>, k: int)
    requires
        cluster::decode_instances(messages) is Ok,
        0 <= k < messages.len(),
        forall|j: int|
            k < j < messages.len() ==> (#[trigger] AppInstancesInfoView::decode(
                messages[j],
            ))->Ok_0.deployment.id != AppInstancesInfoView::decode(
                messages[k],
            )->Ok_0.deployment.id,
    ensures
        cluster::decode_instances(messages)->Ok_0[AppInstancesInfoView::decode(
            messages[k],
        )->Ok_0.deployment.id] == AppInstancesInfoView::decode(messages[k])->Ok_0,
    decreases messages.len(),
{
    let before = messages.drop_last();
    let last = messages.len() - 1;
    assert(messages[last] == messages.last());
    if k < last {
        assert(before[k] == messages[k]);
        assert forall|j: int| k < j < before.len() implies (#[trigger] AppInstancesInfoView::decode(
            before[j],
        ))->Ok_0.deployment.id != AppInstancesInfoView::decode(before[k])->Ok_0.deployment.id by {
            assert(before[j] == messages[j]);
        }
        last_message_on_a_deployment_holds(before, k);
        assert(AppInstancesInfoView::decode(messages[last])->Ok_0.deployment.id
            != AppInstancesInfoView::decode(messages[k])->Ok_0.deployment.id);
    }
}

/// Where a list of messages on instances cannot be read, the first message that
/// cannot gives the error; where each can be read, so can the list.
pub proof fn first_unreadable_message_gives_the_error(messages: Seq<AppInstancesView>)
    ensures
        cluster::decode_instances(messages) is Ok <==> forall|k: int|
            0 <= k < messages.len() ==> #[trigger] AppInstancesInfoView::decode(messages[k]) is Ok,
        cluster::decode_instances(messages) matches Err(error) ==> exists|k: int|
            {
                &&& 0 <= k < messages.len()
                &&& #[trigger] AppInstancesInfoView::decode(messages[k]) == Err::<
                    AppInstancesInfoView,
                    ErrorView,
                >(error)
                &&& forall|j: int|
                    0 <= j < k ==> #[trigger] AppInstancesInfoView::decode(messages[j]) is Ok
            },
    decreases messages.len(),
{
    if messages.len() > 0 {
        let before = messages.drop_last();
        let last = messages.len() - 1;
        first_unreadable_message_gives_the_error(before);
        assert(messages[last] == messages.last());
        assert forall|j: int| 0 <= j < last implies #[trigger] AppInstancesInfoView::decode(
            messages[j],
        ) == AppInstancesInfoView::decode(before[j]) by {}
        if cluster::decode_instances(before) is Err {
            let error = cluster::decode_instances(before)->Err_0;
            let k = choose|k: int|
                {
                    &&& 0 <= k < before.len()
                    &&& #[trigger] AppInstancesInfoView::decode(before[k]) == Err::<
                        AppInstancesInfoView,
                        ErrorView,
                    >(error)
                    &&& forall|j: int|
                        0 <= j < k ==> #[trigger] AppInstancesInfoView::decode(before[j]) is Ok
                };
            assert(AppInstancesInfoView::decode(messages[k]) == Err::<
                AppInstancesInfoView,
                ErrorView,
            >(error));
            assert forall|j: int| 0 <= j < k implies #[trigger] AppInstancesInfoView::decode(
                messages[j],
            ) is Ok by {
                assert(AppInstancesInfoView::decode(before[j]) is Ok);
            }
        } else {
            assert forall|j: int| 0 <= j < last implies #[trigger] AppInstancesInfoView::decode(
                messages[j],
            ) is Ok by {
                assert(AppInstancesInfoView::decode(before[j]) is Ok);
            }
            if AppInstancesInfoView::decode(messages.last()) is Err {
                assert(AppInstancesInfoView::decode(messages[last]) is Err);
            }
        }
    }
}

/// A cluster that was read has the group, the servers and the instances that the
/// message tells of, and no load. The group is read first, then the servers, then
/// the instances, and the first of them that cannot be read gives the error.
pub proof fn readable_cluster_has_all_that_is_told(state: ClusterStateView)
    ensures
        state.group is None ==> ClusterView::decode(state) == Err::<ClusterView, ErrorView>(
            ErrorView::Text("Group cannot be empty"@),
        ),
        state.group matches Some(message) ==> match (
            GroupInfoView::decode(message),
            ServerInfoView::decode_all(state.servers),
            cluster::decode_instances(state.instances),
        ) {
            (Err(error), _, _) => ClusterView::decode(state) == Err::<ClusterView, ErrorView>(
                error,
            ),
            (Ok(_), Err(error), _) => ClusterView::decode(state) == Err::<ClusterView, ErrorView>(
                error,
            ),
            (Ok(_), Ok(_), Err(error)) => ClusterView::decode(state) == Err::<
                ClusterView,
                ErrorView,
            >(error),
            (Ok(group), Ok(servers), Ok(instances)) => {
                &&& ClusterView::decode(state) is Ok
                &&& ClusterView::decode(state)->Ok_0.group == group
                &&& ClusterView::decode(state)->Ok_0.servers == servers
                &&& ClusterView::decode(state)->Ok_0.instances == instances
                &&& forall|id: Id| !(#[trigger] ClusterView::decode(
                    state,
                )->Ok_0.server_stats.contains_key(id))
            },
        },
{
}

/// A message on a cluster tells its group, each server in its place, and the
/// instances of each deployment, as many in number as there are deployments.
pub proof fn cluster_message_tells_everything_once(cluster: ClusterView, state: ClusterStateView)
    requires
        cluster.encoded_as(state),
    ensures
        state.group == Some(cluster.group.encode()),
        state.servers.len() == cluster.servers.len(),
        forall|k: int|
            0 <= k < cluster.servers.len() ==> #[trigger] state.servers[k]
                == cluster.servers[k].encode(),
        state.instances.len() == cluster.instances.dom().len(),
        forall|id: Id| #[trigger]
            cluster.instances.contains_key(id) ==> state.instances.contains(
                cluster.instances[id].encode(),
            ),
{
    let order = choose|order: Seq<Id>| #[trigger]
        cluster::lists_instances(order, cluster.instances, state.instances);
    order.unique_seq_to_set();
    assert forall|id: Id| #[trigger] cluster.instances.contains_key(
        id,
    ) implies state.instances.contains(cluster.instances[id].encode()) by {
        assert(order.to_set().contains(id));
        let k = choose|k: int| 0 <= k < order.len() && order[k] == id;
        assert(state.instances[k] == cluster.instances[id].encode());
    }
}

/// Every message on instances in a message on a cluster tells of a deployment of
/// that cluster.
pub proof fn cluster_message_tells_of_nothing_else(
    cluster: ClusterView,
    state: ClusterStateView,
    k: int,
)
    requires
        cluster.encoded_as(state),
        0 <= k < state.instances.len(),
    ensures
        exists|id: Id| #[trigger]
            cluster.instances.contains_key(id) && state.instances[k]
                == cluster.instances[id].encode(),
{
    let order = choose|order: Seq<Id>| #[trigger]
        cluster::lists_instances(order, cluster.instances, state.instances);
    assert(order.to_set().contains(order[k]));
    assert(cluster.instances.contains_key(order[k]));
}

} // verus!
