use nodegroup::error::Error;
use nodegroup::id::format_id;
use nodegroup::info::{DeploymentInfo, GroupInfo, ServerInfo};
use nodegroup::proto::{AppInstances, ClusterState, Deployment, Group, MonitorWindow, Server};
use nodegroup::scheduler::cluster::Cluster;
use nodegroup::scheduler::stats::ServerStats;

fn server(id: u128) -> ServerInfo {
    ServerInfo { id, addr: format!("http://{}", id) }
}

fn deployment(id: u128) -> DeploymentInfo {
    DeploymentInfo { id, source: format!("source {}", id) }
}

fn window(byte: u8) -> MonitorWindow {
    MonitorWindow { encoded: vec![byte] }
}

fn message(id: &str) -> Server {
    Server { id: id.to_string(), addr: "http://m".to_string() }
}

#[test]
fn new_cluster_has_its_scheduler_and_nothing_else() {
    let cluster = Cluster::new(&server(1));
    assert_eq!(cluster.group, GroupInfo { number: 0, scheduler_info: server(1) });
    assert_eq!(cluster.servers, vec![server(1)]);
    assert!(cluster.instances.0.is_empty());
    assert!(cluster.server_stats.0.is_empty());
    assert_eq!(cluster.get_addr(), "http://1");
}

#[test]
fn next_cluster_has_the_next_number_and_the_new_scheduler() {
    let first = Cluster::with_group(&GroupInfo::with_number(&server(1), 41));
    let next = first.next_cluster(&server(2));
    assert_eq!(next.group.number, 42);
    assert_eq!(next.servers, vec![server(2)]);
    assert_eq!(next.get_addr(), "http://2");
}

#[test]
fn instances_of_a_deployment_add_up() {
    let mut cluster = Cluster::new(&server(1));
    cluster.insert_instance(deployment(10), vec![server(2)]);
    let renamed = DeploymentInfo { id: 10, source: "other".to_string() };
    cluster.insert_instance(renamed, vec![server(3), server(2)]);
    cluster.insert_instance(deployment(11), vec![server(4)]);
    assert_eq!(cluster.get_instance_server_ids(&10), Ok(vec![2, 3, 2]));
    assert_eq!(cluster.get_instance_server_ids(&11), Ok(vec![4]));
    assert_eq!(cluster.instances.0[&10].deployment, deployment(10));
}

#[test]
fn instances_of_different_deployments_commute() {
    let mut one = Cluster::new(&server(1));
    let mut two = Cluster::new(&server(1));
    one.insert_instance(deployment(10), vec![server(2)]);
    one.insert_instance(deployment(11), vec![server(3), server(2)]);
    two.insert_instance(deployment(11), vec![server(3), server(2)]);
    two.insert_instance(deployment(10), vec![server(2)]);
    assert_eq!(one.instances.0, two.instances.0);
    assert_eq!(one.get_instance_server_ids(&11), Ok(vec![3, 2]));
}

#[test]
fn unknown_deployment_has_no_servers() {
    let cluster = Cluster::new(&server(1));
    assert_eq!(
        cluster.get_instance_server_ids(&10),
        Err(Error::Text("Deployment not found".to_string()))
    );
}

#[test]
fn reports_of_a_server_add_up() {
    let mut cluster = Cluster::new(&server(1));
    cluster.insert_stats(ServerStats::from_stats(server(2), vec![window(1)]));
    let moved = ServerInfo { id: 2, addr: "http://elsewhere".to_string() };
    cluster.insert_stats(ServerStats::from_stats(moved, vec![window(2), window(3)]));
    cluster.insert_stats(ServerStats::from_stats(server(3), vec![]));
    assert_eq!(cluster.server_stats.0[&2].stats, vec![window(1), window(2), window(3)]);
    assert_eq!(cluster.server_stats.0[&2].server, server(2));
    assert_eq!(cluster.server_stats.0.len(), 2);
}

#[test]
fn reports_of_different_servers_commute() {
    let mut one = Cluster::new(&server(1));
    let mut two = Cluster::new(&server(1));
    one.insert_stats(ServerStats::from_stats(server(2), vec![window(2)]));
    one.insert_stats(ServerStats::from_stats(server(3), vec![window(3)]));
    two.insert_stats(ServerStats::from_stats(server(3), vec![window(3)]));
    two.insert_stats(ServerStats::from_stats(server(2), vec![window(2)]));
    assert_eq!(one.server_stats.0, two.server_stats.0);
}

#[test]
fn stats_are_picked_by_id() {
    let mut cluster = Cluster::new(&server(1));
    cluster.insert_stats(ServerStats::from_stats(server(2), vec![window(2)]));
    cluster.insert_stats(ServerStats::from_stats(server(3), vec![window(3)]));
    let part = cluster.server_stats.clone_by_ids(&vec![3, 9, 3]);
    assert_eq!(part.0.len(), 1);
    assert_eq!(part.0[&3].stats, vec![window(3)]);
}

#[test]
fn cluster_survives_its_message_but_for_the_load() {
    let mut cluster = Cluster::with_group(&GroupInfo::with_number(&server(1), 5));
    cluster.servers.push(server(2));
    cluster.insert_instance(deployment(10), vec![server(1), server(2)]);
    cluster.insert_instance(deployment(11), vec![]);
    cluster.insert_instance(deployment(12), vec![server(2)]);
    cluster.insert_stats(ServerStats::from_stats(server(2), vec![window(2)]));
    let state = ClusterState::from(cluster.clone());
    assert_eq!(state.instances.len(), 3);
    let back = Cluster::try_from(state).unwrap();
    assert_eq!(back.group, cluster.group);
    assert_eq!(back.servers, cluster.servers);
    assert_eq!(back.instances.0, cluster.instances.0);
    assert!(back.server_stats.0.is_empty());
}

#[test]
fn misplaced_load_does_not_keep_a_cluster_from_its_message() {
    let mut cluster = Cluster::new(&server(1));
    cluster.insert_instance(deployment(10), vec![server(1)]);
    cluster.server_stats.0.insert(9, ServerStats::from_stats(server(2), vec![window(2)]));
    let back = Cluster::try_from(ClusterState::from(cluster.clone())).unwrap();
    assert_eq!(back.group, cluster.group);
    assert_eq!(back.servers, cluster.servers);
    assert_eq!(back.instances.0, cluster.instances.0);
    assert!(back.server_stats.0.is_empty());
}

#[test]
fn copy_of_a_cluster_holds_the_same_entries() {
    let mut cluster = Cluster::new(&server(1));
    cluster.insert_instance(deployment(10), vec![server(1), server(2)]);
    cluster.insert_stats(ServerStats::from_stats(server(2), vec![window(2)]));
    let copy = cluster.clone();
    assert_eq!(copy.group, cluster.group);
    assert_eq!(copy.servers, cluster.servers);
    assert_eq!(copy.instances.0, cluster.instances.0);
    assert_eq!(copy.server_stats.0, cluster.server_stats.0);
}

#[test]
fn nomination_holds_the_cluster() {
    let mut cluster = Cluster::new(&server(1));
    cluster.insert_instance(deployment(10), vec![server(1)]);
    let handed = Cluster::try_from(cluster.to_nomination().cluster.unwrap()).unwrap();
    assert_eq!(handed.group, cluster.group);
    assert_eq!(handed.servers, cluster.servers);
    assert_eq!(handed.instances.0, cluster.instances.0);
}

#[test]
fn cluster_message_needs_a_group() {
    let state = ClusterState { group: None, servers: vec![message("x")], instances: vec![] };
    assert_eq!(
        Cluster::try_from(state).unwrap_err(),
        Error::Text("Group cannot be empty".to_string())
    );
}

#[test]
fn first_unreadable_part_of_a_cluster_message_is_reported() {
    let group = || Some(Group::from(GroupInfo::new(&server(1))));
    let no_deployment = || AppInstances { deployment: None, servers: vec![] };
    let bad_servers = ClusterState {
        group: group(),
        servers: vec![message(&format_id(4)), message("one"), message("twenty")],
        instances: vec![no_deployment()],
    };
    let reason = uuid::Uuid::parse_str("one").unwrap_err().to_string();
    assert_eq!(Cluster::try_from(bad_servers).unwrap_err(), Error::UuidError(reason));
    let bad_instances = ClusterState {
        group: group(),
        servers: vec![message(&format_id(4))],
        instances: vec![no_deployment()],
    };
    assert_eq!(
        Cluster::try_from(bad_instances).unwrap_err(),
        Error::Text("Deployment cannot be empty".to_string())
    );
}

#[test]
fn later_of_two_messages_on_a_deployment_holds() {
    let entry = |source: &str| AppInstances {
        deployment: Some(Deployment { id: format_id(10), source: source.to_string() }),
        servers: vec![],
    };
    let state = ClusterState {
        group: Some(Group::from(GroupInfo::new(&server(1)))),
        servers: vec![],
        instances: vec![entry("old"), entry("new")],
    };
    let cluster = Cluster::try_from(state).unwrap();
    assert_eq!(cluster.instances.0.len(), 1);
    assert_eq!(cluster.instances.0[&10].deployment.source, "new");
}
