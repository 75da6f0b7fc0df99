use nodegroup::error::{Error, Status, ABORTED, UNIMPLEMENTED};
use nodegroup::id::{format_id, parse_id, random_id};
use nodegroup::info::{AppInstancesInfo, DeploymentInfo, GroupInfo, ServerInfo};
use nodegroup::proto::{AppInstances, Deployment, Group, Server};

const TEXT: &str = "550e8400-e29b-41d4-a716-446655440000";
const BITS: u128 = 0x550e8400_e29b_41d4_a716_446655440000;

#[test]
fn canonical_text_of_an_id() {
    assert_eq!(format_id(BITS), TEXT);
    assert_eq!(format_id(0), "00000000-0000-0000-0000-000000000000");
    assert_eq!(format_id(u128::MAX), "ffffffff-ffff-ffff-ffff-ffffffffffff");
    assert_eq!(
        format_id(0x0123_4567_89ab_cdef_0123_4567_89ab_cdef),
        "01234567-89ab-cdef-0123-456789abcdef"
    );
}

#[test]
fn canonical_text_is_read_back() {
    for id in [0u128, 1, BITS, u128::MAX, 1 << 127, 0xdead_beef] {
        assert_eq!(parse_id(&format_id(id)), Ok(id));
    }
}

#[test]
fn other_spellings_of_an_id_are_read() {
    assert_eq!(parse_id("550e8400e29b41d4a716446655440000"), Ok(BITS));
    assert_eq!(parse_id("550E8400-E29B-41D4-A716-446655440000"), Ok(BITS));
    assert_eq!(parse_id("urn:uuid:550e8400-e29b-41d4-a716-446655440000"), Ok(BITS));
    assert_eq!(parse_id("{550e8400-e29b-41d4-a716-446655440000}"), Ok(BITS));
}

#[test]
fn texts_that_are_no_id_are_refused_with_the_reason() {
    let texts =
        ["", "nonsense", "550e8400-e29b-41d4-a716-44665544000g", "550e8400-e29b-41d4-a716"];
    for text in texts {
        let expected = uuid::Uuid::parse_str(text).unwrap_err().to_string();
        assert_eq!(parse_id(text), Err(expected));
    }
}

#[test]
fn random_ids_are_marked_as_random() {
    let a = random_id();
    let b = random_id();
    assert_ne!(a, b);
    for id in [a, b] {
        assert_eq!((id >> 76) & 0xf, 4);
        assert_eq!((id >> 62) & 0x3, 2);
    }
}

#[test]
fn status_codes_are_those_of_grpc() {
    assert_eq!(ABORTED, tonic::Code::Aborted as i32);
    assert_eq!(UNIMPLEMENTED, tonic::Code::Unimplemented as i32);
}

#[test]
fn every_error_is_answered_with_its_message() {
    let refusal = Status { code: 5, message: "gone".to_string() };
    let errors = vec![
        (Error::Text("a".to_string()), "a"),
        (Error::TransportError("b".to_string()), "b"),
        (Error::RpcError(refusal), "gone"),
        (Error::UuidError("d".to_string()), "d"),
    ];
    for (error, message) in errors {
        assert_eq!(Status::from(error), Status::aborted(message.to_string()));
    }
}

#[test]
fn server_and_its_message() {
    let server = ServerInfo { id: BITS, addr: "http://a".to_string() };
    let message = Server::from(server.clone());
    assert_eq!(message, Server { id: TEXT.to_string(), addr: "http://a".to_string() });
    assert_eq!(ServerInfo::try_from(message), Ok(server));
    let bad = Server { id: "x".to_string(), addr: "http://a".to_string() };
    assert!(matches!(ServerInfo::try_from(bad), Err(Error::UuidError(_))));
}

#[test]
fn group_and_its_message() {
    let scheduler = ServerInfo { id: 7, addr: "http://s".to_string() };
    let group = GroupInfo::with_number(&scheduler, 3);
    let message = Group::from(group.clone());
    assert_eq!(message.number, 3);
    assert_eq!(GroupInfo::try_from(message), Ok(group));
    let empty = Group { number: 3, scheduler: None };
    assert_eq!(
        GroupInfo::try_from(empty),
        Err(Error::Text("Scheduler cannot be empty".to_string()))
    );
    assert_eq!(GroupInfo::new(&scheduler).number, 0);
}

#[test]
fn instances_and_their_message() {
    let instances = AppInstancesInfo {
        deployment: DeploymentInfo { id: 9, source: "src".to_string() },
        servers: vec![
            ServerInfo { id: 1, addr: "http://1".to_string() },
            ServerInfo { id: 2, addr: "http://2".to_string() },
        ],
    };
    let message = AppInstances::from(instances.clone());
    let deployment = Deployment { id: format_id(9), source: "src".to_string() };
    assert_eq!(message.deployment, Some(deployment));
    assert_eq!(message.servers.len(), 2);
    assert_eq!(AppInstancesInfo::try_from(message), Ok(instances));
    let empty = AppInstances { deployment: None, servers: vec![] };
    assert_eq!(
        AppInstancesInfo::try_from(empty),
        Err(Error::Text("Deployment cannot be empty".to_string()))
    );
}

#[test]
fn fresh_deployments_differ() {
    let a = DeploymentInfo::new("src".to_string());
    let b = DeploymentInfo::new("src".to_string());
    assert_eq!(a.source, b.source);
    assert_ne!(a.id, b.id);
}
