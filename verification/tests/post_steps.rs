use sylvia_iot_broker::models::{Application, Device, Network, Unit};
use sylvia_iot_broker::routes::v1::device::api::{
    post_device_step, PostDevAction, PostDevEvent, PostDevState,
};
use sylvia_iot_broker::routes::v1::device::request::PostDeviceData;
use sylvia_iot_broker::routes::v1::application::api::{
    post_application_step, PostAppAction, PostAppEvent, PostAppState,
};
use sylvia_iot_broker::routes::v1::application::request::PostApplicationData;
use sylvia_iot_broker::routes::v1::device_route::api::{
    post_device_route_step, RouteAction, RouteEvent, RouteState,
};
use sylvia_iot_broker::routes::v1::device_route::request::PostDeviceRouteData;
use sylvia_iot_broker::routes::v1::network::api::{
    post_network_step, PostNetAction, PostNetEvent, PostNetState,
};
use sylvia_iot_broker::routes::v1::network::request::PostNetworkData;
use sylvia_iot_broker::routes::v1::unit::api::{
    post_unit_step, PostUnitAction, PostUnitEvent, PostUnitState,
};
use sylvia_iot_broker::routes::v1::unit::request::PostUnitData;
use sylvia_iot_broker::routes::{ApiError, BrokerReq};

fn admin() -> Vec<(String, bool)> {
    vec![("admin".to_string(), true)]
}

fn dev(unit_id: &str) -> Device {
    Device {
        device_id: "d1".to_string(),
        unit_id: unit_id.to_string(),
        unit_code: Some("ucode".to_string()),
        network_id: "n1".to_string(),
        network_code: "ncode".to_string(),
        network_addr: "0a".to_string(),
        created_at: 0,
        modified_at: 0,
        profile: "p".to_string(),
        name: "".to_string(),
        info: vec![],
    }
}

fn app(unit_id: &str) -> Application {
    Application {
        application_id: "a1".to_string(),
        code: "acode".to_string(),
        unit_id: unit_id.to_string(),
        unit_code: "ucode".to_string(),
        created_at: 0,
        modified_at: 0,
        host_uri: "amqp://h".to_string(),
        name: "".to_string(),
        info: vec![],
    }
}

#[test]
fn route_step_checks() {
    let data = PostDeviceRouteData { device_id: "".to_string(), application_id: "a1".to_string() };
    let (_, act) = post_device_route_step(&data, "r1", 3, RouteState::Start, RouteEvent::Start);
    match act {
        RouteAction::Reply(ApiError::Param(m)) => assert_eq!(m, "`deviceId` must with at least one character"),
        other => panic!("{:?}", other),
    }
    let data = PostDeviceRouteData { device_id: "d1".to_string(), application_id: "a1".to_string() };
    let (_, act) = post_device_route_step(&data, "r1", 3, RouteState::DeviceLookup, RouteEvent::Device(None));
    assert!(matches!(act, RouteAction::Reply(ApiError::Req(BrokerReq::DeviceNotExist))));
    let st = RouteState::ApplicationLookup { device: dev("u1") };
    let (_, act) = post_device_route_step(&data, "r1", 3, st, RouteEvent::Application(Some(app("u2"))));
    assert!(matches!(act, RouteAction::Reply(ApiError::Req(BrokerReq::UnitNotMatch))));
    let st = RouteState::RouteCheck { device: dev("u1"), application: app("u1") };
    let (_, act) = post_device_route_step(&data, "r1", 3, st, RouteEvent::RouteFound(true));
    assert!(matches!(act, RouteAction::Reply(ApiError::Req(BrokerReq::RouteExist))));
    let st = RouteState::RouteCheck { device: dev("u1"), application: app("u1") };
    let (st, act) = post_device_route_step(&data, "r1", 3, st, RouteEvent::RouteFound(false));
    match act {
        RouteAction::Add(r) => {
            assert_eq!(r.route_id, "r1");
            assert_eq!(r.network_code, "ncode");
            assert_eq!(r.application_code, "acode");
            assert_eq!(r.created_at, 3);
        }
        other => panic!("{:?}", other),
    }
    let (_, act) = post_device_route_step(&data, "r1", 3, st, RouteEvent::Finished);
    match act {
        RouteAction::Finish { device_id } => assert_eq!(device_id, "d1"),
        other => panic!("{:?}", other),
    }
}

fn app_data(code: &str) -> PostApplicationData {
    PostApplicationData {
        code: code.to_string(),
        unit_id: "u1".to_string(),
        host_uri: "amqp://localhost".to_string(),
        name: None,
        info: None,
    }
}

#[test]
fn application_step_flow() {
    let data = app_data("bad code");
    let (_, act) = post_application_step("me", &admin(), &data, "a9", 4, PostAppState::Start, PostAppEvent::Start);
    match act {
        PostAppAction::Reply(ApiError::Param(m)) => assert_eq!(m, "`code` must be [A-Za-z0-9]{1}[A-Za-z0-9-_]*"),
        other => panic!("{:?}", other),
    }
    let data = app_data("App1");
    let (_, act) = post_application_step("me", &vec![], &data, "a9", 4, PostAppState::Start, PostAppEvent::Start);
    match act {
        PostAppAction::GetUnit(c) => {
            assert_eq!(c.unit_id, "u1");
            assert_eq!(c.owner_id, Some("me".to_string()));
            assert_eq!(c.member_id, None);
        }
        other => panic!("{:?}", other),
    }
    let (st, act) = post_application_step("me", &admin(), &data, "a9", 4, PostAppState::Start, PostAppEvent::Start);
    match act {
        PostAppAction::GetUnit(c) => assert_eq!(c.owner_id, None),
        other => panic!("{:?}", other),
    }
    let (_, act) = post_application_step("me", &admin(), &data, "a9", 4, PostAppState::UnitLookup, PostAppEvent::Unit(None));
    assert!(matches!(act, PostAppAction::Reply(ApiError::Req(BrokerReq::UnitNotExist))));
    let unit = Unit {
        unit_id: "u1".to_string(),
        code: "ucode".to_string(),
        created_at: 0,
        modified_at: 0,
        owner_id: "o".to_string(),
        member_ids: vec!["o".to_string()],
        name: "".to_string(),
        info: vec![],
    };
    let (st, act) = post_application_step("me", &admin(), &data, "a9", 4, st, PostAppEvent::Unit(Some(unit)));
    match act {
        PostAppAction::CheckCode { code, .. } => assert_eq!(code, "app1"),
        other => panic!("{:?}", other),
    }
    let (_, act) = post_application_step(
        "me",
        &admin(),
        &data,
        "a9",
        4,
        PostAppState::CodeCheck { unit_code: "ucode".to_string() },
        PostAppEvent::CodeTaken(true),
    );
    assert!(matches!(act, PostAppAction::Reply(ApiError::Req(BrokerReq::ApplicationExist))));
    let (st, act) = post_application_step("me", &admin(), &data, "a9", 4, st, PostAppEvent::CodeTaken(false));
    match act {
        PostAppAction::Add(a) => {
            assert_eq!(a.application_id, "a9");
            assert_eq!(a.unit_code, "ucode");
            assert_eq!(a.code, "app1");
        }
        other => panic!("{:?}", other),
    }
    let (_, act) = post_application_step("me", &admin(), &data, "a9", 4, st, PostAppEvent::Finished);
    match act {
        PostAppAction::Finish { mgr_key, application_id } => {
            assert_eq!(mgr_key, "ucode.app1");
            assert_eq!(application_id, "a9");
        }
        other => panic!("{:?}", other),
    }
}

#[test]
fn unit_step_flow() {
    let data = PostUnitData { code: "U1".to_string(), owner_id: Some("o2".to_string()), name: None, info: None };
    let (st, act) = post_unit_step("me", &admin(), &data, "u9", 2, PostUnitState::Start, PostUnitEvent::Start);
    assert_eq!(st, PostUnitState::OwnerCheck);
    match act {
        PostUnitAction::CheckOwner { owner_id } => assert_eq!(owner_id, "o2"),
        other => panic!("{:?}", other),
    }
    let (_, act) = post_unit_step("me", &admin(), &data, "u9", 2, st, PostUnitEvent::OwnerFound(false));
    assert!(matches!(act, PostUnitAction::Reply(ApiError::Req(BrokerReq::OwnerNotExist))));
    let (st, act) = post_unit_step("me", &admin(), &data, "u9", 2, st, PostUnitEvent::OwnerFound(true));
    assert_eq!(st, PostUnitState::CodeLookup);
    match act {
        PostUnitAction::GetUnit { code } => assert_eq!(code, "u1"),
        other => panic!("{:?}", other),
    }
    let (_, act) = post_unit_step("me", &admin(), &data, "u9", 2, st, PostUnitEvent::CodeTaken(true));
    assert!(matches!(act, PostUnitAction::Reply(ApiError::Req(BrokerReq::UnitExist))));
    let (st, act) = post_unit_step("me", &admin(), &data, "u9", 2, st, PostUnitEvent::CodeTaken(false));
    match act {
        PostUnitAction::Add(u) => {
            assert_eq!(u.owner_id, "o2");
            assert_eq!(u.member_ids, vec!["o2"]);
            assert_eq!(u.unit_id, "u9");
        }
        other => panic!("{:?}", other),
    }
    let (_, act) = post_unit_step("me", &admin(), &data, "u9", 2, st, PostUnitEvent::Finished);
    match act {
        PostUnitAction::Finish { unit_id } => assert_eq!(unit_id, "u9"),
        other => panic!("{:?}", other),
    }
    let user = vec![("user".to_string(), true)];
    let (st, act) = post_unit_step("me", &user, &data, "u9", 2, PostUnitState::Start, PostUnitEvent::Start);
    assert_eq!(st, PostUnitState::CodeLookup);
    assert!(matches!(act, PostUnitAction::GetUnit { .. }));
    let (_, act) = post_unit_step("me", &user, &data, "u9", 2, st, PostUnitEvent::CodeTaken(false));
    match act {
        PostUnitAction::Add(u) => assert_eq!(u.owner_id, "me"),
        other => panic!("{:?}", other),
    }
}

#[test]
fn network_step_flow() {
    let data = PostNetworkData {
        code: "Net1".to_string(),
        unit_id: None,
        host_uri: "mqtt://localhost".to_string(),
        name: None,
        info: None,
    };
    let (st, act) = post_network_step("me", &admin(), &data, "n9", 6, PostNetState::Start, PostNetEvent::Start);
    match act {
        PostNetAction::CheckCode { unit_id, code } => {
            assert_eq!(unit_id, None);
            assert_eq!(code, "net1");
        }
        other => panic!("{:?}", other),
    }
    let (_, act) = post_network_step(
        "me",
        &admin(),
        &data,
        "n9",
        6,
        PostNetState::CodeCheck { unit_code: None },
        PostNetEvent::CodeTaken(true),
    );
    assert!(matches!(act, PostNetAction::Reply(ApiError::Req(BrokerReq::NetworkExist))));
    let (st, act) = post_network_step("me", &admin(), &data, "n9", 6, st, PostNetEvent::CodeTaken(false));
    match act {
        PostNetAction::Add(n) => {
            assert_eq!(n.network_id, "n9");
            assert_eq!(n.unit_id, None);
        }
        other => panic!("{:?}", other),
    }
    let (_, act) = post_network_step("me", &admin(), &data, "n9", 6, st, PostNetEvent::Finished);
    match act {
        PostNetAction::Finish { mgr_key, network_id, .. } => {
            assert_eq!(mgr_key, ".net1");
            assert_eq!(network_id, "n9");
        }
        other => panic!("{:?}", other),
    }
    let user = vec![("user".to_string(), true)];
    let (_, act) = post_network_step("me", &user, &data, "n9", 6, PostNetState::Start, PostNetEvent::Start);
    match act {
        PostNetAction::Reply(ApiError::Param(m)) => assert_eq!(m, "missing `unitId`"),
        other => panic!("{:?}", other),
    }
}

#[test]
fn device_step_flow() {
    let data = PostDeviceData {
        unit_id: "u1".to_string(),
        network_id: "n1".to_string(),
        network_addr: "0A".to_string(),
        profile: None,
        name: None,
        info: None,
    };
    let user = vec![("user".to_string(), true)];
    let unit = Unit {
        unit_id: "u1".to_string(),
        code: "ucode".to_string(),
        created_at: 0,
        modified_at: 0,
        owner_id: "o".to_string(),
        member_ids: vec!["o".to_string()],
        name: "".to_string(),
        info: vec![],
    };
    let net = |unit_id: Option<&str>| Network {
        network_id: "n1".to_string(),
        code: "ncode".to_string(),
        unit_id: unit_id.map(|s| s.to_string()),
        unit_code: unit_id.map(|_| "ucode".to_string()),
        created_at: 0,
        modified_at: 0,
        host_uri: "mqtt://h".to_string(),
        name: "".to_string(),
        info: vec![],
    };
    let (_, act) = post_device_step("me", &user, &data, "d9", 8, PostDevState::UnitLookup, PostDevEvent::Unit(None));
    assert!(matches!(act, PostDevAction::Reply(ApiError::Req(BrokerReq::UnitNotExist))));
    let st = PostDevState::NetworkLookup { unit: unit };
    let (st, act) = post_device_step("me", &user, &data, "d9", 8, st, PostDevEvent::Network(Some(net(Some("u1")))));
    match act {
        PostDevAction::CheckAddr { network_addr, .. } => assert_eq!(network_addr, "0A"),
        other => panic!("{:?}", other),
    }
    let (st, act) = post_device_step("me", &user, &data, "d9", 8, st, PostDevEvent::AddrTaken(false));
    match act {
        PostDevAction::Add(d) => {
            assert_eq!(d.network_addr, "0a");
            assert_eq!(d.unit_code, Some("ucode".to_string()));
        }
        other => panic!("{:?}", other),
    }
    let (_, act) = post_device_step("me", &user, &data, "d9", 8, st, PostDevEvent::Finished);
    match act {
        PostDevAction::Finish { mgr_key, network_addr, device_id } => {
            assert_eq!(mgr_key, "ucode.ncode");
            assert_eq!(network_addr, "0a");
            assert_eq!(device_id, "d9");
        }
        other => panic!("{:?}", other),
    }
    let unit2 = Unit {
        unit_id: "u1".to_string(),
        code: "ucode".to_string(),
        created_at: 0,
        modified_at: 0,
        owner_id: "o".to_string(),
        member_ids: vec![],
        name: "".to_string(),
        info: vec![],
    };
    let (_, act) = post_device_step(
        "me",
        &user,
        &data,
        "d9",
        8,
        PostDevState::NetworkLookup { unit: unit2 },
        PostDevEvent::Network(Some(net(None))),
    );
    assert!(matches!(act, PostDevAction::Reply(ApiError::Req(BrokerReq::NetworkNotExist))));
}
