use sylvia_iot_broker::models::{Application, Device, Network, Unit};
use sylvia_iot_broker::routes::middleware::{request_token, token_status};
use sylvia_iot_broker::routes::v1::application::api::{
    dldata_step, DlAction, DlDataDeviceCond, DlEvent, DlState,
};
use sylvia_iot_broker::routes::v1::device::api::{
    post_device_bulk_del_step, post_device_bulk_step, post_device_range_step, BulkAction,
    BulkEvent, BulkRsc, BulkState,
};
use sylvia_iot_broker::routes::v1::device::request::{PostDeviceBulkData, PostDeviceRangeData};
use sylvia_iot_broker::routes::v1::device_route::api::{
    post_device_route_bulk_del_step, post_device_route_bulk_step, RangeAction, RangeEvent,
    RangeState, RouteDelAction, RouteDelEvent, RouteDelState,
};
use sylvia_iot_broker::routes::v1::device_route::request::PostDeviceRouteBulkData;
use sylvia_iot_broker::routes::v1::list::{ListAction, ListEvent, ListState};
use sylvia_iot_broker::routes::v1::managers::{on_mgr_ctrl, MgrCtrlMsg, MgrMap};
use sylvia_iot_broker::routes::v1::network_route::api::{
    post_network_route_step, NetRouteAction, NetRouteEvent, NetRouteState,
};
use sylvia_iot_broker::routes::v1::network_route::request::PostNetworkRouteData;
use sylvia_iot_broker::routes::v1::unit::api::{get_unit_list_step, owner_check_token, owner_status};
use sylvia_iot_broker::routes::v1::unit::request::GetUnitListQuery;
use sylvia_iot_broker::routes::{ApiError, BrokerReq};

fn network(unit_id: Option<&str>) -> Network {
    Network {
        network_id: "n1".to_string(),
        code: "ncode".to_string(),
        unit_id: unit_id.map(|s| s.to_string()),
        unit_code: unit_id.map(|_| "ucode".to_string()),
        created_at: 0,
        modified_at: 0,
        host_uri: "mqtt://h".to_string(),
        name: "".to_string(),
        info: vec![],
    }
}

fn application(unit_id: &str) -> Application {
    Application {
        application_id: "a1".to_string(),
        code: "acode".to_string(),
        unit_id: unit_id.to_string(),
        unit_code: "ucode".to_string(),
        created_at: 0,
        modified_at: 0,
        host_uri: "amqp://h".to_string(),
        name: "".to_string(),
        info: vec![],
    }
}

fn unit() -> Unit {
    Unit {
        unit_id: "u1".to_string(),
        code: "ucode".to_string(),
        created_at: 0,
        modified_at: 0,
        owner_id: "me".to_string(),
        member_ids: vec!["me".to_string()],
        name: "".to_string(),
        info: vec![],
    }
}

fn device() -> Device {
    Device {
        device_id: "d1".to_string(),
        unit_id: "u1".to_string(),
        unit_code: Some("ucode".to_string()),
        network_id: "n1".to_string(),
        network_code: "ncode".to_string(),
        network_addr: "0a".to_string(),
        created_at: 0,
        modified_at: 0,
        profile: "p".to_string(),
        name: "".to_string(),
        info: vec![],
    }
}

#[test]
fn network_route_unit_not_match_and_exist() {
    let data = PostNetworkRouteData { network_id: "n1".to_string(), application_id: "a1".to_string() };
    let st = NetRouteState::ApplicationLookup { network: network(Some("u1")) };
    let (_, act) = post_network_route_step(&data, "r1", 1, st, NetRouteEvent::Application(Some(application("u2"))));
    assert!(matches!(act, NetRouteAction::Reply(ApiError::Req(BrokerReq::UnitNotMatch))));
    let st = NetRouteState::ApplicationLookup { network: network(None) };
    let (st, act) = post_network_route_step(&data, "r1", 1, st, NetRouteEvent::Application(Some(application("u2"))));
    assert!(matches!(act, NetRouteAction::FindRoute { .. }));
    let (_, act) = post_network_route_step(
        &data,
        "r1",
        1,
        NetRouteState::RouteCheck { network: network(None), application: application("u2") },
        NetRouteEvent::RouteFound(true),
    );
    assert!(matches!(act, NetRouteAction::Reply(ApiError::Req(BrokerReq::RouteExist))));
    let (st, act) = post_network_route_step(&data, "r1", 1, st, NetRouteEvent::RouteFound(false));
    match act {
        NetRouteAction::Add(r) => {
            assert_eq!(r.route_id, "r1");
            assert_eq!(r.unit_id, "u2");
            assert_eq!(r.network_code, "ncode");
        }
        other => panic!("{:?}", other),
    }
    let (_, act) = post_network_route_step(&data, "r1", 1, st, NetRouteEvent::Finished);
    assert!(matches!(act, NetRouteAction::Finish(_)));
}

#[test]
fn unit_list_step_member_filter() {
    let q = GetUnitListQuery {
        owner: None,
        member: None,
        contains: None,
        offset: None,
        limit: None,
        sort: None,
        format: None,
    };
    let roles = vec![("user".to_string(), true)];
    let (st, act) = get_unit_list_step("me", &roles, &q, ListState::Start, ListEvent::Start);
    assert_eq!(st, ListState::FirstPage);
    match act {
        ListAction::Query(o) => assert_eq!(o.cond.member_id, Some("me".to_string())),
        other => panic!("{:?}", other),
    }
    let page = ListEvent::Page { items: vec!["{}".to_string()], has_cursor: false };
    let (_, act) = get_unit_list_step("me", &roles, &q, ListState::FirstPage, page);
    match act {
        ListAction::Reply(Ok(t)) => assert_eq!(t, "{\"data\":[{}]}"),
        other => panic!("{:?}", other),
    }
}

#[test]
fn device_bulk_add_and_delete() {
    let data = PostDeviceBulkData {
        unit_id: "u1".to_string(),
        network_id: "n1".to_string(),
        network_addrs: vec!["0A".to_string(), "0b".to_string()],
        profile: None,
    };
    let roles = vec![("user".to_string(), true)];
    let ids = vec!["d1".to_string(), "d2".to_string()];
    let (_, act) = post_device_bulk_step("me", &roles, &data, &ids, 9, BulkState::Start, BulkEvent::Start);
    match act {
        BulkAction::GetUnit(c) => assert_eq!(c.owner_id, Some("me".to_string())),
        other => panic!("{:?}", other),
    }
    let st = BulkState::NetworkLookup { unit: unit() };
    let (st, act) = post_device_bulk_step("me", &roles, &data, &ids, 9, st, BulkEvent::Network(Some(network(Some("u1")))));
    match act {
        BulkAction::Add(v) => {
            assert_eq!(v.len(), 2);
            assert_eq!(v[0].network_addr, "0a");
            assert_eq!(v[0].name, "0a");
            assert_eq!(v[1].device_id, "d2");
        }
        other => panic!("{:?}", other),
    }
    let (_, act) = post_device_bulk_step("me", &roles, &data, &ids, 9, st, BulkEvent::Finished);
    match act {
        BulkAction::Finish { mgr_key } => assert_eq!(mgr_key, "ucode.ncode"),
        other => panic!("{:?}", other),
    }
    let st = BulkState::NetworkLookup { unit: unit() };
    let (_, act) = post_device_bulk_step("me", &roles, &data, &ids, 9, st, BulkEvent::Network(Some(network(None))));
    assert!(matches!(act, BulkAction::Reply(ApiError::Req(BrokerReq::NetworkNotExist))));
    let st = BulkState::NetworkLookup { unit: unit() };
    let (mut st, act) = post_device_bulk_del_step("me", &roles, &data, st, BulkEvent::Network(Some(network(Some("u1")))));
    let mut order = vec![];
    let mut act = act;
    loop {
        match act {
            BulkAction::Delete { rsc, network_addrs, .. } => {
                assert_eq!(network_addrs, vec!["0a", "0b"]);
                order.push(rsc);
            }
            BulkAction::Finish { .. } => break,
            other => panic!("{:?}", other),
        }
        let (s2, a2) = post_device_bulk_del_step("me", &roles, &data, st, BulkEvent::Finished);
        st = s2;
        act = a2;
    }
    assert_eq!(order, vec![BulkRsc::DeviceRoute, BulkRsc::DlDataBuffer, BulkRsc::Device]);
}

#[test]
fn device_range_add_names() {
    let data = PostDeviceRangeData {
        unit_id: "u1".to_string(),
        network_id: "n1".to_string(),
        start_addr: "0e".to_string(),
        end_addr: "10".to_string(),
        profile: Some("p1".to_string()),
    };
    let roles = vec![("admin".to_string(), true)];
    let ids = vec!["a".to_string(), "b".to_string(), "c".to_string()];
    let st = BulkState::NetworkLookup { unit: unit() };
    let (_, act) = post_device_range_step("me", &roles, &data, &ids, 9, st, BulkEvent::Network(Some(network(None))));
    match act {
        BulkAction::Add(v) => {
            let addrs: Vec<&str> = v.iter().map(|d| d.network_addr.as_str()).collect();
            assert_eq!(addrs, vec!["0e", "0f", "10"]);
            assert_eq!(v[2].profile, "p1");
            assert_eq!(v[0].unit_code, None);
        }
        other => panic!("{:?}", other),
    }
}

#[test]
fn device_route_bulk_steps() {
    let data = PostDeviceRouteBulkData {
        application_id: "a1".to_string(),
        network_id: "n1".to_string(),
        network_addrs: vec!["0A".to_string()],
    };
    let st = RangeState::NetworkLookup { application: application("u1") };
    let (_, act) = post_device_route_bulk_step(&data, 3, st, RangeEvent::Network(Some(network(Some("u1")))));
    match act {
        RangeAction::ListDevices { network_addrs, .. } => assert_eq!(network_addrs, vec!["0a"]),
        other => panic!("{:?}", other),
    }
    let (_, act) = post_device_route_bulk_del_step(&data, RouteDelState::ApplicationLookup, RouteDelEvent::Application(false));
    assert!(matches!(act, RouteDelAction::Reply(ApiError::Req(BrokerReq::ApplicationNotExist))));
    let (st, act) = post_device_route_bulk_del_step(&data, RouteDelState::NetworkLookup, RouteDelEvent::Network(Some(network(Some("u1")))));
    match act {
        RouteDelAction::Delete { application_id, network_addrs, .. } => {
            assert_eq!(application_id, "a1");
            assert_eq!(network_addrs, vec!["0a"]);
        }
        other => panic!("{:?}", other),
    }
    let (_, act) = post_device_route_bulk_del_step(&data, st, RouteDelEvent::Finished);
    match act {
        RouteDelAction::Finish { unit_id, .. } => assert_eq!(unit_id, Some("u1".to_string())),
        other => panic!("{:?}", other),
    }
}

#[test]
fn dldata_steps() {
    let none: Option<String> = None;
    let code = Some("ncode".to_string());
    let addr = Some("0a".to_string());
    let step = |st, ev| dldata_step("u1", "ucode", "a1", "acode", "c1", &none, &code, &addr, "x1", 5, st, ev);
    let (_, act) = step(DlState::Start, DlEvent::Start);
    match act {
        DlAction::FindDevice(DlDataDeviceCond::ByAddr { unit_code, network_addr, .. }) => {
            assert_eq!(unit_code, "ucode");
            assert_eq!(network_addr, "0a");
        }
        other => panic!("{:?}", other),
    }
    let (st, act) = step(DlState::DeviceLookup, DlEvent::Device(Ok(Some(device()))));
    match act {
        DlAction::CheckMgr { net_mgr_key } => assert_eq!(net_mgr_key, "ucode.ncode"),
        other => panic!("{:?}", other),
    }
    let (st2, act) = step(st, DlEvent::MgrExists(true));
    match act {
        DlAction::AddBuffer(b) => {
            assert_eq!(b.data_id, "x1");
            assert_eq!(b.expired_at, 5 + 86400000);
        }
        other => panic!("{:?}", other),
    }
    let (st3, act) = step(st2, DlEvent::Buffered);
    assert!(matches!(act, DlAction::Send { .. }));
    let (_, act) = step(st3, DlEvent::Sent(Err("down".to_string())));
    match act {
        DlAction::Reply(r) => {
            assert_eq!(r.error, Some("err_int_msg".to_string()));
            assert_eq!(r.message, Some("send data with error: down".to_string()));
        }
        other => panic!("{:?}", other),
    }
    let (st, _) = step(DlState::DeviceLookup, DlEvent::Device(Ok(Some(device()))));
    let (_, act) = step(st, DlEvent::MgrExists(false));
    match act {
        DlAction::Reply(r) => assert_eq!(r.error, Some("err_broker_network_not_exist".to_string())),
        other => panic!("{:?}", other),
    }
}

#[test]
fn token_and_status_decisions() {
    match request_token(Ok(None)) {
        Err(ApiError::Param(m)) => assert_eq!(m, "missing token"),
        other => panic!("{:?}", other),
    }
    assert_eq!(request_token(Ok(Some("Bearer t".to_string()))).unwrap(), "Bearer t");
    assert!(token_status(200, "200 OK").is_ok());
    assert!(matches!(token_status(401, "401"), Err(ApiError::Auth)));
    match token_status(500, "500 Internal Server Error") {
        Err(ApiError::IntMsg(m)) => assert_eq!(m, "auth error with status code: 500 Internal Server Error"),
        other => panic!("{:?}", other),
    }
    match owner_check_token(Ok(None)) {
        Err(ApiError::Param(m)) => assert_eq!(m, "invalid Authorization"),
        other => panic!("{:?}", other),
    }
    assert_eq!(owner_status(200, "").unwrap(), true);
    assert_eq!(owner_status(404, "").unwrap(), false);
    assert!(matches!(owner_status(401, ""), Err(ApiError::Auth)));
    match owner_status(503, "503 Service Unavailable") {
        Err(ApiError::IntMsg(m)) => assert_eq!(m, "check owner with status code: 503 Service Unavailable"),
        other => panic!("{:?}", other),
    }
}

#[test]
fn managers_follow_control_messages() {
    let mut mgrs: MgrMap<u32> = MgrMap::new();
    let add = |name: &str, m: u32| MgrCtrlMsg::AddManager { unit_code: "u".to_string(), name: name.to_string(), mgr: m };
    assert_eq!(on_mgr_ctrl(&mut mgrs, add("a", 1)), None);
    assert_eq!(mgrs.get("u.a"), Some(&1));
    assert_eq!(on_mgr_ctrl(&mut mgrs, add("a", 2)), Some(1));
    assert_eq!(on_mgr_ctrl(&mut mgrs, add("b", 3)), None);
    assert_eq!(mgrs.get("u.a"), Some(&2));
    assert_eq!(on_mgr_ctrl(&mut mgrs, MgrCtrlMsg::DelManager { key: "u.a".to_string() }), Some(2));
    assert!(!mgrs.contains("u.a"));
    assert!(mgrs.contains("u.b"));
    assert_eq!(on_mgr_ctrl(&mut mgrs, MgrCtrlMsg::DelManager { key: "u.a".to_string() }), None);
    assert_eq!(on_mgr_ctrl(&mut mgrs, MgrCtrlMsg::Other), None);
}
