use sylvia_iot_broker::models::{Application, Device, Network};
use sylvia_iot_broker::routes::v1::application::api::device_route_dldata;
use sylvia_iot_broker::routes::v1::device::api::{
    get_device_list_step, patch_device_step, PatchAction, PatchEvent, PatchState,
};
use sylvia_iot_broker::routes::v1::device::request::{GetDeviceListQuery, ListFormat, PatchDeviceData};
use sylvia_iot_broker::routes::v1::device_route::api::{
    post_device_route_range_step, RangeAction, RangeEvent, RangeState,
};
use sylvia_iot_broker::routes::v1::device_route::request::PostDeviceRouteRangeData;
use sylvia_iot_broker::routes::v1::network::api::{
    get_network_list_step, uldata_step, UlAction, UlDispatch, UlEvent,
};
use sylvia_iot_broker::routes::v1::network::request::GetNetworkListQuery;
use sylvia_iot_broker::routes::v1::unit::api::{
    del_unit_rsc_step, DelUnitAction, DelUnitEvent, DelUnitRsc, DelUnitState,
};
use sylvia_iot_broker::routes::v1::list::{ListAction, ListEvent, ListState};
use sylvia_iot_broker::routes::{ApiError, BrokerReq};

fn user_roles() -> Vec<(String, bool)> {
    vec![("user".to_string(), true)]
}

fn admin_roles() -> Vec<(String, bool)> {
    vec![("admin".to_string(), true)]
}

fn device_query(unit: Option<&str>, format: Option<ListFormat>) -> GetDeviceListQuery {
    GetDeviceListQuery {
        unit: unit.map(|s| s.to_string()),
        network: None,
        addr: None,
        profile: Some("p1".to_string()),
        contains: None,
        offset: None,
        limit: None,
        sort: None,
        format,
    }
}

fn device(id: &str, unit_code: Option<&str>) -> Device {
    Device {
        device_id: id.to_string(),
        unit_id: "unit1".to_string(),
        unit_code: unit_code.map(|s| s.to_string()),
        network_id: "net1".to_string(),
        network_code: "code1".to_string(),
        network_addr: "0a".to_string(),
        created_at: 0,
        modified_at: 0,
        profile: "p1".to_string(),
        name: "".to_string(),
        info: vec![],
    }
}

fn network(id: &str, unit_id: Option<&str>) -> Network {
    Network {
        network_id: id.to_string(),
        code: "code2".to_string(),
        unit_id: unit_id.map(|s| s.to_string()),
        unit_code: unit_id.map(|_| "ucode".to_string()),
        created_at: 0,
        modified_at: 0,
        host_uri: "amqp://host".to_string(),
        name: "".to_string(),
        info: vec![],
    }
}

fn application() -> Application {
    Application {
        application_id: "app1".to_string(),
        code: "appcode".to_string(),
        unit_id: "unit1".to_string(),
        unit_code: "ucode".to_string(),
        created_at: 0,
        modified_at: 0,
        host_uri: "amqp://host".to_string(),
        name: "".to_string(),
        info: vec![],
    }
}

#[test]
fn list_step_missing_unit() {
    let q = device_query(None, None);
    let (st, act) = get_device_list_step("u1", &user_roles(), &q, ListState::Start, ListEvent::Start);
    assert_eq!(st, ListState::Done);
    match act {
        ListAction::Reply(Err(ApiError::Param(m))) => assert_eq!(m, "missing `unit`"),
        other => panic!("{:?}", other),
    }
}

#[test]
fn list_step_unit_check_and_not_found() {
    let q = device_query(Some("unit1"), None);
    let roles = user_roles();
    let (st, act) = get_device_list_step("u1", &roles, &q, ListState::Start, ListEvent::Start);
    assert_eq!(st, ListState::UnitCheck);
    match act {
        ListAction::CheckUnit(c) => {
            assert_eq!(c.unit_id, "unit1");
            assert_eq!(c.member_id, Some("u1".to_string()));
            assert_eq!(c.owner_id, None);
        }
        other => panic!("{:?}", other),
    }
    let (st, act) = get_device_list_step("u1", &roles, &q, st, ListEvent::UnitFound(false));
    assert_eq!(st, ListState::Done);
    assert!(matches!(act, ListAction::Reply(Err(ApiError::Req(BrokerReq::UnitNotExist)))));
}

#[test]
fn list_step_unit_check_db_error() {
    let q = device_query(Some("unit1"), None);
    let (_, act) = get_device_list_step(
        "u1",
        &user_roles(),
        &q,
        ListState::UnitCheck,
        ListEvent::DbError("down".to_string()),
    );
    match act {
        ListAction::Reply(Err(ApiError::Db(m))) => assert_eq!(m, "check unit error: down"),
        other => panic!("{:?}", other),
    }
}

#[test]
fn list_step_whole_list_and_stream() {
    let q = device_query(None, Some(ListFormat::Array));
    let roles = admin_roles();
    let (st, act) = get_device_list_step("u1", &roles, &q, ListState::Start, ListEvent::Start);
    assert_eq!(st, ListState::FirstPage);
    match act {
        ListAction::Query(o) => assert_eq!(o.cond.profile, Some("p1".to_string())),
        other => panic!("{:?}", other),
    }
    let page = ListEvent::Page { items: vec!["1".to_string(), "2".to_string()], has_cursor: false };
    let (st2, act) = get_device_list_step("u1", &roles, &q, ListState::FirstPage, page);
    assert_eq!(st2, ListState::Done);
    match act {
        ListAction::Reply(Ok(t)) => assert_eq!(t, "[1,2]"),
        other => panic!("{:?}", other),
    }
    let page = ListEvent::Page { items: vec!["1".to_string()], has_cursor: true };
    let (st3, act) = get_device_list_step("u1", &roles, &q, ListState::FirstPage, page);
    assert_eq!(st3, ListState::Paging);
    match act {
        ListAction::Send { chunk, next: Some(o) } => {
            assert_eq!(chunk, "[1");
            assert_eq!(o.cond.profile, None);
        }
        other => panic!("{:?}", other),
    }
    let page = ListEvent::Page { items: vec!["2".to_string()], has_cursor: false };
    let (st4, act) = get_device_list_step("u1", &roles, &q, ListState::Paging, page);
    assert_eq!(st4, ListState::Done);
    match act {
        ListAction::Send { chunk, next: None } => assert_eq!(chunk, ",2]"),
        other => panic!("{:?}", other),
    }
    let (st5, act) = get_device_list_step(
        "u1",
        &roles,
        &q,
        ListState::Paging,
        ListEvent::DbError("x".to_string()),
    );
    assert_eq!(st5, ListState::Done);
    assert!(matches!(act, ListAction::Stop));
}

#[test]
fn list_step_first_page_db_error() {
    let q = device_query(None, None);
    let (_, act) = get_device_list_step(
        "u1",
        &admin_roles(),
        &q,
        ListState::FirstPage,
        ListEvent::DbError("x".to_string()),
    );
    match act {
        ListAction::Reply(Err(ApiError::Db(m))) => assert_eq!(m, "x"),
        other => panic!("{:?}", other),
    }
}

#[test]
fn network_list_step_public_networks() {
    let q = GetNetworkListQuery {
        unit: Some("".to_string()),
        code: None,
        contains: None,
        offset: None,
        limit: None,
        sort: None,
        format: None,
    };
    let (st, act) = get_network_list_step("u1", &admin_roles(), &q, ListState::Start, ListEvent::Start);
    assert_eq!(st, ListState::FirstPage);
    match act {
        ListAction::Query(o) => assert_eq!(o.cond.unit_id, Some(None)),
        other => panic!("{:?}", other),
    }
}

#[test]
fn dldata_route_cases() {
    match device_route_dldata("ucode", "c1", Err("broken".to_string())) {
        Err(r) => {
            assert_eq!(r.correlation_id, "c1");
            assert_eq!(r.error, Some("err_db".to_string()));
            assert_eq!(r.message, Some("broken".to_string()));
            assert_eq!(r.data_id, None);
        }
        Ok(_) => panic!("expected an error"),
    }
    match device_route_dldata("ucode", "c2", Ok(None)) {
        Err(r) => {
            assert_eq!(r.correlation_id, "c2");
            assert_eq!(r.error, Some("err_broker_device_not_exist".to_string()));
            assert_eq!(r.message, None);
        }
        Ok(_) => panic!("expected an error"),
    }
    match device_route_dldata("ucode", "c3", Ok(Some(device("d1", Some("u"))))) {
        Ok(r) => {
            assert_eq!(r.net_mgr_key, "ucode.code1");
            assert_eq!(r.device_id, "d1");
            assert_eq!(r.network_addr, "0a");
            assert_eq!(r.profile, "p1");
        }
        Err(e) => panic!("{:?}", e),
    }
    match device_route_dldata("ucode", "c4", Ok(Some(device("d2", None)))) {
        Ok(r) => assert_eq!(r.net_mgr_key, ".code1"),
        Err(e) => panic!("{:?}", e),
    }
}

#[test]
fn uldata_sent_once() {
    let mut d = UlDispatch::new();
    let key = "u.app".to_string();
    assert!(!d.route_send(false, &key, true));
    assert!(!d.route_send(true, &key, false));
    assert!(d.route_send(true, &key, true));
    d.mark_sent(&key);
    assert!(!d.route_send(true, &key, true));
}

#[test]
fn del_unit_steps_in_order() {
    let (st, act) = del_unit_rsc_step("unit1", "ucode", DelUnitState::Start, DelUnitEvent::Start);
    assert_eq!(st, DelUnitState::ListingApplications);
    assert!(matches!(act, DelUnitAction::ListApplications { .. }));
    let page = DelUnitEvent::Page { codes: vec!["a1".to_string(), "a2".to_string()], has_cursor: false };
    let (st, act) = del_unit_rsc_step("unit1", "ucode", st, page);
    assert_eq!(st, DelUnitState::ClosingApplications { more: false });
    match act {
        DelUnitAction::CloseApplicationMgrs(keys) => assert_eq!(keys, vec!["ucode.a1", "ucode.a2"]),
        other => panic!("{:?}", other),
    }
    let (st, act) = del_unit_rsc_step("unit1", "ucode", st, DelUnitEvent::Finished);
    assert_eq!(st, DelUnitState::ListingNetworks);
    assert!(matches!(act, DelUnitAction::ListNetworks { .. }));
    let page = DelUnitEvent::Page { codes: vec![], has_cursor: false };
    let (mut st, _) = del_unit_rsc_step("unit1", "ucode", st, page);
    let mut order = vec![];
    loop {
        let (next, act) = del_unit_rsc_step("unit1", "ucode", st, DelUnitEvent::Finished);
        st = next;
        match act {
            DelUnitAction::Delete { rsc, unit_id } => {
                assert_eq!(unit_id, "unit1");
                order.push(rsc);
            }
            DelUnitAction::Reply(Ok(())) => break,
            other => panic!("{:?}", other),
        }
    }
    assert_eq!(
        order,
        vec![
            DelUnitRsc::NetworkRoute,
            DelUnitRsc::DeviceRoute,
            DelUnitRsc::DlDataBuffer,
            DelUnitRsc::Device,
            DelUnitRsc::Network,
            DelUnitRsc::Application,
            DelUnitRsc::Unit,
        ]
    );
    assert_eq!(st, DelUnitState::Done);
}

#[test]
fn del_unit_db_error_stops() {
    let (st, act) = del_unit_rsc_step(
        "unit1",
        "ucode",
        DelUnitState::Deleting(DelUnitRsc::Device),
        DelUnitEvent::DbError("gone".to_string()),
    );
    assert_eq!(st, DelUnitState::Done);
    match act {
        DelUnitAction::Reply(Err(ApiError::Db(m))) => assert_eq!(m, "gone"),
        other => panic!("{:?}", other),
    }
    let (_, act) = del_unit_rsc_step("unit1", "ucode", st, DelUnitEvent::Finished);
    assert!(matches!(act, DelUnitAction::Stop));
}

fn patch_data(network_id: Option<&str>, addr: Option<&str>, profile: Option<&str>) -> PatchDeviceData {
    PatchDeviceData {
        network_id: network_id.map(|s| s.to_string()),
        network_addr: addr.map(|s| s.to_string()),
        profile: profile.map(|s| s.to_string()),
        name: None,
        info: None,
    }
}

#[test]
fn patch_step_errors() {
    let roles = user_roles();
    let data = patch_data(None, None, None);
    let (st, act) = patch_device_step(&roles, "d1", &data, 5, PatchState::Start, PatchEvent::Start);
    assert!(matches!(st, PatchState::Done));
    match act {
        PatchAction::Reply(ApiError::Param(m)) => assert_eq!(m, "at least one parameter"),
        other => panic!("{:?}", other),
    }
    let data = patch_data(Some("net2"), Some("0b"), None);
    let (st, act) = patch_device_step(&roles, "d1", &data, 5, PatchState::Start, PatchEvent::Start);
    assert!(matches!(st, PatchState::DeviceLookup));
    assert!(matches!(act, PatchAction::GetDevice { .. }));
    let (_, act) = patch_device_step(&roles, "d1", &data, 5, PatchState::DeviceLookup, PatchEvent::Device(None));
    assert!(matches!(act, PatchAction::Reply(ApiError::NotFound)));
    let (st, act) = patch_device_step(
        &roles,
        "d1",
        &data,
        5,
        PatchState::DeviceLookup,
        PatchEvent::Device(Some(device("d1", Some("ucode")))),
    );
    assert!(matches!(st, PatchState::NetworkLookup { .. }));
    match act {
        PatchAction::GetNetwork { network_id } => assert_eq!(network_id, "net2"),
        other => panic!("{:?}", other),
    }
    let (_, act) = patch_device_step(&roles, "d1", &data, 5, st, PatchEvent::Network(Some(network("net2", Some("unit9")))));
    assert!(matches!(act, PatchAction::Reply(ApiError::Req(BrokerReq::NetworkNotExist))));
    let st = PatchState::AddrCheck { device: device("d1", Some("ucode")), network: None };
    let (_, act) = patch_device_step(&roles, "d1", &data, 5, st, PatchEvent::AddrTaken(true));
    assert!(matches!(act, PatchAction::Reply(ApiError::Req(BrokerReq::NetworkAddrExist))));
}

#[test]
fn patch_step_update_and_finish() {
    let roles = user_roles();
    let data = patch_data(Some("net2"), Some("0b"), Some("p2"));
    let st = PatchState::NetworkLookup { device: device("d1", Some("ucode")) };
    let (st, act) = patch_device_step(&roles, "d1", &data, 5, st, PatchEvent::Network(Some(network("net2", Some("unit1")))));
    match act {
        PatchAction::CheckAddr { network_id, network_addr } => {
            assert_eq!(network_id, "net2");
            assert_eq!(network_addr, "0b");
        }
        other => panic!("{:?}", other),
    }
    let (st, act) = patch_device_step(&roles, "d1", &data, 5, st, PatchEvent::AddrTaken(false));
    match act {
        PatchAction::Update { device_id, updates } => {
            assert_eq!(device_id, "d1");
            assert_eq!(updates.network, Some(("net2".to_string(), "code2".to_string())));
            assert_eq!(updates.modified_at, 5);
        }
        other => panic!("{:?}", other),
    }
    let (st, act) = patch_device_step(&roles, "d1", &data, 5, st, PatchEvent::Finished);
    match act {
        PatchAction::UpdateRoutes { profile, modified_at, .. } => {
            assert_eq!(profile, "p2");
            assert_eq!(modified_at, 5);
        }
        other => panic!("{:?}", other),
    }
    let (st, act) = patch_device_step(&roles, "d1", &data, 5, st, PatchEvent::Finished);
    assert!(matches!(st, PatchState::Done));
    match act {
        PatchAction::Finish(Some(m)) => {
            assert_eq!(m.del_mgr_key, "ucode.code1");
            assert_eq!(m.add_mgr_key, "ucode.code2");
            assert_eq!(m.add_addr, "0b");
        }
        other => panic!("{:?}", other),
    }
}

fn range_data(start: &str, end: &str) -> PostDeviceRouteRangeData {
    PostDeviceRouteRangeData {
        application_id: "app1".to_string(),
        network_id: "net1".to_string(),
        start_addr: start.to_string(),
        end_addr: end.to_string(),
    }
}

#[test]
fn range_step_flow() {
    let data = range_data("0a", "0c");
    let (st, act) = post_device_route_range_step(&data, 7, RangeState::Start, RangeEvent::Start);
    assert!(matches!(act, RangeAction::GetApplication { .. }));
    let (_, act) = post_device_route_range_step(&data, 7, RangeState::ApplicationLookup, RangeEvent::Application(None));
    assert!(matches!(act, RangeAction::Reply(ApiError::Req(BrokerReq::ApplicationNotExist))));
    let (st, _) = post_device_route_range_step(&data, 7, st, RangeEvent::Application(Some(application())));
    let (_, act) = post_device_route_range_step(
        &data,
        7,
        RangeState::NetworkLookup { application: application() },
        RangeEvent::Network(None),
    );
    assert!(matches!(act, RangeAction::Reply(ApiError::Req(BrokerReq::NetworkNotExist))));
    let (st, act) = post_device_route_range_step(&data, 7, st, RangeEvent::Network(Some(network("net1", Some("unit1")))));
    match act {
        RangeAction::ListDevices { unit_id, network_id, network_addrs } => {
            assert_eq!(unit_id, Some("unit1".to_string()));
            assert_eq!(network_id, "net1");
            assert_eq!(network_addrs, vec!["0a", "0b", "0c"]);
        }
        other => panic!("{:?}", other),
    }
    let (_, act) = post_device_route_range_step(
        &data,
        7,
        RangeState::DeviceList { application: application(), network: network("net1", Some("unit1")) },
        RangeEvent::Devices { devices: vec![], route_ids: vec![] },
    );
    assert!(matches!(act, RangeAction::Reply(ApiError::Req(BrokerReq::DeviceNotExist))));
    let (st, act) = post_device_route_range_step(
        &data,
        7,
        st,
        RangeEvent::Devices { devices: vec![device("d1", Some("ucode"))], route_ids: vec!["r1".to_string()] },
    );
    match act {
        RangeAction::AddRoutes(v) => {
            assert_eq!(v.len(), 1);
            assert_eq!(v[0].route_id, "r1");
            assert_eq!(v[0].device_id, "d1");
            assert_eq!(v[0].application_code, "appcode");
            assert_eq!(v[0].created_at, 7);
        }
        other => panic!("{:?}", other),
    }
    let (_, act) = post_device_route_range_step(&data, 7, st, RangeEvent::Finished);
    match act {
        RangeAction::Finish { device_ids } => assert_eq!(device_ids, vec!["d1"]),
        other => panic!("{:?}", other),
    }
}

#[test]
fn range_step_param_error() {
    let data = range_data("0c", "0a");
    let (_, act) = post_device_route_range_step(&data, 7, RangeState::Start, RangeEvent::Start);
    match act {
        RangeAction::Reply(ApiError::Param(m)) => assert_eq!(m, "`startAddr` cannot larger than `endAddr`"),
        other => panic!("{:?}", other),
    }
}

#[test]
fn uldata_steps_send_each_manager_once() {
    let mut d = UlDispatch::new();
    let route = |k: &str| UlEvent::Route { key: k.to_string(), has_mgr: true };
    assert!(matches!(uldata_step(&mut d, false, route("u.a")), UlAction::Skip));
    match uldata_step(&mut d, true, route("u.a")) {
        UlAction::Send(k) => assert_eq!(k, "u.a"),
        other => panic!("{:?}", other),
    }
    uldata_step(&mut d, true, UlEvent::Sent { key: "u.a".to_string(), ok: false });
    assert!(matches!(uldata_step(&mut d, true, route("u.a")), UlAction::Send(_)));
    uldata_step(&mut d, true, UlEvent::Sent { key: "u.a".to_string(), ok: true });
    assert!(matches!(uldata_step(&mut d, true, route("u.a")), UlAction::Skip));
    assert!(matches!(
        uldata_step(&mut d, true, UlEvent::Route { key: "u.b".to_string(), has_mgr: false }),
        UlAction::Skip
    ));
}
