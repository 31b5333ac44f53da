use sylvia_iot_broker::models::{Application, Device, DeviceRoute, DlDataBuffer, Network, NetworkRoute};
use sylvia_iot_broker::routes::v1::device_route::api as droute;
use sylvia_iot_broker::routes::v1::device_route::request::{
    PostDeviceRouteBulkData, PostDeviceRouteData, PostDeviceRouteRangeData,
};
use sylvia_iot_broker::routes::v1::dldata_buffer::api as dldata;
use sylvia_iot_broker::routes::v1::dldata_buffer::request::GetDlDataBufferCountQuery;
use sylvia_iot_broker::routes::v1::list::SortCond;
use sylvia_iot_broker::routes::v1::network_route::api as nroute;
use sylvia_iot_broker::routes::v1::network_route::request::{
    GetNetworkRouteListQuery, PostNetworkRouteData,
};
use sylvia_iot_broker::routes::{ApiError, BrokerReq};

fn strings(v: &[&str]) -> Vec<String> {
    v.iter().map(|s| s.to_string()).collect()
}

fn param_text(e: ApiError) -> String {
    match e {
        ApiError::Param(m) => m,
        other => panic!("not a parameter error: {:?}", other),
    }
}

fn app(unit: &str) -> Application {
    Application {
        application_id: "a1".to_string(),
        code: "app".to_string(),
        unit_id: unit.to_string(),
        unit_code: "unit".to_string(),
        created_at: 0,
        modified_at: 0,
        host_uri: "amqp://host".to_string(),
        name: String::new(),
        info: vec![],
    }
}

fn device(unit: &str, addr: &str) -> Device {
    Device {
        device_id: format!("d-{}", addr),
        unit_id: unit.to_string(),
        unit_code: Some("unit".to_string()),
        network_id: "n1".to_string(),
        network_code: "net".to_string(),
        network_addr: addr.to_string(),
        created_at: 0,
        modified_at: 0,
        profile: "p".to_string(),
        name: String::new(),
        info: vec![],
    }
}

fn network(unit: Option<&str>) -> Network {
    Network {
        network_id: "n1".to_string(),
        code: "net".to_string(),
        unit_id: unit.map(|s| s.to_string()),
        unit_code: None,
        created_at: 0,
        modified_at: 0,
        host_uri: "mqtt://host".to_string(),
        name: String::new(),
        info: vec![],
    }
}

#[test]
fn device_route_checks() {
    let data = PostDeviceRouteData { device_id: String::new(), application_id: "a".to_string() };
    assert_eq!(
        param_text(droute::check_post_device_route(&data).unwrap_err()),
        "`deviceId` must with at least one character"
    );
    let data = PostDeviceRouteData { device_id: "d".to_string(), application_id: String::new() };
    assert_eq!(
        param_text(droute::check_post_device_route(&data).unwrap_err()),
        "`applicationId` must with at least one character"
    );
    assert!(droute::check_route_unit(&device("unit1", "0a"), &app("unit1")).is_ok());
    let e = droute::check_route_unit(&device("unit2", "0a"), &app("unit1")).unwrap_err();
    assert!(matches!(e, ApiError::Req(BrokerReq::UnitNotMatch)));
    assert_eq!(BrokerReq::UnitNotMatch.code(), (400, "err_broker_unit_not_match"));
}

#[test]
fn device_route_records() {
    let r = droute::new_device_route("r1", &app("unit1"), &device("unit1", "0a"), 3);
    assert_eq!(r.application_code, "app");
    assert_eq!(r.network_addr, "0a");
    assert_eq!(r.profile, "p");
    let devices = vec![device("unit1", "0a"), device("unit1", "0b")];
    let v = droute::new_bulk_routes(&strings(&["r1", "r2"]), &app("unit1"), &network(None), &devices, 3)
        .unwrap();
    assert_eq!(v.len(), 2);
    assert_eq!(v[1].route_id, "r2");
    assert_eq!(v[1].device_id, "d-0b");
    let e = droute::new_bulk_routes(&vec![], &app("unit1"), &network(None), &vec![], 3).unwrap_err();
    assert!(matches!(e, ApiError::Req(BrokerReq::DeviceNotExist)));
    let d = droute::route_transform(&r);
    assert_eq!(d.route_id, "r1");
    assert_eq!(d.created_at, "1970-01-01T00:00:00.003Z");
    let l: Vec<DeviceRoute> = vec![r];
    assert_eq!(droute::route_list_transform(&l).len(), 1);
}

#[test]
fn device_route_bulk_and_range() {
    let data = PostDeviceRouteBulkData {
        application_id: "a".to_string(),
        network_id: "n".to_string(),
        network_addrs: strings(&["0A"]),
    };
    assert_eq!(droute::check_post_device_route_bulk(&data).unwrap(), strings(&["0a"]));
    let data = PostDeviceRouteRangeData {
        application_id: "a".to_string(),
        network_id: "n".to_string(),
        start_addr: "ff".to_string(),
        end_addr: "0f".to_string(),
    };
    assert_eq!(
        param_text(droute::check_post_device_route_range(&data).unwrap_err()),
        "`startAddr` cannot larger than `endAddr`"
    );
    assert_eq!(
        droute::get_sort_cond(&None).unwrap(),
        vec![
            SortCond { key: droute::SortKey::NetworkCode, asc: true },
            SortCond { key: droute::SortKey::NetworkAddr, asc: true },
            SortCond { key: droute::SortKey::CreatedAt, asc: false },
        ]
    );
}

#[test]
fn network_route_checks() {
    let data = PostNetworkRouteData { network_id: String::new(), application_id: "a".to_string() };
    assert_eq!(
        param_text(nroute::check_post_network_route(&data).unwrap_err()),
        "`networkId` must with at least one character"
    );
    assert!(nroute::check_route_unit(&network(None), &app("unit1")).is_ok());
    assert!(nroute::check_route_unit(&network(Some("unit1")), &app("unit1")).is_ok());
    let e = nroute::check_route_unit(&network(Some("unit2")), &app("unit1")).unwrap_err();
    assert!(matches!(e, ApiError::Req(BrokerReq::UnitNotMatch)));
    let r: NetworkRoute = nroute::new_network_route("r1", &app("unit1"), &network(None), 2);
    assert_eq!(r.network_code, "net");
    assert_eq!(r.unit_code, "unit");
    let d = nroute::route_transform(&r);
    assert_eq!(d.created_at, "1970-01-01T00:00:00.002Z");
    let q = GetNetworkRouteListQuery {
        unit: None,
        application: Some("a".to_string()),
        network: None,
        offset: None,
        limit: None,
        sort: Some("application:asc,created:desc".to_string()),
        format: None,
    };
    let o = nroute::get_network_route_list_opts(&q).unwrap();
    assert_eq!(
        o.sort,
        vec![
            SortCond { key: nroute::SortKey::ApplicationCode, asc: true },
            SortCond { key: nroute::SortKey::CreatedAt, asc: false },
        ]
    );
    assert_eq!(o.cond.application_id, Some("a".to_string()));
}

#[test]
fn dldata_buffer_queries() {
    let q = GetDlDataBufferCountQuery {
        unit: Some("u".to_string()),
        application: None,
        network: Some(String::new()),
        device: Some("d".to_string()),
    };
    let c = dldata::get_dldata_buffer_count_cond(&q);
    assert_eq!(c.unit_id, Some("u".to_string()));
    assert_eq!(c.network_id, None);
    assert_eq!(c.device_id, Some("d".to_string()));
    assert_eq!(
        dldata::get_sort_cond(&None).unwrap(),
        vec![
            SortCond { key: dldata::SortKey::ApplicationCode, asc: true },
            SortCond { key: dldata::SortKey::CreatedAt, asc: false },
        ]
    );
    let e = dldata::get_sort_cond(&Some("expired:down".to_string())).unwrap_err();
    assert_eq!(param_text(e), "invalid sort asc down");
    let b = DlDataBuffer {
        data_id: "x".to_string(),
        unit_id: "u".to_string(),
        unit_code: "unit".to_string(),
        application_id: "a".to_string(),
        application_code: "app".to_string(),
        network_id: "n".to_string(),
        network_addr: "0a".to_string(),
        device_id: "d".to_string(),
        created_at: 0,
        expired_at: 86_400_000,
    };
    let d = dldata::data_transform(&b);
    assert_eq!(d.expired_at, "1970-01-02T00:00:00.000Z");
    assert_eq!(dldata::data_list_transform(&vec![b]).len(), 1);
    assert_eq!(dldata::data_list_transform_bytes(&strings(&["1"]), false, true, None), ",1]}");
}
