use sylvia_iot_broker::models::{Device, Network};
use sylvia_iot_broker::routes::v1::device::api::{
    check_patch_device, check_post_device, check_post_device_bulk, check_post_device_bulk_del,
    check_post_device_range, check_post_device_range_del, device_list_transform, device_transform,
    get_device_count_cond, get_device_list_stream_cond, get_sort_cond, get_updates,
    new_bulk_devices, new_device, patch_device_net_ctrl, SortKey,
};
use sylvia_iot_broker::routes::v1::device::request::{
    GetDeviceCountQuery, GetDeviceListQuery, PatchDeviceData, PostDeviceBulkData,
    PostDeviceData, PostDeviceRangeData,
};
use sylvia_iot_broker::routes::v1::list::SortCond;
use sylvia_iot_broker::routes::ApiError;

fn strings(v: &[&str]) -> Vec<String> {
    v.iter().map(|s| s.to_string()).collect()
}

fn param_text(e: ApiError) -> String {
    match e {
        ApiError::Param(m) => m,
        other => panic!("not a parameter error: {:?}", other),
    }
}

fn network(unit: Option<&str>) -> Network {
    Network {
        network_id: "n1".to_string(),
        code: "net".to_string(),
        unit_id: unit.map(|s| s.to_string()),
        unit_code: unit.map(|_| "unit".to_string()),
        created_at: 0,
        modified_at: 0,
        host_uri: "mqtt://host".to_string(),
        name: String::new(),
        info: vec![],
    }
}

fn device() -> Device {
    Device {
        device_id: "d1".to_string(),
        unit_id: "unit1".to_string(),
        unit_code: Some("unit".to_string()),
        network_id: "n1".to_string(),
        network_code: "net".to_string(),
        network_addr: "0a".to_string(),
        created_at: 0,
        modified_at: 0,
        profile: "p".to_string(),
        name: "d".to_string(),
        info: vec![],
    }
}

fn post(unit: &str, net: &str, addr: &str, profile: Option<&str>) -> PostDeviceData {
    PostDeviceData {
        unit_id: unit.to_string(),
        network_id: net.to_string(),
        network_addr: addr.to_string(),
        profile: profile.map(|s| s.to_string()),
        name: None,
        info: None,
    }
}

#[test]
fn device_default_sort() {
    assert_eq!(
        get_sort_cond(&None).unwrap(),
        vec![
            SortCond { key: SortKey::NetworkCode, asc: true },
            SortCond { key: SortKey::NetworkAddr, asc: true },
        ]
    );
    assert_eq!(
        get_sort_cond(&Some("profile:desc".to_string())).unwrap(),
        vec![SortCond { key: SortKey::Profile, asc: false }]
    );
}

#[test]
fn post_device_checks() {
    assert!(check_post_device(&post("u", "n", "0A", Some(""))).is_ok());
    assert_eq!(
        param_text(check_post_device(&post("", "n", "a", None)).unwrap_err()),
        "`unitId` must with at least one character"
    );
    assert_eq!(
        param_text(check_post_device(&post("u", "", "a", None)).unwrap_err()),
        "`networkId` must with at least one character"
    );
    assert_eq!(
        param_text(check_post_device(&post("u", "n", "", None)).unwrap_err()),
        "`networkAddr` must with at least one character"
    );
    assert_eq!(
        param_text(check_post_device(&post("u", "n", "a", Some("Bad Profile"))).unwrap_err()),
        "`profile` must be [A-Za-z0-9]{1}[A-Za-z0-9-_]*"
    );
}

#[test]
fn new_device_record() {
    let d = new_device("d9".to_string(), "unit1", "unit", &network(Some("unit1")), 4, &post("unit1", "n1", "0A", None));
    assert_eq!(d.network_addr, "0a");
    assert_eq!(d.unit_code, Some("unit".to_string()));
    assert_eq!(d.profile, "");
    let d = new_device("d9".to_string(), "unit1", "unit", &network(None), 4, &post("unit1", "n1", "0A", None));
    assert_eq!(d.unit_code, None);
}

#[test]
fn bulk_checks() {
    let data = PostDeviceBulkData {
        unit_id: "u".to_string(),
        network_id: "n".to_string(),
        network_addrs: strings(&["0A", "0b"]),
        profile: Some("bad profile".to_string()),
    };
    assert_eq!(
        param_text(check_post_device_bulk(&data).unwrap_err()),
        "`profile` must be [A-Za-z0-9]{1}[A-Za-z0-9-_]*"
    );
    assert_eq!(check_post_device_bulk_del(&data).unwrap(), strings(&["0a", "0b"]));
    let data = PostDeviceBulkData { network_addrs: vec![], ..data };
    assert_eq!(
        param_text(check_post_device_bulk_del(&data).unwrap_err()),
        "`networkAddrs` must with at least one address"
    );
}

#[test]
fn bulk_devices() {
    let ids = strings(&["i1", "i2"]);
    let addrs = strings(&["0a", "0b"]);
    let v = new_bulk_devices(&ids, "unit1", "unit", &network(Some("unit1")), 8, &addrs, &None, true);
    assert_eq!(v.len(), 2);
    assert_eq!(v[1].device_id, "i2");
    assert_eq!(v[1].network_addr, "0b");
    assert_eq!(v[1].name, "0b");
    assert_eq!(v[0].unit_code, Some("unit".to_string()));
}

#[test]
fn range_checks() {
    let data = PostDeviceRangeData {
        unit_id: "u".to_string(),
        network_id: "n".to_string(),
        start_addr: "0001".to_string(),
        end_addr: "0003".to_string(),
        profile: None,
    };
    assert_eq!(check_post_device_range(&data).unwrap(), (1, 3));
    let data = PostDeviceRangeData { end_addr: "03".to_string(), ..data };
    assert_eq!(
        param_text(check_post_device_range_del(&data).unwrap_err()),
        "`startAddr` and `endAddr` must have the same length"
    );
}

#[test]
fn patch_checks() {
    let data = PatchDeviceData {
        network_id: Some(String::new()),
        network_addr: None,
        profile: None,
        name: None,
        info: None,
    };
    assert_eq!(
        param_text(check_patch_device(&data).unwrap_err()),
        "`networkId` must with at least one character"
    );
    let data = PatchDeviceData { network_id: Some("n2".to_string()), ..data };
    let u = get_updates(&data, 5).unwrap();
    assert_eq!(u.network, Some(("n2".to_string(), String::new())));
    let data = PatchDeviceData {
        network_id: None,
        network_addr: None,
        profile: None,
        name: None,
        info: None,
    };
    assert_eq!(param_text(get_updates(&data, 5).err().unwrap()), "at least one parameter");
}

#[test]
fn patch_network_moves() {
    assert!(patch_device_net_ctrl(&device(), &None, &None).is_none());
    let m = patch_device_net_ctrl(&device(), &Some(network(None)), &None).unwrap();
    assert_eq!(m.del_mgr_key, "unit.net");
    assert_eq!(m.del_addr, "0a");
    assert_eq!(m.add_mgr_key, ".net");
    assert_eq!(m.add_addr, "0a");
    let m = patch_device_net_ctrl(&device(), &None, &Some("0b".to_string())).unwrap();
    assert_eq!(m.add_mgr_key, "unit.net");
    assert_eq!(m.add_addr, "0b");
}

#[test]
fn query_conditions_and_presentation() {
    let q = GetDeviceCountQuery {
        unit: Some("u".to_string()),
        network: Some(String::new()),
        addr: Some("0a".to_string()),
        profile: Some("p".to_string()),
        contains: None,
    };
    let c = get_device_count_cond(&q);
    assert_eq!(c.network_code, None);
    assert_eq!(c.profile, Some("p".to_string()));
    let q = GetDeviceListQuery {
        unit: None,
        network: None,
        addr: None,
        profile: Some("p".to_string()),
        contains: None,
        offset: None,
        limit: None,
        sort: None,
        format: None,
    };
    assert_eq!(get_device_list_stream_cond(&q).profile, None);
    let d = device_transform(&device());
    assert_eq!(d.unit_code, Some("unit".to_string()));
    assert_eq!(d.created_at, "1970-01-01T00:00:00.000Z");
    assert_eq!(device_list_transform(&vec![device()]).len(), 1);
}
