use sylvia_iot_broker::models::{DlDataBuffer, Network};
use sylvia_iot_broker::routes::v1::network::api::{
    check_post_network, dldata_result_keeps_buffer, dldata_result_mgr_key, get_network_count_cond,
    get_network_list_opts, get_network_list_stream_cond, get_updates, network_list_transform,
    network_transform, network_unit_param, new_network, uldata_device_cond,
};
use sylvia_iot_broker::routes::v1::network::request::{
    GetNetworkCountQuery, GetNetworkListQuery, PatchNetworkData, PostNetworkData,
};
use sylvia_iot_broker::routes::ApiError;

fn roles(v: &[(&str, bool)]) -> Vec<(String, bool)> {
    v.iter().map(|(r, g)| (r.to_string(), *g)).collect()
}

fn param_text(e: ApiError) -> String {
    match e {
        ApiError::Param(m) => m,
        other => panic!("not a parameter error: {:?}", other),
    }
}

fn post(unit: Option<&str>) -> PostNetworkData {
    PostNetworkData {
        code: "Net".to_string(),
        unit_id: unit.map(|s| s.to_string()),
        host_uri: "mqtt://host".to_string(),
        name: None,
        info: None,
    }
}

#[test]
fn post_network_checks() {
    let c = check_post_network(&roles(&[]), &post(Some("unit1"))).unwrap();
    assert_eq!(c.code, "net");
    assert_eq!(c.unit_id, Some("unit1".to_string()));
    assert_eq!(
        param_text(check_post_network(&roles(&[]), &post(None)).err().unwrap()),
        "missing `unitId`"
    );
    let c = check_post_network(&roles(&[("admin", true)]), &post(None)).unwrap();
    assert_eq!(c.unit_id, None);
    assert_eq!(
        param_text(check_post_network(&roles(&[("admin", true)]), &post(Some(""))).err().unwrap()),
        "`unitId` must with at least one character"
    );
    let c = check_post_network(&roles(&[("admin", true)]), &post(None)).unwrap();
    let n = new_network("n1".to_string(), c, None, 3, &post(None));
    assert_eq!(n.unit_id, None);
    assert_eq!(n.unit_code, None);
    assert_eq!(n.host_uri, "mqtt://host");
}

#[test]
fn unit_filters() {
    let e = network_unit_param(&roles(&[]), &Some(String::new())).unwrap_err();
    assert_eq!(param_text(e), "missing `unit`");
    assert_eq!(
        network_unit_param(&roles(&[("admin", true)]), &Some(String::new())).unwrap(),
        Some(None)
    );
    assert_eq!(network_unit_param(&roles(&[("admin", true)]), &None).unwrap(), None);
    assert_eq!(
        network_unit_param(&roles(&[]), &Some("u".to_string())).unwrap(),
        Some(Some("u".to_string()))
    );
}

#[test]
fn network_query_conditions() {
    let q = GetNetworkCountQuery {
        unit: Some(String::new()),
        code: Some("net".to_string()),
        contains: Some("n".to_string()),
    };
    let c = get_network_count_cond(&q);
    assert_eq!(c.unit_id, Some(None));
    assert_eq!(c.code, Some("net".to_string()));
    assert_eq!(c.code_contains, None);
    let q = GetNetworkListQuery {
        unit: None,
        code: Some("net".to_string()),
        contains: Some("n".to_string()),
        offset: None,
        limit: Some(5),
        sort: None,
        format: None,
    };
    let o = get_network_list_opts(&q).unwrap();
    assert_eq!(o.limit, Some(5));
    assert_eq!(o.cond.code_contains, None);
    let c = get_network_list_stream_cond(&q);
    assert_eq!(c.code, None);
    assert_eq!(c.code_contains, Some("n".to_string()));
}

#[test]
fn patch_network_checks() {
    let data = PatchNetworkData { host_uri: None, name: Some("n".to_string()), info: None };
    let u = get_updates(&data, 2).unwrap();
    assert_eq!(u.host_uri, None);
    assert_eq!(u.name, Some("n".to_string()));
    let data = PatchNetworkData { host_uri: Some("ftp://x".to_string()), name: None, info: None };
    assert_eq!(param_text(get_updates(&data, 2).err().unwrap()), "unsupport `hostUri` scheme");
}

#[test]
fn network_presentation() {
    let n = Network {
        network_id: "n1".to_string(),
        code: "net".to_string(),
        unit_id: None,
        unit_code: None,
        created_at: -1,
        modified_at: 0,
        host_uri: "mqtt://host".to_string(),
        name: String::new(),
        info: vec![],
    };
    let d = network_transform(&n);
    assert_eq!(d.created_at, "1969-12-31T23:59:59.999Z");
    assert_eq!(d.unit_id, None);
    assert_eq!(network_list_transform(&vec![n]).len(), 1);
}

#[test]
fn manager_decisions() {
    let c = uldata_device_cond("", "net", "0a");
    assert_eq!(c.unit_code, None);
    assert_eq!(c.network_code, "net");
    let c = uldata_device_cond("unit", "net", "0a");
    assert_eq!(c.unit_code, Some("unit".to_string()));
    assert!(dldata_result_keeps_buffer(-1));
    assert!(!dldata_result_keeps_buffer(0));
    assert!(!dldata_result_keeps_buffer(3));
    let b = DlDataBuffer {
        data_id: "x".to_string(),
        unit_id: "unit1".to_string(),
        unit_code: "unit".to_string(),
        application_id: "a1".to_string(),
        application_code: "app".to_string(),
        network_id: "n1".to_string(),
        network_addr: "0a".to_string(),
        device_id: "d1".to_string(),
        created_at: 0,
        expired_at: 0,
    };
    assert_eq!(dldata_result_mgr_key(&b), "unit.app");
}
