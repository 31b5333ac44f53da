use sylvia_iot_broker::models::{Application, Device};
use sylvia_iot_broker::routes::v1::application::api::{
    application_list_transform, application_transform, check_post_application,
    dldata_expired_at, gen_application_mgr_key, gen_dldata_net_mgr_key, get_application_count_cond,
    get_application_list_opts, get_updates, new_application,
};
use sylvia_iot_broker::routes::v1::application::request::{
    GetApplicationCountQuery, GetApplicationListQuery, PatchApplicationData, PostApplicationData,
};
use sylvia_iot_broker::routes::v1::valid::host_uri_changed;
use sylvia_iot_broker::routes::ApiError;

fn param_text(e: ApiError) -> String {
    match e {
        ApiError::Param(m) => m,
        other => panic!("not a parameter error: {:?}", other),
    }
}

fn post(code: &str, unit: &str, uri: &str) -> PostApplicationData {
    PostApplicationData {
        code: code.to_string(),
        unit_id: unit.to_string(),
        host_uri: uri.to_string(),
        name: Some("App".to_string()),
        info: None,
    }
}

fn app() -> Application {
    Application {
        application_id: "a1".to_string(),
        code: "app".to_string(),
        unit_id: "unit1".to_string(),
        unit_code: "unit".to_string(),
        created_at: 86_400_000,
        modified_at: 86_400_000,
        host_uri: "amqp://host".to_string(),
        name: "App".to_string(),
        info: vec![],
    }
}

#[test]
fn post_application_checks() {
    let c = check_post_application(&post("App1", "unit1", "AMQP://host")).unwrap();
    assert_eq!(c.code, "app1");
    assert_eq!(c.host_uri, "amqp://host");
    assert_eq!(
        param_text(check_post_application(&post("a b", "unit1", "amqp://host")).err().unwrap()),
        "`code` must be [A-Za-z0-9]{1}[A-Za-z0-9-_]*"
    );
    assert_eq!(
        param_text(check_post_application(&post("app", "unit1", "not a uri")).err().unwrap()),
        "invalid `hostUri`"
    );
    assert_eq!(
        param_text(check_post_application(&post("app", "unit1", "http://host")).err().unwrap()),
        "unsupport `hostUri` scheme"
    );
    assert_eq!(
        param_text(check_post_application(&post("app", "", "mqtts://host")).err().unwrap()),
        "`unitId` must with at least one character"
    );
    let mut data = post("app", "unit1", "mqtt://host");
    data.info = Some(vec![(String::new(), "1".to_string())]);
    assert_eq!(
        param_text(check_post_application(&data).err().unwrap()),
        "`info` key must not be empty"
    );
}

#[test]
fn new_application_record() {
    let data = post("App1", "unit1", "amqps://host");
    let c = check_post_application(&data).unwrap();
    let a = new_application("a9".to_string(), c, "unit1", "unit", 7, &data);
    assert_eq!(a.code, "app1");
    assert_eq!(a.unit_code, "unit");
    assert_eq!(a.host_uri, "amqps://host");
    assert_eq!(a.name, "App");
    assert_eq!(a.created_at, 7);
}

#[test]
fn patch_application_checks() {
    let data = PatchApplicationData { host_uri: None, name: None, info: None };
    assert_eq!(param_text(get_updates(&data, 1).err().unwrap()), "at least one parameter");
    let data = PatchApplicationData {
        host_uri: Some("MQTT://broker:1883".to_string()),
        name: None,
        info: None,
    };
    let u = get_updates(&data, 1).unwrap();
    assert_eq!(u.host_uri, Some("mqtt://broker:1883".to_string()));
    assert_eq!(u.modified_at, 1);
    let data = PatchApplicationData { host_uri: Some(":".to_string()), name: None, info: None };
    assert_eq!(param_text(get_updates(&data, 1).err().unwrap()), "invalid `hostUri`");
    assert_eq!(host_uri_changed("amqp://host", "amqp://host"), Some(false));
    assert_eq!(host_uri_changed("amqp://other", "amqp://host"), Some(true));
}

#[test]
fn application_query_conditions() {
    let q = GetApplicationCountQuery { unit: Some(String::new()), contains: Some("a".to_string()) };
    let c = get_application_count_cond(&q);
    assert_eq!(c.unit_id, None);
    assert_eq!(c.code_contains, Some("a".to_string()));
    let q = GetApplicationListQuery {
        unit: Some("unit1".to_string()),
        contains: None,
        offset: None,
        limit: None,
        sort: Some("created:desc".to_string()),
        format: None,
    };
    let o = get_application_list_opts(&q).unwrap();
    assert_eq!(o.cond.unit_id, Some("unit1".to_string()));
    assert_eq!(o.limit, Some(100));
    assert_eq!(o.sort.len(), 1);
    assert!(!o.sort[0].asc);
}

#[test]
fn application_presentation() {
    let d = application_transform(&app());
    assert_eq!(d.created_at, "1970-01-02T00:00:00.000Z");
    assert_eq!(d.unit_code, "unit");
    assert_eq!(application_list_transform(&vec![app(), app()]).len(), 2);
    assert_eq!(gen_application_mgr_key(&app()), "unit.app");
}

#[test]
fn downlink_routing() {
    assert_eq!(dldata_expired_at(1_000), 86_401_000);
    let mut device = Device {
        device_id: "d1".to_string(),
        unit_id: "unit1".to_string(),
        unit_code: None,
        network_id: "n1".to_string(),
        network_code: "net".to_string(),
        network_addr: "0a".to_string(),
        created_at: 0,
        modified_at: 0,
        profile: String::new(),
        name: String::new(),
        info: vec![],
    };
    assert_eq!(gen_dldata_net_mgr_key(&device, "unit"), ".net");
    device.unit_code = Some("other".to_string());
    assert_eq!(gen_dldata_net_mgr_key(&device, "unit"), "unit.net");
}
