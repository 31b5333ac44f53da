use sylvia_iot_broker::models::Device;
use sylvia_iot_broker::routes::v1::application::api::{dldata_device_cond, new_dldata_buffer, DlDataDeviceCond};
use sylvia_iot_broker::routes::v1::lib::{auth_uri, scopes_of, Method, RoleScope};
use sylvia_iot_broker::routes::v1::list::ListStream;
use sylvia_iot_broker::routes::v1::network::api::UlDispatch;
use sylvia_iot_broker::routes::v1::unit::api::del_unit_mgr_keys;
use sylvia_iot_broker::routes::v1::{device, device_route, dldata_buffer, network_route, unit};
use sylvia_iot_broker::routes::BrokerReq;

fn strings(v: &[&str]) -> Vec<String> {
    v.iter().map(|s| s.to_string()).collect()
}

fn view(r: &RoleScope) -> (String, Method, Vec<String>, Vec<String>) {
    (r.path.clone(), r.method, r.roles.clone(), r.scopes.clone())
}

#[test]
fn configured_scopes() {
    let api_scopes = vec![
        ("unit.get".to_string(), strings(&["s1", "s2"])),
        ("unit.delete.user".to_string(), strings(&["admin.s"])),
    ];
    assert_eq!(scopes_of(&api_scopes, "unit.get"), strings(&["s1", "s2"]));
    assert_eq!(scopes_of(&api_scopes, "unit.post"), Vec::<String>::new());
    let t = unit::role_scopes(&api_scopes);
    assert_eq!(t.len(), 7);
    assert_eq!(view(&t[0]), ("/".to_string(), Method::Post, vec![], vec![]));
    assert_eq!(view(&t[1]), ("/count".to_string(), Method::Get, vec![], strings(&["s1", "s2"])));
    assert_eq!(
        view(&t[6]),
        (
            "/user/:user_id".to_string(),
            Method::Delete,
            strings(&["admin", "manager"]),
            strings(&["admin.s"])
        )
    );
}

#[test]
fn route_tables() {
    let api_scopes = vec![("device.delete".to_string(), strings(&["d"]))];
    let t = device::role_scopes(&api_scopes);
    assert_eq!(t.len(), 10);
    assert_eq!(view(&t[2]), ("/bulk-delete".to_string(), Method::Post, vec![], strings(&["d"])));
    assert_eq!(view(&t[4]), ("/range-delete".to_string(), Method::Post, vec![], strings(&["d"])));
    assert_eq!(view(&t[9]), ("/{device_id}".to_string(), Method::Delete, vec![], strings(&["d"])));
    assert_eq!(device_route::role_scopes(&vec![]).len(), 10);
    assert_eq!(dldata_buffer::role_scopes(&vec![]).len(), 5);
    let t = network_route::role_scopes(&vec![]);
    assert_eq!(view(&t[0]), (String::new(), Method::Post, vec![], vec![]));
    assert_eq!(auth_uri("http://auth"), "http://auth/api/v1/auth/tokeninfo");
}

#[test]
fn list_stream_chunks() {
    let mut s = ListStream::new();
    let first = s.next_chunk(&strings(&["1", "2"]), false, true);
    assert_eq!(first, "[1,2");
    assert!(s.started && !s.done);
    let last = s.next_chunk(&strings(&["3"]), true, true);
    assert_eq!(last, ",3]");
    assert!(s.done);
    let mut s = ListStream::new();
    assert_eq!(s.next_chunk(&strings(&["1"]), true, false), "{\"data\":[1]}");
}

#[test]
fn uplink_once_per_application() {
    let mut d = UlDispatch::new();
    let a = "unit.app".to_string();
    let b = "unit.other".to_string();
    assert!(d.is_pending(&a));
    d.mark_sent(&a);
    assert!(!d.is_pending(&a));
    assert!(d.is_pending(&b));
    d.mark_sent(&b);
    assert!(!d.is_pending(&b));
}

#[test]
fn downlink_records() {
    let c = dldata_device_cond("unit1", "unit", &Some("d1".to_string()), &None, &None);
    assert!(matches!(c, DlDataDeviceCond::ById { ref unit_id, ref device_id } if unit_id == "unit1" && device_id == "d1"));
    let c = dldata_device_cond("unit1", "unit", &None, &Some("net".to_string()), &Some("0a".to_string()));
    assert!(matches!(c, DlDataDeviceCond::ByAddr { ref unit_code, ref network_code, ref network_addr }
        if unit_code == "unit" && network_code == "net" && network_addr == "0a"));
    let device = Device {
        device_id: "d1".to_string(),
        unit_id: "unit1".to_string(),
        unit_code: None,
        network_id: "n1".to_string(),
        network_code: "net".to_string(),
        network_addr: "0a".to_string(),
        created_at: 0,
        modified_at: 0,
        profile: String::new(),
        name: String::new(),
        info: vec![],
    };
    let b = new_dldata_buffer("x".to_string(), "unit1", "unit", "a1", "app", &device, 10);
    assert_eq!(b.expired_at, 86_400_010);
    assert_eq!(b.application_code, "app");
    assert_eq!(b.network_addr, "0a");
}

#[test]
fn unit_deletion_keys() {
    assert_eq!(
        del_unit_mgr_keys("unit", &strings(&["a", "b"])),
        strings(&["unit.a", "unit.b"])
    );
    assert_eq!(BrokerReq::UnitExist.code(), (400, "err_broker_unit_exist"));
    assert_eq!(BrokerReq::MemberNotExist.code(), (400, "err_broker_member_not_exist"));
}
