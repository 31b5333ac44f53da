use sylvia_iot_broker::models::{Application, Device, Network};
use sylvia_iot_broker::routes::v1::lib::{
    access_granted, check_application_access, check_device_access, check_network_access,
    check_unit_cond, gen_device_mgr_key, gen_mgr_key, gen_network_mgr_key, is_privileged,
    is_role, network_usable, unit_param, AccessCheck,
};
use sylvia_iot_broker::routes::ApiError;

fn roles(v: &[(&str, bool)]) -> Vec<(String, bool)> {
    v.iter().map(|(r, g)| (r.to_string(), *g)).collect()
}

fn network(unit: Option<&str>, unit_code: Option<&str>) -> Network {
    Network {
        network_id: "n1".to_string(),
        code: "net".to_string(),
        unit_id: unit.map(|s| s.to_string()),
        unit_code: unit_code.map(|s| s.to_string()),
        created_at: 0,
        modified_at: 0,
        host_uri: "amqp://host".to_string(),
        name: String::new(),
        info: vec![],
    }
}

#[test]
fn roles_are_granted_only_when_true() {
    let r = roles(&[("admin", false), ("dev", true)]);
    assert!(!is_role(&r, "admin"));
    assert!(is_role(&r, "dev"));
    assert!(!is_role(&r, "manager"));
    assert!(!is_privileged(&r));
    assert!(is_privileged(&roles(&[("manager", true)])));
    assert!(is_privileged(&roles(&[("admin", true)])));
}

#[test]
fn unit_query_by_role() {
    let c = check_unit_cond("u1", &roles(&[("admin", true)]), "unit1", true);
    assert_eq!(c.unit_id, "unit1");
    assert_eq!(c.owner_id, None);
    assert_eq!(c.member_id, None);
    let c = check_unit_cond("u1", &roles(&[]), "unit1", true);
    assert_eq!(c.owner_id, Some("u1".to_string()));
    assert_eq!(c.member_id, None);
    let c = check_unit_cond("u1", &roles(&[]), "unit1", false);
    assert_eq!(c.owner_id, None);
    assert_eq!(c.member_id, Some("u1".to_string()));
}

#[test]
fn application_access() {
    let app = Application {
        application_id: "a1".to_string(),
        code: "app".to_string(),
        unit_id: "unit1".to_string(),
        unit_code: "unit".to_string(),
        created_at: 0,
        modified_at: 0,
        host_uri: "amqp://host".to_string(),
        name: String::new(),
        info: vec![],
    };
    let a = check_application_access("u1", &roles(&[("manager", true)]), &app, true);
    assert!(matches!(a, AccessCheck::Granted));
    assert!(access_granted(&a, false));
    let a = check_application_access("u1", &roles(&[]), &app, true);
    match &a {
        AccessCheck::ByUnit(c) => {
            assert_eq!(c.unit_id, "unit1");
            assert_eq!(c.owner_id, Some("u1".to_string()));
        }
        _ => panic!("the unit decides"),
    }
    assert!(access_granted(&a, true));
    assert!(!access_granted(&a, false));
}

#[test]
fn network_access() {
    let public = network(None, None);
    let a = check_network_access("u1", &roles(&[]), &public, false);
    assert!(matches!(a, AccessCheck::Denied));
    assert!(!access_granted(&a, true));
    let a = check_network_access("u1", &roles(&[("admin", true)]), &public, false);
    assert!(matches!(a, AccessCheck::Granted));
    let private = network(Some("unit1"), Some("unit"));
    match check_network_access("u1", &roles(&[]), &private, false) {
        AccessCheck::ByUnit(c) => {
            assert_eq!(c.unit_id, "unit1");
            assert_eq!(c.member_id, Some("u1".to_string()));
        }
        _ => panic!("the unit decides"),
    }
}

#[test]
fn device_access_and_network_use() {
    let device = Device {
        device_id: "d1".to_string(),
        unit_id: "unit1".to_string(),
        unit_code: None,
        network_id: "n1".to_string(),
        network_code: "pub".to_string(),
        network_addr: "0a".to_string(),
        created_at: 0,
        modified_at: 0,
        profile: String::new(),
        name: String::new(),
        info: vec![],
    };
    match check_device_access("u1", &roles(&[("admin", true)]), &device, true) {
        AccessCheck::ByUnit(c) => {
            assert_eq!(c.owner_id, None);
            assert_eq!(c.member_id, None);
        }
        _ => panic!("the unit decides"),
    }
    assert_eq!(gen_device_mgr_key(&device), ".pub");
    assert!(network_usable(&network(Some("unit1"), Some("unit")), "unit1", &roles(&[])));
    assert!(!network_usable(&network(Some("unit2"), Some("unit")), "unit1", &roles(&[])));
    assert!(!network_usable(&network(None, None), "unit1", &roles(&[])));
    assert!(network_usable(&network(None, None), "unit1", &roles(&[("manager", true)])));
}

#[test]
fn manager_keys() {
    assert_eq!(gen_mgr_key("unit", "app"), "unit.app");
    assert_eq!(gen_mgr_key("", "net"), ".net");
    assert_eq!(gen_network_mgr_key(&network(Some("unit1"), Some("unit"))), "unit.net");
    assert_eq!(gen_network_mgr_key(&network(None, None)), ".net");
}

#[test]
fn unit_filter_of_lists() {
    let e = unit_param(&roles(&[]), &None).unwrap_err();
    assert!(matches!(e, ApiError::Param(m) if m == "missing `unit`"));
    let e = unit_param(&roles(&[]), &Some(String::new())).unwrap_err();
    assert!(matches!(e, ApiError::Param(m) if m == "missing `unit`"));
    assert_eq!(unit_param(&roles(&[]), &Some("unit1".to_string())).unwrap(), Some("unit1".to_string()));
    assert_eq!(unit_param(&roles(&[("admin", true)]), &None).unwrap(), None);
    assert_eq!(unit_param(&roles(&[("admin", true)]), &Some(String::new())).unwrap(), None);
}
