use sylvia_iot_broker::routes::middleware::{bearer_token, check_role_scope};
use sylvia_iot_broker::routes::{get_version, scope_root, ApiError, GetVersionQuery, VersionReply};

fn strings(v: &[&str]) -> Vec<String> {
    v.iter().map(|s| s.to_string()).collect()
}

#[test]
fn token_of_header() {
    assert_eq!(bearer_token("Bearer abc").unwrap(), "abc");
    assert_eq!(bearer_token("  Bearer \t abc  def").unwrap(), "abc");
    let e = bearer_token("Bearer").unwrap_err();
    assert!(matches!(e, ApiError::Unknown(m) if m == "parse token error"));
    assert!(bearer_token("").is_err());
    assert_eq!(bearer_token("Bearer\u{3000}tok").unwrap(), "tok");
}

#[test]
fn roles_and_scopes() {
    let roles = vec![("admin".to_string(), false), ("user".to_string(), true)];
    let scopes = strings(&["s1"]);
    assert!(check_role_scope(&None, &roles, &scopes).is_ok());
    assert!(check_role_scope(&Some((vec![], vec![])), &roles, &scopes).is_ok());
    let e = check_role_scope(&Some((strings(&["admin"]), vec![])), &roles, &scopes).unwrap_err();
    assert!(matches!(e, ApiError::Perm(m) if m == "invalid role"));
    assert!(check_role_scope(&Some((strings(&["admin", "user"]), vec![])), &roles, &scopes).is_ok());
    let e = check_role_scope(&Some((vec![], strings(&["s2"]))), &roles, &scopes).unwrap_err();
    assert!(matches!(e, ApiError::Perm(m) if m == "invalid scope"));
    assert!(check_role_scope(&Some((vec![], strings(&["s2", "s1"]))), &roles, &scopes).is_ok());
}

#[test]
fn version_replies() {
    let q = |s: Option<&str>| GetVersionQuery { q: s.map(|x| x.to_string()) };
    assert_eq!(get_version(&q(Some("name"))), VersionReply::Name);
    assert_eq!(get_version(&q(Some("version"))), VersionReply::Version);
    assert_eq!(get_version(&q(Some("other"))), VersionReply::Both);
    assert_eq!(get_version(&q(None)), VersionReply::Both);
    assert_eq!(scope_root(""), "/");
    assert_eq!(scope_root("/broker"), "/broker");
}
