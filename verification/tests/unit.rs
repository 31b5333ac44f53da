use sylvia_iot_broker::models::Unit;
use sylvia_iot_broker::routes::v1::list::SortCond;
use sylvia_iot_broker::routes::v1::unit::api::{
    check_patch_owner, check_post_unit, get_sort_cond, get_unit_count_cond, get_unit_list_opts,
    get_unit_list_stream_cond, new_unit, patch_unit_members, unit_list_transform,
    unit_list_transform_bytes, unit_transform, unit_updates, SortKey,
};
use sylvia_iot_broker::routes::v1::unit::members::{add_owner, sort_dedup, text_less};
use sylvia_iot_broker::routes::v1::unit::request::{
    GetUnitCountQuery, GetUnitListQuery, ListFormat, PatchUnitData, PostUnitData,
};
use sylvia_iot_broker::routes::ApiError;

fn roles(v: &[(&str, bool)]) -> Vec<(String, bool)> {
    v.iter().map(|(r, g)| (r.to_string(), *g)).collect()
}

fn strings(v: &[&str]) -> Vec<String> {
    v.iter().map(|s| s.to_string()).collect()
}

fn param_text(e: ApiError) -> String {
    match e {
        ApiError::Param(m) => m,
        other => panic!("not a parameter error: {:?}", other),
    }
}

fn unit(owner: &str, members: &[&str]) -> Unit {
    Unit {
        unit_id: "unit1".to_string(),
        code: "code".to_string(),
        created_at: 0,
        modified_at: 1_700_000_000_123,
        owner_id: owner.to_string(),
        member_ids: strings(members),
        name: "Name".to_string(),
        info: vec![("k".to_string(), "1".to_string())],
    }
}

fn patch(owner: Option<&str>, members: Option<&[&str]>) -> PatchUnitData {
    PatchUnitData {
        owner_id: owner.map(|s| s.to_string()),
        member_ids: members.map(strings),
        name: None,
        info: None,
    }
}

#[test]
fn text_order_is_string_order() {
    for (a, b) in [("a", "b"), ("a", "ab"), ("", "a"), ("B", "a"), ("é", "z"), ("x", "x")] {
        assert_eq!(text_less(a, b), a < b, "{} < {}", a, b);
        assert_eq!(text_less(b, a), b < a, "{} < {}", b, a);
    }
}

#[test]
fn members_sorted_without_duplicates() {
    let v = strings(&["c", "a", "b", "a", "c"]);
    assert_eq!(sort_dedup(&v), strings(&["a", "b", "c"]));
    assert_eq!(sort_dedup(&vec![]), Vec::<String>::new());
    let mut m = strings(&["a", "c"]);
    add_owner(&mut m, "b");
    assert_eq!(m, strings(&["a", "c", "b"]));
    let mut m = strings(&["a", "c"]);
    add_owner(&mut m, "c");
    assert_eq!(m, strings(&["a", "c"]));
}

#[test]
fn unit_default_sort() {
    let v = get_sort_cond(&None).unwrap();
    assert_eq!(v, vec![SortCond { key: SortKey::Code, asc: true }]);
    let v = get_sort_cond(&Some("modified:desc,name:asc".to_string())).unwrap();
    assert_eq!(
        v,
        vec![
            SortCond { key: SortKey::ModifiedAt, asc: false },
            SortCond { key: SortKey::Name, asc: true },
        ]
    );
    let e = get_sort_cond(&Some("owner:asc".to_string())).unwrap_err();
    assert_eq!(param_text(e), "invalid sort key owner");
}

#[test]
fn count_condition_by_role() {
    let q = GetUnitCountQuery {
        owner: Some("o".to_string()),
        member: Some(String::new()),
        contains: Some("c".to_string()),
    };
    let c = get_unit_count_cond("u1", &roles(&[("admin", true)]), &q);
    assert_eq!(c.owner_id, Some("o".to_string()));
    assert_eq!(c.member_id, None);
    assert_eq!(c.code_contains, Some("c".to_string()));
    let c = get_unit_count_cond("u1", &roles(&[]), &q);
    assert_eq!(c.owner_id, None);
    assert_eq!(c.member_id, Some("u1".to_string()));
}

#[test]
fn list_options() {
    let q = GetUnitListQuery {
        owner: None,
        member: None,
        contains: None,
        offset: Some(3),
        limit: Some(0),
        sort: None,
        format: Some(ListFormat::Array),
    };
    let o = get_unit_list_opts("u1", &roles(&[("admin", true)]), &q).unwrap();
    assert_eq!(o.offset, Some(3));
    assert_eq!(o.limit, None);
    assert_eq!(o.cursor_max, Some(100));
    assert_eq!(o.cond.member_id, None);
    // The continuation of a streamed list keeps the member filter of the token's user.
    let c = get_unit_list_stream_cond("u1", &roles(&[("admin", true)]), &q);
    assert_eq!(c.member_id, Some("u1".to_string()));
    let q = GetUnitListQuery { sort: Some("x".to_string()), ..q };
    assert_eq!(
        param_text(get_unit_list_opts("u1", &roles(&[]), &q).err().unwrap()),
        "invalid sort key x"
    );
}

#[test]
fn post_unit_checks() {
    let data = PostUnitData {
        code: "My-Unit_1".to_string(),
        owner_id: Some("o2".to_string()),
        name: None,
        info: None,
    };
    let c = check_post_unit(&roles(&[("admin", true)]), &data).unwrap();
    assert_eq!(c.code, "my-unit_1");
    assert_eq!(c.owner_id, Some("o2".to_string()));
    let c = check_post_unit(&roles(&[]), &data).unwrap();
    assert_eq!(c.owner_id, None);
    let bad = PostUnitData { code: "-x".to_string(), owner_id: None, name: None, info: None };
    assert_eq!(
        param_text(check_post_unit(&roles(&[]), &bad).err().unwrap()),
        "`code` must be [A-Za-z0-9]{1}[A-Za-z0-9-_]*"
    );
    let empty_owner = PostUnitData {
        code: "x".to_string(),
        owner_id: Some(String::new()),
        name: None,
        info: None,
    };
    assert_eq!(
        param_text(check_post_unit(&roles(&[("manager", true)]), &empty_owner).err().unwrap()),
        "`ownerId` must with at least one character"
    );
    assert!(check_post_unit(&roles(&[]), &empty_owner).is_ok());
}

#[test]
fn new_unit_has_its_owner_as_member() {
    let data = PostUnitData { code: "x".to_string(), owner_id: None, name: None, info: None };
    let u = new_unit("id1".to_string(), "x".to_string(), 5, "o1", &data);
    assert_eq!(u.owner_id, "o1");
    assert_eq!(u.member_ids, strings(&["o1"]));
    assert_eq!(u.name, "");
    assert!(u.info.is_empty());
    assert_eq!(u.created_at, 5);
    assert_eq!(u.modified_at, 5);
}

#[test]
fn patch_owner_checks() {
    let admin = roles(&[("admin", true)]);
    assert_eq!(check_patch_owner(&admin, &patch(Some("o2"), None)).unwrap(), Some("o2".to_string()));
    assert_eq!(
        param_text(check_patch_owner(&admin, &patch(Some(""), None)).unwrap_err()),
        "`ownerId` must with at least one character"
    );
    assert_eq!(check_patch_owner(&roles(&[]), &patch(Some(""), None)).unwrap(), None);
}

#[test]
fn patch_members() {
    let admin = roles(&[("admin", true)]);
    let target = unit("o1", &["o1", "m1"]);
    let m = patch_unit_members(&admin, &patch(None, Some(&["b", "a", "b"])), &target).unwrap();
    assert_eq!(m, Some(strings(&["a", "b"])));
    // A new owner that is not a member brings the present members.
    let m = patch_unit_members(&admin, &patch(Some("o2"), None), &target).unwrap();
    assert_eq!(m, Some(strings(&["m1", "o1"])));
    let m = patch_unit_members(&admin, &patch(Some("m1"), None), &target).unwrap();
    assert_eq!(m, None);
    let e = patch_unit_members(&admin, &patch(None, Some(&["a", ""])), &target).unwrap_err();
    assert_eq!(param_text(e), "`memberIds` item must with at least one character");
    let m = patch_unit_members(&roles(&[]), &patch(None, Some(&["a"])), &target).unwrap();
    assert_eq!(m, None);
}

#[test]
fn patch_updates() {
    let admin = roles(&[("admin", true)]);
    let target = unit("o1", &["o1"]);
    let data = patch(Some("o2"), Some(&["m1"]));
    let u = unit_updates(&admin, &data, &target, Some(strings(&["m1"])), 9).unwrap();
    assert_eq!(u.owner_id, Some("o2".to_string()));
    assert_eq!(u.member_ids, Some(strings(&["m1", "o2"])));
    assert_eq!(u.modified_at, 9);
    let data = patch(None, Some(&["o1", "m1"]));
    let u = unit_updates(&admin, &data, &target, Some(strings(&["m1", "o1"])), 9).unwrap();
    assert_eq!(u.member_ids, Some(strings(&["m1", "o1"])));
    // A user without the administrator or the manager role changes the name and the
    // information only.
    let e = unit_updates(&roles(&[]), &patch(Some("o2"), None), &target, None, 9).unwrap_err();
    assert_eq!(param_text(e), "at least one parameter");
    let data = PatchUnitData {
        owner_id: None,
        member_ids: None,
        name: Some("n".to_string()),
        info: Some(vec![(String::new(), "1".to_string())]),
    };
    let e = unit_updates(&roles(&[]), &data, &target, None, 9).unwrap_err();
    assert_eq!(param_text(e), "`info` key must not be empty");
}

#[test]
fn unit_presentation() {
    let u = unit("o1", &["o1", "m1"]);
    let d = unit_transform(&u);
    assert_eq!(d.unit_id, "unit1");
    assert_eq!(d.created_at, "1970-01-01T00:00:00.000Z");
    assert_eq!(d.modified_at, "2023-11-14T22:13:20.123Z");
    assert_eq!(d.member_ids, strings(&["o1", "m1"]));
    assert_eq!(d.info, vec![("k".to_string(), "1".to_string())]);
    let l = unit_list_transform(&vec![unit("a", &[]), unit("b", &[])]);
    assert_eq!(l.len(), 2);
    assert_eq!(l[1].owner_id, "b");
    let items = strings(&["{}", "{}"]);
    assert_eq!(unit_list_transform_bytes(&items, true, true, None), "{\"data\":[{},{}]}");
    assert_eq!(
        unit_list_transform_bytes(&items, true, false, Some(ListFormat::Array)),
        "[{},{}"
    );
}
