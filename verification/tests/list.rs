use sylvia_iot_broker::routes::v1::list::{
    frame_list, list_limit, non_empty, parse_sort_args, split_str, LIST_CURSOR_MAX,
    LIST_LIMIT_DEFAULT,
};
use sylvia_iot_broker::routes::ApiError;

fn strings(v: &[&str]) -> Vec<String> {
    v.iter().map(|s| s.to_string()).collect()
}

fn param_text(e: ApiError) -> String {
    match e {
        ApiError::Param(m) => m,
        other => panic!("not a parameter error: {:?}", other),
    }
}

#[test]
fn limit_defaults_and_unlimited() {
    assert_eq!(list_limit(None), Some(LIST_LIMIT_DEFAULT));
    assert_eq!(list_limit(None), Some(100));
    assert_eq!(list_limit(Some(0)), None);
    assert_eq!(list_limit(Some(7)), Some(7));
    assert_eq!(LIST_CURSOR_MAX, 100);
}

#[test]
fn empty_parameter_is_no_condition() {
    assert_eq!(non_empty(&None), None);
    assert_eq!(non_empty(&Some(String::new())), None);
    assert_eq!(non_empty(&Some("abc".to_string())), Some("abc".to_string()));
}

#[test]
fn split_keeps_empty_pieces() {
    assert_eq!(split_str("a,b", ','), strings(&["a", "b"]));
    assert_eq!(split_str("", ','), strings(&[""]));
    assert_eq!(split_str(",a,", ','), strings(&["", "a", ""]));
    assert_eq!(split_str("x:y:z", ':'), strings(&["x", "y", "z"]));
}

#[test]
fn sort_args_accepted() {
    let fields = strings(&["code", "created", "modified", "name"]);
    let r = parse_sort_args("name:desc,code:asc", &fields).unwrap();
    assert_eq!(r, vec![(3, false), (0, true)]);
}

#[test]
fn sort_args_refused() {
    let fields = strings(&["code", "created"]);
    let e = parse_sort_args("name:asc", &fields).unwrap_err();
    assert_eq!(param_text(e), "invalid sort key name");
    let e = parse_sort_args("code", &fields).unwrap_err();
    assert_eq!(param_text(e), "wrong sort argument");
    let e = parse_sort_args("code:up", &fields).unwrap_err();
    assert_eq!(param_text(e), "invalid sort asc up");
    let e = parse_sort_args("code:asc:x", &fields).unwrap_err();
    assert_eq!(param_text(e), "invalid sort condition");
    let e = parse_sort_args("", &fields).unwrap_err();
    assert_eq!(param_text(e), "invalid sort key ");
    // The first refused condition decides.
    let e = parse_sort_args("code:asc,created,x:y", &fields).unwrap_err();
    assert_eq!(param_text(e), "wrong sort argument");
}

#[test]
fn frame_whole_list() {
    let items = strings(&["{\"a\":1}", "{\"a\":2}"]);
    assert_eq!(frame_list(&items, true, true, true), "[{\"a\":1},{\"a\":2}]");
    assert_eq!(
        frame_list(&items, true, true, false),
        "{\"data\":[{\"a\":1},{\"a\":2}]}"
    );
    assert_eq!(frame_list(&vec![], true, true, true), "[]");
    assert_eq!(frame_list(&vec![], true, true, false), "{\"data\":[]}");
}

#[test]
fn streamed_chunks_read_as_one_list() {
    let a = strings(&["1", "2"]);
    let b = strings(&["3"]);
    let c = strings(&["4", "5"]);
    let all = strings(&["1", "2", "3", "4", "5"]);
    for array in [true, false] {
        let streamed = frame_list(&a, true, false, array)
            + &frame_list(&b, false, false, array)
            + &frame_list(&c, false, true, array);
        assert_eq!(streamed, frame_list(&all, true, true, array));
    }
    assert_eq!(frame_list(&b, false, false, true), ",3");
}
