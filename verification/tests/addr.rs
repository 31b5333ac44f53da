use sylvia_iot_broker::routes::v1::addr::{
    check_addr_range, check_addrs_count, check_range_len, expand_addr_range, lower_addrs,
};
use sylvia_iot_broker::routes::ApiError;

fn param_text(e: ApiError) -> String {
    match e {
        ApiError::Param(m) => m,
        other => panic!("not a parameter error: {:?}", other),
    }
}

#[test]
fn range_accepted() {
    assert_eq!(check_addr_range("0a", "0F").unwrap(), (10, 15));
    assert_eq!(check_addr_range("+1", "+2").unwrap(), (1, 2));
    assert_eq!(check_addr_range("0000", "03ff").unwrap(), (0, 1023));
}

#[test]
fn range_refused() {
    assert_eq!(param_text(check_addr_range("0g", "0f").unwrap_err()), "invalid address format");
    assert_eq!(param_text(check_addr_range("0a", "").unwrap_err()), "invalid address format");
    assert_eq!(param_text(check_addr_range("abc", "abd").unwrap_err()), "invalid address format");
    assert_eq!(
        param_text(check_addr_range("1".repeat(34).as_str(), "1".repeat(34).as_str()).unwrap_err()),
        "invalid address format"
    );
    assert_eq!(
        param_text(check_addr_range("10", "0f").unwrap_err()),
        "`startAddr` cannot larger than `endAddr`"
    );
    assert_eq!(
        param_text(check_addr_range("0000", "0400").unwrap_err()),
        "numbers between `startAddr` and `endAddr` cannot more than 1024"
    );
}

#[test]
fn range_length_in_bytes() {
    assert!(check_range_len("0a", "0b").is_ok());
    assert_eq!(
        param_text(check_range_len("0a", "0b0c").unwrap_err()),
        "`startAddr` and `endAddr` must have the same length"
    );
    // "é" takes two bytes: the same number of characters is not the same length.
    assert!(check_range_len("é", "ab").is_ok());
    assert!(check_range_len("éa", "ab").is_err());
}

#[test]
fn range_expansion() {
    let v = expand_addr_range(0x0e, 0x11, 2);
    assert_eq!(v, vec!["0e", "0f", "10", "11"]);
    let v = expand_addr_range(0xfe, 0xff, 4);
    assert_eq!(v, vec!["00fe", "00ff"]);
    // An odd length is rounded up to an even number of digits.
    let v = expand_addr_range(5, 5, 3);
    assert_eq!(v, vec!["0005"]);
    // The digits beyond the length are masked.
    let v = expand_addr_range(0x1ff, 0x1ff, 2);
    assert_eq!(v, vec!["ff"]);
}

#[test]
fn range_round_trip() {
    let (s, e) = check_addr_range("00AB", "00aD").unwrap();
    let v = expand_addr_range(s, e, 4);
    assert_eq!(v, vec!["00ab", "00ac", "00ad"]);
}

#[test]
fn bulk_addresses() {
    assert_eq!(
        param_text(check_addrs_count(&vec![]).unwrap_err()),
        "`networkAddrs` must with at least one address"
    );
    let many: Vec<String> = (0..1025).map(|i| format!("{:04x}", i)).collect();
    assert_eq!(
        param_text(check_addrs_count(&many).unwrap_err()),
        "`networkAddrs` cannot more than 1024"
    );
    assert!(check_addrs_count(&many[..1024].to_vec()).is_ok());
    let addrs = vec!["AbC".to_string(), "0F".to_string()];
    assert_eq!(lower_addrs(&addrs).unwrap(), vec!["abc", "0f"]);
    let addrs = vec!["ab".to_string(), String::new()];
    assert_eq!(
        param_text(lower_addrs(&addrs).unwrap_err()),
        "`networkAddrs` must be non-empty address array"
    );
}
