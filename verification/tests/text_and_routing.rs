use envoy_locality::routing::{
    docompute_url, getdata_url, jump_list_contains, parse_jump_list, routing_headers, stop_url,
};
use envoy_locality::text::{append_decimal, decimal_text, decode_body};

#[test]
fn decimal_of_small_and_large_numbers() {
    assert_eq!(decimal_text(0), "0");
    assert_eq!(decimal_text(7), "7");
    assert_eq!(decimal_text(10), "10");
    assert_eq!(decimal_text(4096), "4096");
    assert_eq!(decimal_text(u64::MAX), "18446744073709551615");
}

#[test]
fn decimal_appends_to_existing_text() {
    let mut s = String::from("id-");
    append_decimal(&mut s, 305);
    assert_eq!(s, "id-305");
}

#[test]
fn distinct_numbers_give_distinct_text() {
    assert_ne!(decimal_text(12), decimal_text(120));
    assert_ne!(decimal_text(1), decimal_text(10));
}

#[test]
fn body_decoding_accepts_utf8_only() {
    assert_eq!(decode_body("héllo".as_bytes()), Some("héllo".to_string()));
    assert_eq!(decode_body(b""), Some(String::new()));
    assert_eq!(decode_body(&[0xff, 0xfe]), None);
    assert_eq!(decode_body(&[0xc3]), None);
}

#[test]
fn jump_list_parsing() {
    assert_eq!(parse_jump_list(&"[1, 2, 3]".to_string()), Some(vec![1, 2, 3]));
    assert_eq!(parse_jump_list(&"[]".to_string()), Some(vec![]));
    assert_eq!(parse_jump_list(&" [4] ".to_string()), Some(vec![4]));
    assert_eq!(parse_jump_list(&"[-1]".to_string()), None);
    assert_eq!(parse_jump_list(&"[1.5]".to_string()), None);
    assert_eq!(parse_jump_list(&"{\"a\": 1}".to_string()), None);
    assert_eq!(parse_jump_list(&"1".to_string()), None);
    assert_eq!(parse_jump_list(&"[1".to_string()), None);
}

#[test]
fn jump_list_membership() {
    assert!(jump_list_contains(&vec![1, 3], 3));
    assert!(!jump_list_contains(&vec![1, 3], 2));
    assert!(!jump_list_contains(&vec![], 1));
    assert!(!jump_list_contains(&vec![1u64 << 32], 0));
}

fn pairs(hs: &[envoy_locality::record::Header]) -> Vec<(String, String)> {
    hs.iter().map(|h| (h.name.clone(), h.value.clone())).collect()
}

#[test]
fn headers_for_a_local_jump() {
    let raw = "[2,3]".to_string();
    let hs = routing_headers(&raw, &vec![2, 3], 2);
    assert_eq!(
        pairs(&hs),
        vec![
            ("x-stay-local".to_string(), "2".to_string()),
            ("x-force-local".to_string(), "[2,3]".to_string()),
        ]
    );
}

#[test]
fn headers_for_a_remote_jump() {
    let raw = "[2,3]".to_string();
    let hs = routing_headers(&raw, &vec![2, 3], 4);
    assert_eq!(pairs(&hs), vec![("x-force-local".to_string(), "[2,3]".to_string())]);
}

#[test]
fn urls() {
    assert_eq!(docompute_url(&"80".to_string(), 2), "http://127.0.0.1:80/service/2/docompute");
    assert_eq!(stop_url(&"10.0.0.5".to_string(), &"8080".to_string()), "http://10.0.0.5:8080/service/0/stop");
    assert_eq!(
        getdata_url(&"10.0.0.6".to_string(), &"80".to_string(), 3),
        "http://10.0.0.6:80/service/3/getdata"
    );
}
