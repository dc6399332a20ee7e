use std::rc::Rc;

use kv_client::{
    decimal_string, delete_request, get_request, lock_request, put_request, KVPair, LockAction,
    Method,
};

fn entry(key: &str, flags: Option<u64>, session: Option<&str>) -> KVPair<String> {
    KVPair {
        Key: key.to_string(),
        CreateIndex: None,
        ModifyIndex: None,
        LockIndex: None,
        Flags: flags,
        Value: Rc::new("x".to_string()),
        Session: session.map(|s| s.to_string()),
    }
}

fn pairs(items: &[(&str, &str)]) -> Vec<(String, String)> {
    items.iter().map(|(k, v)| (k.to_string(), v.to_string())).collect()
}

#[test]
fn decimal_string_of_single_digits() {
    for n in 0..10u64 {
        assert_eq!(decimal_string(n), n.to_string());
    }
    assert_eq!(decimal_string(0), "0");
    assert_eq!(decimal_string(5), "5");
}

#[test]
fn decimal_string_of_longer_numbers() {
    assert_eq!(decimal_string(10), "10");
    assert_eq!(decimal_string(42), "42");
    assert_eq!(decimal_string(1000), "1000");
    assert_eq!(decimal_string(9007199254740993), "9007199254740993");
    assert_eq!(decimal_string(u64::MAX), "18446744073709551615");
}

#[test]
fn decimal_string_agrees_with_std() {
    let mut n: u64 = 1;
    for _ in 0..64 {
        assert_eq!(decimal_string(n), n.to_string());
        assert_eq!(decimal_string(n - 1), (n - 1).to_string());
        n = n.wrapping_mul(2);
    }
}

#[test]
fn get_request_has_method_path_and_no_params() {
    let q = get_request("config/db");
    assert_eq!(q.method, Method::Get);
    assert_eq!(q.path, "/v1/kv/config/db");
    assert!(q.params.is_empty());
}

#[test]
fn delete_request_has_method_path_and_no_params() {
    let q = delete_request("config/db");
    assert_eq!(q.method, Method::Delete);
    assert_eq!(q.path, "/v1/kv/config/db");
    assert!(q.params.is_empty());
}

#[test]
fn requests_accept_the_empty_key() {
    assert_eq!(get_request("").path, "/v1/kv/");
    assert_eq!(delete_request("").path, "/v1/kv/");
}

#[test]
fn put_request_without_flags_has_no_params() {
    let e = entry("a", None, None);
    let w = put_request(&e);
    assert_eq!(w.line.method, Method::Put);
    assert_eq!(w.line.path, "/v1/kv/a");
    assert!(w.line.params.is_empty());
    assert!(Rc::ptr_eq(w.body, &e.Value));
}

#[test]
fn put_request_omits_flags_zero() {
    let e = entry("a", Some(0), None);
    let w = put_request(&e);
    assert!(w.line.params.is_empty());
}

#[test]
fn put_request_sends_flags_five() {
    let e = entry("a", Some(5), None);
    let w = put_request(&e);
    assert_eq!(w.line.params, pairs(&[("flags", "5")]));
}

#[test]
fn put_request_ignores_the_session() {
    let e = entry("a", Some(7), Some("S1"));
    let w = put_request(&e);
    assert_eq!(w.line.params, pairs(&[("flags", "7")]));
}

#[test]
fn acquire_request_carries_the_session() {
    let e = entry("lock/a", None, Some("S1"));
    let w = lock_request(LockAction::Acquire, &e).expect("a session is set");
    assert_eq!(w.line.method, Method::Put);
    assert_eq!(w.line.path, "/v1/kv/lock/a");
    assert_eq!(w.line.params, pairs(&[("acquire", "S1")]));
    assert_eq!(**w.body, "x");
    assert!(Rc::ptr_eq(w.body, &e.Value));
}

#[test]
fn release_request_carries_the_session() {
    let e = entry("lock/a", None, Some("S1"));
    let w = lock_request(LockAction::Release, &e).expect("a session is set");
    assert_eq!(w.line.method, Method::Put);
    assert_eq!(w.line.path, "/v1/kv/lock/a");
    assert_eq!(w.line.params, pairs(&[("release", "S1")]));
    assert!(Rc::ptr_eq(w.body, &e.Value));
}

#[test]
fn lock_requests_put_flags_before_the_session() {
    let e = entry("lock/a", Some(5), Some("S1"));
    let a = lock_request(LockAction::Acquire, &e).expect("a session is set");
    assert_eq!(a.line.params, pairs(&[("flags", "5"), ("acquire", "S1")]));
    let r = lock_request(LockAction::Release, &e).expect("a session is set");
    assert_eq!(r.line.params, pairs(&[("flags", "5"), ("release", "S1")]));
}

#[test]
fn lock_requests_omit_flags_zero() {
    let e = entry("lock/a", Some(0), Some("S1"));
    let a = lock_request(LockAction::Acquire, &e).expect("a session is set");
    assert_eq!(a.line.params, pairs(&[("acquire", "S1")]));
    let r = lock_request(LockAction::Release, &e).expect("a session is set");
    assert_eq!(r.line.params, pairs(&[("release", "S1")]));
}

#[test]
fn lock_requests_need_a_session() {
    let e = entry("lock/a", Some(5), None);
    assert!(lock_request(LockAction::Acquire, &e).is_none());
    assert!(lock_request(LockAction::Release, &e).is_none());
}

#[test]
fn lock_request_sends_large_flags_in_decimal() {
    let e = entry("k", Some(u64::MAX), Some("s"));
    let a = lock_request(LockAction::Acquire, &e).expect("a session is set");
    assert_eq!(a.line.params, pairs(&[("flags", "18446744073709551615"), ("acquire", "s")]));
}

#[test]
fn param_names_never_repeat() {
    for flags in [None, Some(0), Some(1), Some(5)] {
        for action in [LockAction::Acquire, LockAction::Release] {
            let e = entry("k", flags, Some("s"));
            let w = lock_request(action, &e).expect("a session is set");
            let mut names: Vec<&String> = w.line.params.iter().map(|p| &p.0).collect();
            let n = names.len();
            names.sort();
            names.dedup();
            assert_eq!(names.len(), n);
        }
    }
}
