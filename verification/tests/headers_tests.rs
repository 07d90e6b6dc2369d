use zentinel_agents::headers::{HeaderMap, HeadersRef, HeadersCow, HeaderIterator, iter_flat};
use zentinel_agents::headers::apply_header_op;
use zentinel_agents::protocol::HeaderOp;
use zentinel_agents::names;

fn sample_headers() -> HeaderMap {
    let mut h = HeaderMap::new();
    h.set_values("content-type".to_string(), vec!["application/json".to_string()]);
    h.set_values(
        "accept".to_string(),
        vec!["text/html".to_string(), "application/json".to_string()],
    );
    h.set_values("x-custom".to_string(), vec!["value".to_string()]);
    h
}

#[test]
fn test_headers_ref() {
    let headers = sample_headers();
    let ref_ = HeadersRef::new(&headers);

    assert_eq!(ref_.get_first("content-type").map(|s| s.as_str()), Some("application/json"));
    assert_eq!(ref_.get("accept").map(|v| v.len()), Some(2));
    assert!(ref_.contains("x-custom"));
    assert!(!ref_.contains("not-present"));
    assert_eq!(ref_.len(), 3);
}

#[test]
fn test_headers_ref_iter() {
    let headers = sample_headers();
    let ref_ = HeadersRef::new(&headers);

    let flat = ref_.iter_flat();
    assert!(flat.iter().any(|(k, v)| k == "content-type" && v == "application/json"));
    assert!(flat.iter().any(|(k, v)| k == "accept" && v == "text/html"));
    assert!(flat.iter().any(|(k, v)| k == "accept" && v == "application/json"));
}

#[test]
fn test_headers_cow_borrowed() {
    let headers = sample_headers();
    let cow = HeadersCow::borrowed(&headers);

    assert!(!cow.is_owned());
    assert_eq!(cow.get_first("content-type").map(|s| s.as_str()), Some("application/json"));
}

#[test]
fn test_headers_cow_mutation() {
    let headers = sample_headers();
    let mut cow = HeadersCow::borrowed(&headers);

    assert!(!cow.is_owned());

    cow.set("x-new".to_string(), "new-value".to_string());
    assert!(cow.is_owned());

    assert_eq!(cow.get_first("x-new").map(|s| s.as_str()), Some("new-value"));
    assert!(!headers.contains("x-new"));
}

#[test]
fn test_headers_cow_add() {
    let headers = sample_headers();
    let mut cow = HeadersCow::borrowed(&headers);

    cow.add("accept".to_string(), "text/plain".to_string());
    assert!(cow.is_owned());

    let accept = cow.get("accept").unwrap();
    assert_eq!(accept.len(), 3);
}

#[test]
fn test_header_iterator() {
    let headers = sample_headers();
    let mut iter = HeaderIterator::new(&headers);

    let mut pairs: Vec<(String, String)> = Vec::new();
    while let Some(p) = iter.next() {
        pairs.push(p);
    }
    assert!(pairs.iter().any(|(k, v)| k == "content-type" && v == "application/json"));
    assert!(pairs.iter().any(|(k, v)| k == "accept" && v == "text/html"));
    assert!(pairs.iter().any(|(k, v)| k == "accept" && v == "application/json"));
    assert!(pairs.iter().any(|(k, v)| k == "x-custom" && v == "value"));
}

#[test]
fn test_header_names() {
    assert_eq!(names::CONTENT_TYPE, "content-type");
    assert_eq!(names::AUTHORIZATION, "authorization");
    assert_eq!(names::X_FORWARDED_FOR, "x-forwarded-for");
}

#[test]
fn test_iter_flat_helper() {
    let headers = sample_headers();
    let pairs = iter_flat(&headers);

    assert_eq!(pairs.len(), 4);
    assert!(pairs.iter().any(|(k, v)| k == "content-type" && v == "application/json"));
    assert!(pairs.iter().any(|(k, v)| k == "accept" && v == "text/html"));
    assert!(pairs.iter().any(|(k, v)| k == "accept" && v == "application/json"));
    assert!(pairs.iter().any(|(k, v)| k == "x-custom" && v == "value"));
}

#[test]
fn set_is_idempotent_on_a_map() {
    let mut once = HeaderMap::new();
    let op = HeaderOp::SetHeader { name: "x-a".to_string(), value: "1".to_string() };
    apply_header_op(&mut once, &op);
    let mut twice = HeaderMap::new();
    apply_header_op(&mut twice, &op);
    apply_header_op(&mut twice, &op);
    assert_eq!(once.get("x-a"), twice.get("x-a"));
    assert_eq!(once.len(), twice.len());
}

#[test]
fn add_appends_in_order() {
    let mut m = HeaderMap::new();
    apply_header_op(&mut m, &HeaderOp::AddHeader { name: "x-a".to_string(), value: "1".to_string() });
    apply_header_op(&mut m, &HeaderOp::AddHeader { name: "x-a".to_string(), value: "2".to_string() });
    assert_eq!(m.get("x-a").unwrap().as_slice(), &["1".to_string(), "2".to_string()]);
}

#[test]
fn remove_after_remove_is_noop() {
    let mut m = HeaderMap::new();
    m.set("x-a".to_string(), "1".to_string());
    m.set("x-b".to_string(), "2".to_string());
    let mut n = m.duplicate();
    let _ = m.remove("x-a");
    let _ = n.remove("x-a");
    let _ = n.remove("x-a");
    assert_eq!(m.len(), n.len());
    assert!(!n.contains("x-a"));
    assert!(n.contains("x-b"));
}
