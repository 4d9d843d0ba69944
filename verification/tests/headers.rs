use client_pipeline::header::{eq_ignore_case, HeaderMap};
use client_pipeline::layers::{SetRequestHeaderLayer, TraceContextLayer};
use client_pipeline::header::Header;
use client_pipeline::message::Request;

#[test]
fn names_match_without_regard_to_ascii_case() {
    assert!(eq_ignore_case(b"User-Agent", b"user-agent"));
    assert!(eq_ignore_case(b"", b""));
    assert!(!eq_ignore_case(b"user-agent", b"user_agent"));
    assert!(!eq_ignore_case(b"host", b"hosts"));
    // '@' and '`' differ by 32 but are no letters
    assert!(!eq_ignore_case(b"@", b"`"));
    assert!(!eq_ignore_case(b"[", b"{"));
    assert!(eq_ignore_case(b"Z", b"z"));
    assert!(eq_ignore_case(b"A", b"a"));
}

#[test]
fn append_keeps_values_in_order() {
    let mut map = HeaderMap::new();
    map.append("Accept", b"a");
    map.append("accept", b"b");
    map.append("Other", b"c");
    assert_eq!(map.len(), 3);
    assert_eq!(map.get_all("ACCEPT"), vec![b"a".to_vec(), b"b".to_vec()]);
    assert_eq!(map.get_all("other"), vec![b"c".to_vec()]);
    assert!(map.get_all("missing").is_empty());
    assert!(map.contains("accept"));
    assert!(!map.contains("missing"));
    assert_eq!(map.get(2).unwrap().name, b"Other".to_vec());
    assert_eq!(map.get(0).unwrap().value, b"a".to_vec());
    assert!(map.get(3).is_none());
}

#[test]
fn insert_replaces_every_value_of_the_name() {
    let mut map = HeaderMap::new();
    map.append("X", b"1");
    map.append("Y", b"2");
    map.append("x", b"3");
    map.insert("X", b"4");
    assert_eq!(map.get_all("x"), vec![b"4".to_vec()]);
    assert_eq!(map.get_all("y"), vec![b"2".to_vec()]);
    assert_eq!(map.len(), 2);
}

#[test]
fn remove_takes_every_value_of_the_name_only() {
    let mut map = HeaderMap::new();
    map.append("X", b"1");
    map.append("Y", b"2");
    map.append("x", b"3");
    map.remove("x");
    assert!(map.get_all("x").is_empty());
    assert_eq!(map.get_all("Y"), vec![b"2".to_vec()]);
    map.remove("absent");
    assert_eq!(map.len(), 1);
}

#[test]
fn header_map_copy_is_independent() {
    let mut map = HeaderMap::new();
    map.append("a", b"1");
    let copy = map.clone();
    map.insert("a", b"2");
    assert_eq!(copy.get_all("a"), vec![b"1".to_vec()]);
}

#[test]
fn overriding_layer_replaces_what_the_caller_gave() {
    let layer = SetRequestHeaderLayer::overriding("user-agent", "product/1");
    let mut request = Request::new("GET", "http://h/");
    request.headers.append("User-Agent", b"caller/0");
    request.headers.append("USER-AGENT", b"caller/1");
    request.headers.append("Accept", b"*/*");
    layer.apply(&mut request);
    assert_eq!(request.headers.get_all("User-Agent"), vec![b"product/1".to_vec()]);
    assert_eq!(request.headers.get_all("accept"), vec![b"*/*".to_vec()]);
    assert_eq!(request.method, "GET");
    assert_eq!(request.uri, "http://h/");
    // setting it again changes nothing
    layer.apply(&mut request);
    assert_eq!(request.headers.get_all("User-Agent"), vec![b"product/1".to_vec()]);
    assert_eq!(request.headers.len(), 2);
}

#[test]
fn trace_context_sets_each_field() {
    let mut request = Request::new("GET", "http://h/");
    request.headers.append("traceparent", b"old");
    request.headers.append("accept", b"*/*");
    let context = vec![
        Header { name: b"traceparent".to_vec(), value: b"00-abc-def-01".to_vec() },
        Header { name: b"tracestate".to_vec(), value: b"k=v".to_vec() },
    ];
    TraceContextLayer::new().inject(&mut request, &context);
    assert_eq!(request.headers.get_all("traceparent"), vec![b"00-abc-def-01".to_vec()]);
    assert_eq!(request.headers.get_all("tracestate"), vec![b"k=v".to_vec()]);
    assert_eq!(request.headers.get_all("accept"), vec![b"*/*".to_vec()]);
    assert_eq!(request.headers.len(), 3);
}

#[test]
fn trace_context_leaves_the_identification_header_alone() {
    let layer = SetRequestHeaderLayer::overriding("user-agent", "product/1");
    let mut request = Request::new("GET", "http://h/");
    request.headers.append("User-Agent", b"caller/0");
    layer.apply(&mut request);
    let context = vec![
        Header { name: b"traceparent".to_vec(), value: b"00-abc-def-01".to_vec() },
        Header { name: b"baggage".to_vec(), value: b"k=v".to_vec() },
    ];
    TraceContextLayer::new().inject(&mut request, &context);
    assert_eq!(request.headers.get_all("user-agent"), vec![b"product/1".to_vec()]);
    // a context that names the header itself replaces it
    let naming = vec![Header { name: b"User-Agent".to_vec(), value: b"traced/2".to_vec() }];
    TraceContextLayer::new().inject(&mut request, &naming);
    assert_eq!(request.headers.get_all("user-agent"), vec![b"traced/2".to_vec()]);
}
