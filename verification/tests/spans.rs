use client_pipeline::message::{ConnectionInfo, Request, Response, SocketAddress};
use client_pipeline::span::{
    open_span, EnrichSpanOnError, EnrichSpanOnResponse, MakeSpanForRequest, Span,
};
use client_pipeline::value::{KeyValue, Value};

fn text_field(span: &Span, key: &str) -> Vec<String> {
    span.fields()
        .iter()
        .filter(|f| f.key == key)
        .map(|f| match &f.value {
            Value::Str(s) => s.clone(),
            other => panic!("field {} is no text: {:?}", key, other),
        })
        .collect()
}

fn number_field(span: &Span, key: &str) -> Vec<u64> {
    span.fields()
        .iter()
        .filter(|f| f.key == key)
        .map(|f| match &f.value {
            Value::U64(n) => *n,
            other => panic!("field {} is no number: {:?}", key, other),
        })
        .collect()
}

fn keys(fields: &[KeyValue]) -> Vec<&str> {
    fields.iter().map(|f| f.key.as_str()).collect()
}

#[test]
fn span_of_bare_request_has_the_fixed_fields() {
    let request = Request::new("GET", "https://example.com/.well-known/openid-configuration");
    let span = MakeSpanForRequest::default().make_span(&request);
    assert_eq!(span.name(), "http.client.request");
    assert!(!span.is_closed());
    assert_eq!(
        keys(span.fields()),
        vec![
            "otel.kind",
            "http.request.method",
            "url.full",
            "network.transport",
            "mas.category"
        ]
    );
    assert_eq!(text_field(&span, "otel.kind"), vec!["client"]);
    assert_eq!(text_field(&span, "http.request.method"), vec!["GET"]);
    assert_eq!(
        text_field(&span, "url.full"),
        vec!["https://example.com/.well-known/openid-configuration"]
    );
    assert_eq!(text_field(&span, "network.transport"), vec!["tcp"]);
    assert_eq!(text_field(&span, "mas.category"), vec!["UNSET"]);
}

#[test]
fn span_reads_host_length_and_agent_from_headers() {
    let mut request = Request::new("POST", "https://example.com/register");
    request.headers.append("Host", b"example.com:8443");
    request.headers.append("Content-Length", b"42");
    request.headers.append("User-Agent", b"curl/8.0");
    let span = MakeSpanForRequest { category: Some("registration") }.make_span(&request);
    assert_eq!(
        keys(span.fields()),
        vec![
            "otel.kind",
            "http.request.method",
            "url.full",
            "server.address",
            "http.request.body.size",
            "network.transport",
            "user_agent.original",
            "mas.category"
        ]
    );
    assert_eq!(text_field(&span, "server.address"), vec!["example.com:8443"]);
    assert_eq!(number_field(&span, "http.request.body.size"), vec![42]);
    assert_eq!(text_field(&span, "user_agent.original"), vec!["curl/8.0"]);
    assert_eq!(text_field(&span, "mas.category"), vec!["registration"]);
}

#[test]
fn content_length_must_be_a_number() {
    let mut request = Request::new("POST", "https://example.com/");
    request.headers.append("content-length", b"34v95");
    let span = MakeSpanForRequest::default().make_span(&request);
    assert!(number_field(&span, "http.request.body.size").is_empty());
}

#[test]
fn equal_content_lengths_agree_and_unequal_ones_do_not() {
    let mut same = Request::new("POST", "https://example.com/");
    same.headers.append("content-length", b"5");
    same.headers.append("Content-Length", b"5");
    let span = MakeSpanForRequest::default().make_span(&same);
    assert_eq!(number_field(&span, "http.request.body.size"), vec![5]);

    let mut differing = Request::new("POST", "https://example.com/");
    differing.headers.append("content-length", b"5");
    differing.headers.append("content-length", b"6");
    let span = MakeSpanForRequest::default().make_span(&differing);
    assert!(number_field(&span, "http.request.body.size").is_empty());
}

#[test]
fn user_agent_needs_one_visible_value() {
    let mut two = Request::new("GET", "https://example.com/");
    two.headers.append("user-agent", b"a/1");
    two.headers.append("user-agent", b"b/2");
    let span = MakeSpanForRequest::default().make_span(&two);
    assert!(text_field(&span, "user_agent.original").is_empty());

    let mut opaque = Request::new("GET", "https://example.com/");
    opaque.headers.append("user-agent", b"caf\xe9");
    let span = MakeSpanForRequest::default().make_span(&opaque);
    assert!(text_field(&span, "user_agent.original").is_empty());

    let mut tabbed = Request::new("GET", "https://example.com/");
    tabbed.headers.append("user-agent", b"a\tb");
    let span = MakeSpanForRequest::default().make_span(&tabbed);
    assert_eq!(text_field(&span, "user_agent.original"), vec!["a\tb"]);

    let mut control = Request::new("GET", "https://example.com/");
    control.headers.append("user-agent", b"a\nb");
    let span = MakeSpanForRequest::default().make_span(&control);
    assert!(text_field(&span, "user_agent.original").is_empty());
}

#[test]
fn host_that_is_no_authority_is_left_out() {
    let mut request = Request::new("GET", "https://example.com/");
    request.headers.append("host", b"not a host");
    let span = MakeSpanForRequest::default().make_span(&request);
    assert!(text_field(&span, "server.address").is_empty());
}

#[test]
fn open_span_lays_the_fields_out_in_order() {
    let span = open_span(
        Some("X"),
        "PUT",
        "http://h/p",
        Some("h".to_owned()),
        Some(7),
        None,
    );
    assert_eq!(
        keys(span.fields()),
        vec![
            "otel.kind",
            "http.request.method",
            "url.full",
            "server.address",
            "http.request.body.size",
            "network.transport",
            "mas.category"
        ]
    );
    assert_eq!(text_field(&span, "mas.category"), vec!["X"]);
    assert_eq!(number_field(&span, "http.request.body.size"), vec![7]);
}

#[test]
fn response_without_connection_data_is_recorded_and_reported() {
    let mut span = MakeSpanForRequest::default().make_span(&Request::new("GET", "http://h/"));
    let before = span.fields().len();
    let mut response = Response::new(404);
    response.headers.append("Content-Length", b"120");
    let known = EnrichSpanOnResponse.enrich_span(&mut span, &response);
    assert!(!known);
    assert_eq!(
        keys(&span.fields()[before..]),
        vec![
            "otel.status_code",
            "http.response.status_code",
            "http.response.body.size"
        ]
    );
    assert_eq!(text_field(&span, "otel.status_code"), vec!["OK"]);
    assert_eq!(number_field(&span, "http.response.status_code"), vec![404]);
    assert_eq!(number_field(&span, "http.response.body.size"), vec![120]);
}

#[test]
fn response_with_connection_data_records_both_ends() {
    let mut span = MakeSpanForRequest::default().make_span(&Request::new("GET", "http://h/"));
    let before = span.fields().len();
    let mut response = Response::new(200);
    response.connection = Some(ConnectionInfo {
        local: SocketAddress { ip: "::1".to_owned(), port: 50123, ipv4: false },
        remote: SocketAddress { ip: "2001:db8::2".to_owned(), port: 443, ipv4: false },
    });
    let known = EnrichSpanOnResponse.enrich_span(&mut span, &response);
    assert!(known);
    assert_eq!(
        keys(&span.fields()[before..]),
        vec![
            "otel.status_code",
            "http.response.status_code",
            "network.type",
            "client.address",
            "client.port",
            "server.address",
            "server.port"
        ]
    );
    assert_eq!(text_field(&span, "network.type"), vec!["ipv6"]);
    assert_eq!(text_field(&span, "client.address"), vec!["2001:db8::2"]);
    assert_eq!(number_field(&span, "client.port"), vec![443]);
    assert_eq!(text_field(&span, "server.address"), vec!["::1"]);
    assert_eq!(number_field(&span, "server.port"), vec![50123]);
}

#[test]
fn ipv4_family_follows_the_local_end() {
    let mut span = MakeSpanForRequest::default().make_span(&Request::new("GET", "http://h/"));
    let mut response = Response::new(200);
    response.connection = Some(ConnectionInfo {
        local: SocketAddress { ip: "10.0.0.1".to_owned(), port: 1, ipv4: true },
        remote: SocketAddress { ip: "10.0.0.2".to_owned(), port: 2, ipv4: true },
    });
    EnrichSpanOnResponse.enrich_span(&mut span, &response);
    assert_eq!(text_field(&span, "network.type"), vec!["ipv4"]);
}

#[test]
fn error_is_recorded_with_its_description() {
    let mut span = MakeSpanForRequest::default().make_span(&Request::new("GET", "http://h/"));
    let before = span.fields().len();
    EnrichSpanOnError.enrich_span(&mut span, "connection refused");
    assert_eq!(keys(&span.fields()[before..]), vec!["otel.status_code", "rust.error"]);
    assert_eq!(text_field(&span, "otel.status_code"), vec!["ERROR"]);
    assert_eq!(text_field(&span, "rust.error"), vec!["connection refused"]);
}

#[test]
fn closed_span_takes_no_more_fields() {
    let mut span = MakeSpanForRequest::default().make_span(&Request::new("GET", "http://h/"));
    span.close();
    assert!(span.is_closed());
    let before = span.fields().len();
    EnrichSpanOnError.enrich_span(&mut span, "late");
    EnrichSpanOnResponse.enrich_span(&mut span, &Response::new(200));
    span.record(&vec![KeyValue::flag("x", true)]);
    assert_eq!(span.fields().len(), before);
}

#[test]
fn span_copy_is_independent() {
    let mut span = Span::open("s", vec![KeyValue::unsigned("a", 1)]);
    let copy = span.clone();
    span.record(&vec![KeyValue::signed("b", -2)]);
    assert_eq!(copy.fields().len(), 1);
    assert_eq!(span.fields().len(), 2);
    assert_eq!(copy.name(), "s");
}
