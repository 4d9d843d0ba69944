use client_pipeline::client::ClientLayer;
use client_pipeline::stack::{DEFAULT_CAPACITY, DURATION_METRIC, IN_FLIGHT_METRIC, USER_AGENT};
use client_pipeline::message::{Request, Response};
use client_pipeline::service::{Action, ClientService, Failure, Step};
use client_pipeline::span::Span;
use client_pipeline::telemetry::Telemetry;
use client_pipeline::value::{KeyValue, Value};

fn text_of<'a>(pairs: &'a [KeyValue], key: &str) -> Vec<&'a str> {
    pairs
        .iter()
        .filter(|p| p.key == key)
        .map(|p| match &p.value {
            Value::Str(s) => s.as_str(),
            other => panic!("{} is no text: {:?}", key, other),
        })
        .collect()
}

fn spans(telemetry: &[Telemetry]) -> Vec<&Span> {
    telemetry
        .iter()
        .filter_map(|t| match t {
            Telemetry::Span { span, .. } => Some(span),
            _ => None,
        })
        .collect()
}

fn deltas(telemetry: &[Telemetry]) -> Vec<i64> {
    telemetry
        .iter()
        .filter_map(|t| match t {
            Telemetry::InFlight { delta, .. } => Some(*delta),
            _ => None,
        })
        .collect()
}

fn samples(telemetry: &[Telemetry]) -> Vec<(u64, &[KeyValue])> {
    telemetry
        .iter()
        .filter_map(|t| match t {
            Telemetry::Duration { millis, attributes, .. } => Some((*millis, attributes.as_slice())),
            _ => None,
        })
        .collect()
}

fn sent(action: &Action) -> (&Request, &Span, bool) {
    match action {
        Action::Send { request, span, keep_body } => (request, span, *keep_body),
        other => panic!("nothing to send: {:?}", other),
    }
}

fn unchanged(step: &Step) -> bool {
    step.telemetry.is_empty() && matches!(step.action, Action::Rejected) && !step.connection_unknown
}

fn redirecting(status: u16, location: &[u8]) -> Response {
    let mut response = Response::new(status);
    response.headers.append("Location", location);
    response
}

#[test]
fn fixed_constants() {
    assert_eq!(USER_AGENT, "matrix-authentication-service/0.0.1");
    assert_eq!(DEFAULT_CAPACITY, 10);
    assert_eq!(DURATION_METRIC, "http.client.duration");
    assert_eq!(IN_FLIGHT_METRIC, "http.client.active_requests");
    let layer = ClientLayer::new();
    assert_eq!(layer.capacity(), 10);
    assert_eq!(layer.category(), None);
    assert_eq!(ClientLayer::default().category(), None);
}

#[test]
fn redirect_then_success_is_one_call_with_two_spans() {
    let mut service = ClientLayer::new();
    let started = service.start(Request::new("GET", "http://example.com/old"), 1_000);
    let call = started.call;
    let mut log: Vec<Telemetry> = started.step.telemetry;
    assert_eq!(deltas(&log), vec![1]);
    {
        let (request, span, keep_body) = sent(&started.step.action);
        assert_eq!(request.uri, "http://example.com/old");
        assert!(keep_body);
        assert!(!span.is_closed());
    }
    assert_eq!(service.in_flight(), 1);
    assert_eq!(service.slots_in_use(), 1);

    let hop1 = service.on_response(call, redirecting(302, b"/new"), 1_040);
    {
        let (request, span, keep_body) = sent(&hop1.action);
        assert_eq!(request.method, "GET");
        assert_eq!(request.uri, "http://example.com/new");
        assert!(keep_body);
        assert_eq!(text_of(span.fields(), "url.full"), vec!["http://example.com/new"]);
        assert!(!span.is_closed());
    }
    assert_eq!(hop1.telemetry.len(), 1);
    assert!(hop1.connection_unknown);
    log.extend(hop1.telemetry);
    assert_eq!(service.in_flight(), 1);
    assert_eq!(service.slots_in_use(), 1);

    let mut last = Response::new(200);
    last.headers.append("Content-Length", b"11");
    let hop2 = service.on_response(call, last, 1_250);
    match &hop2.action {
        Action::Respond(response) => {
            assert_eq!(response.status, 200);
            assert_eq!(response.headers.get_all("content-length"), vec![b"11".to_vec()]);
        }
        other => panic!("no response: {:?}", other),
    }
    log.extend(hop2.telemetry);

    // two spans, one per hop, each closed with its own outcome
    let closed = spans(&log);
    assert_eq!(closed.len(), 2);
    assert!(closed.iter().all(|s| s.is_closed()));
    assert_eq!(text_of(closed[0].fields(), "url.full"), vec!["http://example.com/old"]);
    assert_eq!(text_of(closed[1].fields(), "url.full"), vec!["http://example.com/new"]);
    let status = |span: &Span| -> Vec<u64> {
        span.fields()
            .iter()
            .filter(|f| f.key == "http.response.status_code")
            .map(|f| match f.value {
                Value::U64(n) => n,
                _ => panic!(),
            })
            .collect()
    };
    assert_eq!(status(closed[0]), vec![302]);
    assert_eq!(status(closed[1]), vec![200]);
    assert_eq!(text_of(closed[0].fields(), "otel.status_code"), vec!["OK"]);
    assert_eq!(text_of(closed[1].fields(), "otel.status_code"), vec!["OK"]);

    // one sample and one increment/decrement pair for the whole call
    assert_eq!(deltas(&log), vec![1, -1]);
    let taken = samples(&log);
    assert_eq!(taken.len(), 1);
    assert_eq!(taken[0].0, 250);
    assert_eq!(
        taken[0].1.iter().map(|a| a.key.as_str()).collect::<Vec<_>>(),
        vec![
            "http.request.method",
            "network.protocol.name",
            "mas.category",
            "http.response.status_code"
        ]
    );
    assert!(matches!(taken[0].1[3].value, Value::I64(200)));
    assert_eq!(service.in_flight(), 0);
    assert_eq!(service.slots_in_use(), 0);

    // the order at the end: span, gauge, sample
    assert!(matches!(log[log.len() - 3], Telemetry::Span { .. }));
    assert!(matches!(log[log.len() - 2], Telemetry::InFlight { delta: -1, .. }));
    assert!(matches!(log[log.len() - 1], Telemetry::Duration { .. }));
}

#[test]
fn transport_failure_is_recorded_and_releases_everything() {
    let mut service = ClientLayer::new();
    let started = service.start(Request::new("GET", "http://example.com/"), 10);
    let step = service.on_error(started.call, "connection refused", 25);
    assert!(matches!(step.action, Action::Fail(Failure::Transport)));
    let closed = spans(&step.telemetry);
    assert_eq!(closed.len(), 1);
    assert!(closed[0].is_closed());
    assert_eq!(text_of(closed[0].fields(), "otel.status_code"), vec!["ERROR"]);
    assert_eq!(text_of(closed[0].fields(), "rust.error"), vec!["connection refused"]);
    assert_eq!(deltas(&step.telemetry), vec![-1]);
    let taken = samples(&step.telemetry);
    assert_eq!(taken.len(), 1);
    assert_eq!(taken[0].0, 15);
    let last = taken[0].1.last().unwrap();
    assert_eq!(last.key, "http.error");
    assert!(matches!(last.value, Value::Bool(true)));
    assert_eq!(taken[0].1.len(), 4);
    assert_eq!(service.in_flight(), 0);
    assert_eq!(service.slots_in_use(), 0);
    // the call is over: nothing applies to it any more
    assert!(unchanged(&service.on_error(started.call, "again", 30)));
    assert!(unchanged(&service.on_response(started.call, Response::new(200), 30)));
    assert!(unchanged(&service.cancel(started.call, 30)));
    assert!(unchanged(&service.resume(started.call)));
}

#[test]
fn cancellation_releases_slot_and_gauge() {
    let mut service = ClientLayer::new();
    let started = service.start(Request::new("GET", "http://example.com/"), 100);
    assert_eq!(service.in_flight(), 1);
    assert_eq!(service.slots_in_use(), 1);
    let step = service.cancel(started.call, 175);
    assert!(matches!(step.action, Action::Cancelled));
    assert_eq!(service.in_flight(), 0);
    assert_eq!(service.slots_in_use(), 0);
    let closed = spans(&step.telemetry);
    assert_eq!(closed.len(), 1);
    assert!(closed[0].is_closed());
    assert!(text_of(closed[0].fields(), "otel.status_code").is_empty());
    assert_eq!(deltas(&step.telemetry), vec![-1]);
    let taken = samples(&step.telemetry);
    assert_eq!(taken.len(), 1);
    assert_eq!(taken[0].0, 75);
    assert_eq!(taken[0].1.len(), 3);
}

#[test]
fn cancellation_of_a_waiting_call() {
    let mut service = ClientLayer::new();
    let mut calls = Vec::new();
    for _ in 0..10 {
        calls.push(service.start(Request::new("GET", "http://example.com/"), 0).call);
    }
    let waiting = service.start(Request::new("GET", "http://example.com/"), 0);
    assert!(matches!(waiting.step.action, Action::Wait));
    let step = service.cancel(waiting.call, 5);
    assert!(matches!(step.action, Action::Cancelled));
    assert!(spans(&step.telemetry).is_empty());
    assert_eq!(deltas(&step.telemetry), vec![-1]);
    assert_eq!(samples(&step.telemetry).len(), 1);
    assert_eq!(service.in_flight(), 10);
    assert_eq!(service.slots_in_use(), 10);
}

#[test]
fn eleventh_call_waits_until_a_slot_frees() {
    let mut service = ClientLayer::new();
    let mut calls = Vec::new();
    for n in 0..10u64 {
        let started = service.start(Request::new("GET", "http://example.com/"), n);
        assert_eq!(started.call, n);
        assert!(matches!(started.step.action, Action::Send { .. }));
        calls.push(started.call);
    }
    assert_eq!(service.slots_in_use(), 10);
    let eleventh = service.start(Request::new("GET", "http://example.com/11"), 10);
    assert!(matches!(eleventh.step.action, Action::Wait));
    // it is in flight, but holds no slot
    assert_eq!(deltas(&eleventh.step.telemetry), vec![1]);
    assert_eq!(service.in_flight(), 11);
    assert_eq!(service.slots_in_use(), 10);
    // asking again changes nothing while all slots are taken
    let again = service.resume(eleventh.call);
    assert!(matches!(again.action, Action::Wait));
    assert!(again.telemetry.is_empty());
    assert_eq!(service.slots_in_use(), 10);
    // no response can come for a call without an exchange
    assert!(unchanged(&service.on_response(eleventh.call, Response::new(200), 11)));
    assert!(unchanged(&service.on_error(eleventh.call, "x", 11)));
    // a running call cannot ask for a slot
    assert!(unchanged(&service.resume(calls[0])));

    let done = service.on_response(calls[3], Response::new(200), 20);
    assert!(matches!(done.action, Action::Respond(_)));
    assert_eq!(service.slots_in_use(), 9);
    let resumed = service.resume(eleventh.call);
    {
        let (request, span, keep_body) = sent(&resumed.action);
        assert_eq!(request.uri, "http://example.com/11");
        assert!(keep_body);
        assert!(!span.is_closed());
    }
    assert!(resumed.telemetry.is_empty());
    assert_eq!(service.slots_in_use(), 10);
    assert_eq!(service.in_flight(), 10);

    let end = service.on_response(eleventh.call, Response::new(204), 30);
    assert!(matches!(end.action, Action::Respond(_)));
    assert_eq!(samples(&end.telemetry)[0].0, 20);
}

#[test]
fn identification_header_overrides_the_caller_on_every_hop() {
    let mut service = ClientLayer::new();
    let mut request = Request::new("POST", "http://example.com/a");
    request.headers.append("User-Agent", b"caller/1.0");
    request.headers.append("user-agent", b"caller/2.0");
    request.headers.append("Content-Type", b"text/plain");
    let started = service.start(request, 0);
    {
        let (request, span, _) = sent(&started.step.action);
        assert_eq!(
            request.headers.get_all("user-agent"),
            vec![b"matrix-authentication-service/0.0.1".to_vec()]
        );
        assert_eq!(
            text_of(span.fields(), "user_agent.original"),
            vec!["matrix-authentication-service/0.0.1"]
        );
    }
    let hop = service.on_response(started.call, redirecting(303, b"http://other.example/b"), 1);
    {
        let (request, _, keep_body) = sent(&hop.action);
        assert_eq!(request.method, "GET");
        assert!(!keep_body);
        assert_eq!(
            request.headers.get_all("User-Agent"),
            vec![b"matrix-authentication-service/0.0.1".to_vec()]
        );
        assert!(request.headers.get_all("content-type").is_empty());
    }
    let hop = service.on_response(started.call, redirecting(307, b"/c"), 2);
    let (request, _, _) = sent(&hop.action);
    assert_eq!(request.uri, "http://other.example/c");
    assert_eq!(
        request.headers.get_all("User-Agent"),
        vec![b"matrix-authentication-service/0.0.1".to_vec()]
    );
}

#[test]
fn category_is_carried_by_spans_and_metrics() {
    let unbound = ClientLayer::new();
    let bound = ClientLayer::new().with_category("discovery");
    assert_eq!(bound.category(), Some("discovery"));
    assert_eq!(unbound.category(), None);
    assert_eq!(bound.capacity(), unbound.capacity());

    let mut plain = unbound;
    let mut tagged = bound;
    for (service, label) in [(&mut plain, "UNSET"), (&mut tagged, "discovery")] {
        let started = service.start(Request::new("GET", "http://example.com/"), 0);
        let hop = service.on_response(started.call, redirecting(301, b"/x"), 1);
        let end = service.on_response(started.call, Response::new(200), 2);
        let failed = service.start(Request::new("GET", "http://example.com/"), 3);
        let error = service.on_error(failed.call, "boom", 4);
        let given_up = service.start(Request::new("GET", "http://example.com/"), 5);
        let cancel = service.cancel(given_up.call, 6);
        let mut n = 0;
        for step in [&started.step, &hop, &end, &failed.step, &error, &given_up.step, &cancel] {
            if let Action::Send { span, .. } = &step.action {
                assert_eq!(text_of(span.fields(), "mas.category"), vec![label]);
            }
            for item in &step.telemetry {
                let pairs: &[KeyValue] = match item {
                    Telemetry::InFlight { attributes, .. } => attributes,
                    Telemetry::Duration { attributes, .. } => attributes,
                    Telemetry::Span { span, .. } => span.fields(),
                };
                assert_eq!(text_of(pairs, "mas.category"), vec![label]);
                n += 1;
            }
        }
        assert_eq!(n, 3 + 1 + 3 + 3 + 3);
    }
}

#[test]
fn binding_twice_takes_the_last_category() {
    let layer = ClientLayer::new().with_category("a").with_category("b");
    assert_eq!(layer.category(), Some("b"));
    let mut service = layer;
    let started = service.start(Request::new("GET", "http://example.com/"), 0);
    let (_, span, _) = sent(&started.step.action);
    assert_eq!(text_of(span.fields(), "mas.category"), vec!["b"]);
}

#[test]
fn metric_names_and_call_names_are_on_the_telemetry() {
    let mut service = ClientLayer::new();
    let first = service.start(Request::new("GET", "http://example.com/"), 0);
    let second = service.start(Request::new("PUT", "http://example.com/"), 0);
    assert_eq!((first.call, second.call), (0, 1));
    match &second.step.telemetry[0] {
        Telemetry::InFlight { call, name, delta, attributes } => {
            assert_eq!(*call, 1);
            assert_eq!(name, "http.client.active_requests");
            assert_eq!(*delta, 1);
            assert_eq!(text_of(attributes, "http.request.method"), vec!["PUT"]);
            assert_eq!(text_of(attributes, "network.protocol.name"), vec!["http"]);
        }
        other => panic!("{:?}", other),
    }
    let end = service.on_response(second.call, Response::new(500), 9);
    match &end.telemetry[0] {
        Telemetry::Span { call, .. } => assert_eq!(*call, 1),
        other => panic!("{:?}", other),
    }
    match &end.telemetry[2] {
        Telemetry::Duration { call, name, millis, .. } => {
            assert_eq!(*call, 1);
            assert_eq!(name, "http.client.duration");
            assert_eq!(*millis, 9);
        }
        other => panic!("{:?}", other),
    }
    assert_eq!(service.in_flight(), 1);
}

#[test]
fn clock_going_back_gives_a_zero_duration() {
    let mut service = ClientLayer::new();
    let started = service.start(Request::new("GET", "http://example.com/"), 500);
    let end = service.on_response(started.call, Response::new(200), 400);
    assert_eq!(samples(&end.telemetry)[0].0, 0);
}

#[test]
fn too_many_redirects_fail_the_call() {
    let mut service = ClientLayer::new();
    let started = service.start(Request::new("GET", "http://example.com/0"), 0);
    for hop in 0..20u64 {
        let step = service.on_response(started.call, redirecting(302, b"/next"), hop);
        assert!(matches!(step.action, Action::Send { .. }), "hop {}", hop);
        assert_eq!(step.telemetry.len(), 1);
    }
    let step = service.on_response(started.call, redirecting(302, b"/next"), 21);
    assert!(matches!(step.action, Action::Fail(Failure::TooManyRedirects)));
    assert_eq!(spans(&step.telemetry).len(), 1);
    assert_eq!(deltas(&step.telemetry), vec![-1]);
    let taken = samples(&step.telemetry);
    assert_eq!(taken.len(), 1);
    assert_eq!(taken[0].1.last().unwrap().key, "http.error");
    assert_eq!(service.in_flight(), 0);
    assert_eq!(service.slots_in_use(), 0);
}

#[test]
fn redirect_without_location_is_the_logical_response() {
    let mut service = ClientLayer::new();
    let started = service.start(Request::new("GET", "http://example.com/0"), 0);
    let step = service.on_response(started.call, Response::new(308), 3);
    match &step.action {
        Action::Respond(response) => assert_eq!(response.status, 308),
        other => panic!("no response: {:?}", other),
    }
    let taken = samples(&step.telemetry);
    assert_eq!(taken[0].1.last().unwrap().key, "http.response.status_code");
    assert_eq!(service.in_flight(), 0);
}

#[test]
fn redirect_to_nowhere_fails_the_call() {
    let mut service = ClientLayer::new();
    let started = service.start(Request::new("GET", "http://example.com/0"), 0);
    let step = service.on_response(started.call, redirecting(308, b"http://[bad"), 3);
    assert!(matches!(step.action, Action::Fail(Failure::InvalidRedirectTarget)));
    // the exchange itself got its response: its span says so
    let closed = spans(&step.telemetry);
    assert_eq!(text_of(closed[0].fields(), "otel.status_code"), vec!["OK"]);
    assert_eq!(service.in_flight(), 0);
}

#[test]
fn services_of_one_pipeline_share_its_slots() {
    let mut pipeline = ClientLayer::new();
    let one: ClientService<u8> = pipeline.layer(1);
    let other: ClientService<u8> = pipeline.layer(2);
    assert_eq!((*one.inner(), *other.inner()), (1, 2));
    let mut through_one = Vec::new();
    for n in 0..10u64 {
        let started = one.start(&mut pipeline, Request::new("GET", "http://example.com/"), n);
        assert!(matches!(started.step.action, Action::Send { .. }));
        through_one.push(started.call);
    }
    // the slots are taken, whichever service asks
    let eleventh = other.start(&mut pipeline, Request::new("GET", "http://example.com/"), 10);
    assert_eq!(eleventh.call, 10);
    assert!(matches!(eleventh.step.action, Action::Wait));
    assert_eq!(pipeline.slots_in_use(), 10);
    assert_eq!(pipeline.in_flight(), 11);
    assert!(matches!(other.resume(&mut pipeline, eleventh.call).action, Action::Wait));
    // a call of the one service ends: the call of the other goes on
    let done = one.on_response(&mut pipeline, through_one[4], Response::new(200), 11);
    assert!(matches!(done.action, Action::Respond(_)));
    assert_eq!(pipeline.slots_in_use(), 9);
    let resumed = other.resume(&mut pipeline, eleventh.call);
    assert!(matches!(resumed.action, Action::Send { .. }));
    assert_eq!(pipeline.slots_in_use(), 10);
    let failed = other.on_error(&mut pipeline, eleventh.call, "reset", 12);
    assert!(matches!(failed.action, Action::Fail(Failure::Transport)));
    let given_up = one.cancel(&mut pipeline, through_one[0], 13);
    assert!(matches!(given_up.action, Action::Cancelled));
    assert_eq!(pipeline.slots_in_use(), 8);
    assert_eq!(pipeline.in_flight(), 8);
    assert_eq!(pipeline.stack().capacity(), 10);
}

#[test]
fn two_pipelines_have_slots_of_their_own() {
    let mut one = ClientLayer::new();
    let mut other = ClientLayer::new().with_category("other");
    for n in 0..10u64 {
        one.start(Request::new("GET", "http://example.com/"), n);
    }
    assert_eq!(one.slots_in_use(), 10);
    let started = other.start(Request::new("GET", "http://example.com/"), 0);
    assert_eq!(started.call, 0);
    assert!(matches!(started.step.action, Action::Send { .. }));
    assert_eq!(other.slots_in_use(), 1);
    assert_eq!(other.in_flight(), 1);
    assert_eq!(one.in_flight(), 10);
}

#[test]
fn binding_starts_a_pipeline_afresh() {
    let mut unbound = ClientLayer::new();
    unbound.start(Request::new("GET", "http://example.com/"), 0);
    assert_eq!(unbound.in_flight(), 1);
    let bound = unbound.with_category("fresh");
    assert_eq!(bound.category(), Some("fresh"));
    assert_eq!(bound.capacity(), 10);
    assert_eq!(bound.in_flight(), 0);
    assert_eq!(bound.slots_in_use(), 0);
    assert_eq!(bound.calls_started(), 0);
}

#[test]
fn unknown_call_changes_nothing() {
    let mut service = ClientLayer::new();
    assert!(unchanged(&service.cancel(7, 0)));
    assert!(unchanged(&service.resume(7)));
    assert!(unchanged(&service.on_error(7, "x", 0)));
    assert!(unchanged(&service.on_response(7, Response::new(200), 0)));
    assert_eq!(service.in_flight(), 0);
}
