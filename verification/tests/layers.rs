use client_pipeline::labels::{category_or_unset, OnRequestLabels, OnResponseLabels};
use client_pipeline::layers::{
    DurationRecorderLayer, GlobalConcurrencyLimitLayer, InFlightCounterLayer, Outcome, TraceLayer,
};
use client_pipeline::span::{EnrichSpanOnError, EnrichSpanOnResponse, MakeSpanForRequest};
use client_pipeline::telemetry::Telemetry;
use client_pipeline::value::{clone_pairs, extend_pairs, KeyValue, Value};

#[test]
fn category_defaults_to_unset() {
    assert_eq!(category_or_unset(None), "UNSET");
    assert_eq!(category_or_unset(Some("x")), "x");
    assert_eq!(category_or_unset(Some("")), "");
}

#[test]
fn builders_keep_what_they_do_not_set() {
    let trace = TraceLayer::new(MakeSpanForRequest { category: Some("c") })
        .on_response(EnrichSpanOnResponse)
        .on_error(EnrichSpanOnError);
    assert_eq!(trace.make_span.category, Some("c"));
    assert_eq!(GlobalConcurrencyLimitLayer::new(3).max, 3);
    let counter = InFlightCounterLayer::new("g").on_request(OnRequestLabels { category: Some("c") });
    assert_eq!(counter.name, "g");
    assert_eq!(counter.on_request.category, Some("c"));
    let recorder = DurationRecorderLayer::new("d");
    assert!(recorder.on_error.is_empty());
    assert_eq!(recorder.on_request.category, None);
    let recorder = recorder
        .on_error(KeyValue::flag("failed", true))
        .on_request(OnRequestLabels { category: Some("c") })
        .on_response(OnResponseLabels);
    assert_eq!(recorder.name, "d");
    assert_eq!(recorder.on_request.category, Some("c"));
    assert_eq!(recorder.on_error.len(), 1);
    let copy = recorder.clone();
    assert_eq!(copy.on_error[0].key, "failed");
}

#[test]
fn sample_attributes_by_outcome() {
    let recorder = DurationRecorderLayer::new("d").on_error(KeyValue::flag("failed", true));
    let labels = vec![KeyValue::text("m", "GET")];
    let keys = |t: &Telemetry| -> Vec<String> {
        match t {
            Telemetry::Duration { attributes, .. } => {
                attributes.iter().map(|a| a.key.clone()).collect()
            }
            _ => panic!(),
        }
    };
    let ok = recorder.sample(4, &labels, Outcome::Response(201), 10, 30);
    assert_eq!(keys(&ok), vec!["m", "http.response.status_code"]);
    match &ok {
        Telemetry::Duration { call, name, millis, attributes } => {
            assert_eq!((*call, name.as_str(), *millis), (4, "d", 20));
            assert!(matches!(attributes[1].value, Value::I64(201)));
        }
        _ => panic!(),
    }
    let failed = recorder.sample(4, &labels, Outcome::Failure, 10, 30);
    assert_eq!(keys(&failed), vec!["m", "failed"]);
    let cancelled = recorder.sample(4, &labels, Outcome::Cancelled, 10, 30);
    assert_eq!(keys(&cancelled), vec!["m"]);
    let late = recorder.sample(4, &labels, Outcome::Cancelled, u64::MAX, 0);
    assert!(matches!(late, Telemetry::Duration { millis: 0, .. }));
    let long = recorder.sample(4, &labels, Outcome::Cancelled, 0, u64::MAX);
    assert!(matches!(long, Telemetry::Duration { millis: u64::MAX, .. }));
}

#[test]
fn gauge_changes_by_one() {
    let counter = InFlightCounterLayer::new("g");
    let labels = vec![KeyValue::text("m", "GET")];
    assert!(matches!(counter.enter(9, &labels), Telemetry::InFlight { call: 9, delta: 1, .. }));
    assert!(matches!(counter.leave(9, &labels), Telemetry::InFlight { call: 9, delta: -1, .. }));
}

#[test]
fn pairs_are_copied_and_appended() {
    let pairs = vec![KeyValue::signed("a", -1), KeyValue::unsigned("b", 2)];
    let mut copy = clone_pairs(&pairs);
    extend_pairs(&mut copy, &vec![KeyValue::flag("c", false), KeyValue::text("d", "e")]);
    assert_eq!(copy.iter().map(|p| p.key.as_str()).collect::<Vec<_>>(), vec!["a", "b", "c", "d"]);
    assert!(matches!(copy[0].value, Value::I64(-1)));
    assert!(matches!(copy[1].value, Value::U64(2)));
    assert!(matches!(copy[2].value, Value::Bool(false)));
    assert!(matches!(&copy[3].value, Value::Str(s) if s == "e"));
    assert_eq!(pairs.len(), 2);
    let one = copy[3].clone();
    assert_eq!(one.key, "d");
}
