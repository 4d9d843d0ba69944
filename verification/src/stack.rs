//! The layers of a client pipeline in their fixed order, and what each of
//! them does to a call, told over the configuration of the whole stack.

use vstd::prelude::*;
use vstd::string::StringSliceAdditionalSpecFns;
use crate::labels::{request_labels, OnRequestLabels, OnResponseLabels};
use crate::layers::{
    elapsed, gauge_change, sample_attributes, stamped, DurationRecorderLayer,
    GlobalConcurrencyLimitLayer, InFlightCounterLayer, Outcome, SetRequestHeaderLayer,
    TraceContextLayer, TraceLayer,
};
use crate::redirect::{redirect_of, FollowRedirectLayer, Redirect};
use crate::message::{Request, RequestView, Response};
use crate::span::{
    span_of_request, EnrichSpanOnError, EnrichSpanOnResponse, MakeSpanForRequest, Span,
};
use crate::telemetry::{Telemetry, TelemetryView};
use crate::value::{KeyValue, KeyValueView};

verus! {

/// The value of the identification header of every request.
pub const USER_AGENT: &'static str = "matrix-authentication-service/0.0.1";

/// The logical calls of one pipeline that may be under way at a time.
pub const DEFAULT_CAPACITY: usize = 10;

/// The name of the duration metric.
pub const DURATION_METRIC: &'static str = "http.client.duration";

/// The name of the in-flight gauge.
pub const IN_FLIGHT_METRIC: &'static str = "http.client.active_requests";

/// The layers of a client pipeline, outermost first: the identification
/// header, the duration recorder, the in-flight counter, the concurrency
/// limit, the redirect follower, the trace spans and the trace context.
#[derive(Debug)]
pub struct LayerStack {
    user_agent_layer: SetRequestHeaderLayer,
    concurrency_limit_layer: GlobalConcurrencyLimitLayer,
    follow_redirect_layer: FollowRedirectLayer,
    trace_layer: TraceLayer,
    trace_context_layer: TraceContextLayer,
    duration_recorder_layer: DurationRecorderLayer,
    in_flight_counter_layer: InFlightCounterLayer,
}

/// The configuration of a pipeline.
pub struct PipelineConfig {
    /// The category bound to the pipeline, if any.
    pub category: Option<&'static str>,
    /// The name and the value of the identification header.
    pub header_name: Seq<u8>,
    pub header_value: Seq<u8>,
    /// The logical calls that may be under way at a time.
    pub capacity: usize,
    /// The redirections followed for one logical call.
    pub max_redirects: usize,
    /// The names of the two metrics.
    pub duration_name: Seq<char>,
    pub in_flight_name: Seq<char>,
    /// The attributes that mark the duration sample of a failed call.
    pub on_error: Seq<KeyValueView>,
}

impl View for LayerStack {
    type V = PipelineConfig;

    closed spec fn view(&self) -> PipelineConfig {
        PipelineConfig {
            category: self.trace_layer.make_span.category,
            header_name: self.user_agent_layer.name.spec_bytes(),
            header_value: self.user_agent_layer.value.spec_bytes(),
            capacity: self.concurrency_limit_layer.max,
            max_redirects: self.follow_redirect_layer.max_redirects,
            duration_name: self.duration_recorder_layer.name@,
            in_flight_name: self.in_flight_counter_layer.name@,
            on_error: self.duration_recorder_layer.on_error.deep_view(),
        }
    }
}

/// The configuration of the default stack, but for the category.
pub open spec fn default_config(category: Option<&'static str>) -> PipelineConfig {
    PipelineConfig {
        category,
        header_name: "user-agent".spec_bytes(),
        header_value: USER_AGENT.spec_bytes(),
        capacity: DEFAULT_CAPACITY,
        max_redirects: crate::redirect::DEFAULT_MAX_REDIRECTS,
        duration_name: DURATION_METRIC@,
        in_flight_name: IN_FLIGHT_METRIC@,
        on_error: seq![crate::value::flag("http.error"@, true)],
    }
}

impl LayerStack {
    /// The three layers that emit telemetry are built with one category.
    #[verifier::type_invariant]
    closed spec fn agreed(&self) -> bool {
        &&& self.duration_recorder_layer.on_request.category
            == self.trace_layer.make_span.category
        &&& self.in_flight_counter_layer.on_request.category
            == self.trace_layer.make_span.category
    }

    /// The pipeline with the default capacity and redirect bound, and with no
    /// category bound.
    #[must_use]
    pub fn new() -> (layer: Self)
        ensures
            layer@ == default_config(None),
    {
        LayerStack {
            user_agent_layer: SetRequestHeaderLayer::overriding(
                crate::typed::user_agent_name(),
                USER_AGENT,
            ),
            concurrency_limit_layer: GlobalConcurrencyLimitLayer::new(DEFAULT_CAPACITY),
            follow_redirect_layer: FollowRedirectLayer::new(),
            trace_layer: TraceLayer::new(MakeSpanForRequest::default()).on_response(
                EnrichSpanOnResponse,
            ).on_error(EnrichSpanOnError),
            trace_context_layer: TraceContextLayer::new(),
            duration_recorder_layer: DurationRecorderLayer::new(DURATION_METRIC).on_request(
                OnRequestLabels::default(),
            ).on_response(OnResponseLabels).on_error(KeyValue::flag("http.error", true)),
            in_flight_counter_layer: InFlightCounterLayer::new(IN_FLIGHT_METRIC).on_request(
                OnRequestLabels::default(),
            ),
        }
    }

    /// A pipeline bound to `category`: its spans and its two metrics carry
    /// the category, everything else is as in `self`.
    #[must_use]
    pub fn with_category(self, category: &'static str) -> (layer: Self)
        ensures
            layer@ == (PipelineConfig { category: Some(category), ..self@ }),
    {
        let LayerStack {
            user_agent_layer,
            concurrency_limit_layer,
            follow_redirect_layer,
            trace_layer: _,
            trace_context_layer,
            duration_recorder_layer,
            in_flight_counter_layer,
        } = self;
        let trace_layer = TraceLayer::new(MakeSpanForRequest { category: Some(category) })
            .on_response(EnrichSpanOnResponse).on_error(EnrichSpanOnError);
        let duration_recorder_layer = duration_recorder_layer.on_request(
            OnRequestLabels { category: Some(category) },
        );
        let in_flight_counter_layer = in_flight_counter_layer.on_request(
            OnRequestLabels { category: Some(category) },
        );
        LayerStack {
            user_agent_layer,
            concurrency_limit_layer,
            follow_redirect_layer,
            trace_layer,
            trace_context_layer,
            duration_recorder_layer,
            in_flight_counter_layer,
        }
    }

    /// The category bound to the pipeline, if any.
    pub fn category(&self) -> (category: Option<&'static str>)
        ensures
            category == self@.category,
    {
        self.trace_layer.make_span.category
    }

    /// The logical calls that may be under way at a time.
    pub fn capacity(&self) -> (capacity: usize)
        ensures
            capacity == self@.capacity,
    {
        self.concurrency_limit_layer.max
    }

    /// Sets the identification header on `request`, replacing what the caller
    /// gave under that name. Nothing else of the request changes.
    pub fn stamp(&self, request: &mut Request)
        ensures
            final(request)@ == (RequestView {
                headers: stamped(old(request)@.headers, self@.header_name, self@.header_value),
                ..old(request)@
            }),
            crate::header::holds_only(
                final(request)@.headers,
                self@.header_name,
                self@.header_value,
            ),
    {
        self.user_agent_layer.apply(request);
    }

    /// The attributes that tag the metrics of a call that starts with `request`.
    pub fn labels(&self, request: &Request) -> (labels: Vec<KeyValue>)
        ensures
            labels.deep_view() == request_labels(self@.category, request@.method),
    {
        proof {
            use_type_invariant(self);
        }
        self.in_flight_counter_layer.on_request.attributes(request)
    }

    /// The open span of the physical exchange of `request`.
    pub fn open_span(&self, request: &Request) -> (span: Span)
        ensures
            span@ == span_of_request(self@.category, request@),
    {
        self.trace_layer.make_span.make_span(request)
    }

    /// The in-flight gauge going up by one for a call.
    pub fn enter(&self, call: u64, labels: &Vec<KeyValue>) -> (change: Telemetry)
        ensures
            change@ == gauge_change(self@.in_flight_name, call, 1i64, labels.deep_view()),
    {
        self.in_flight_counter_layer.enter(call, labels)
    }

    /// The in-flight gauge going down by one for a call.
    pub fn leave(&self, call: u64, labels: &Vec<KeyValue>) -> (change: Telemetry)
        ensures
            change@ == gauge_change(self@.in_flight_name, call, -1i64, labels.deep_view()),
    {
        self.in_flight_counter_layer.leave(call, labels)
    }

    /// The duration sample of a call.
    pub fn sample(
        &self,
        call: u64,
        labels: &Vec<KeyValue>,
        outcome: Outcome,
        started: u64,
        now: u64,
    ) -> (sample: Telemetry)
        ensures
            sample@ == duration_sample(self@, call, labels.deep_view(), outcome, started, now),
    {
        self.duration_recorder_layer.sample(call, labels, outcome, started, now)
    }

    /// What follows `response`, which answered `request` after `followed`
    /// redirections.
    pub fn next(&self, followed: usize, request: &Request, response: &Response) -> (next:
        Redirect)
        ensures
            next@ == redirect_of(self@.max_redirects, followed, request@, response@),
    {
        self.follow_redirect_layer.next(followed, request, response)
    }
}

/// The duration sample of a call that began at `started` with the request
/// attributes `labels`, and ended at `now` with `outcome`.
pub open spec fn duration_sample(
    config: PipelineConfig,
    call: u64,
    labels: Seq<KeyValueView>,
    outcome: Outcome,
    started: u64,
    now: u64,
) -> TelemetryView {
    TelemetryView::Duration {
        call,
        name: config.duration_name,
        millis: elapsed(started, now),
        attributes: sample_attributes(labels, config.on_error, outcome),
    }
}

} // verus!
