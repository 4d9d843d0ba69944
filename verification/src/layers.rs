//! The single-purpose layers that a pipeline is composed of.
//!
//! A layer holds configuration only. What changes while calls are under way
//! (the slots in use, the calls in flight) is held by the service that the
//! layers are composed into.

use vstd::prelude::*;
use vstd::string::StringSliceAdditionalSpecFns;
use crate::header::{
    lemma_stamped_keeps_others, same_name, values_of, without, Header, HeaderView,
};
use crate::labels::{response_labels, OnRequestLabels, OnResponseLabels};
use crate::message::{Request, RequestView, Response};
use crate::span::{EnrichSpanOnError, EnrichSpanOnResponse, MakeSpanForRequest};
use crate::telemetry::{Telemetry, TelemetryView};
use crate::value::{clone_pairs, extend_pairs, KeyValue, KeyValueView};

verus! {

/// The header fields with `name` set to the one value `value`.
pub open spec fn stamped(headers: Seq<HeaderView>, name: Seq<u8>, value: Seq<u8>) -> Seq<
    HeaderView,
> {
    without(headers, name).push(HeaderView { name, value })
}

/// Sets one request header, replacing what the caller gave under that name.
#[derive(Debug, Clone, Copy)]
pub struct SetRequestHeaderLayer {
    pub name: &'static str,
    pub value: &'static str,
}

impl SetRequestHeaderLayer {
    /// A layer that sets `name` to `value` whatever the request holds.
    pub fn overriding(name: &'static str, value: &'static str) -> (layer: Self)
        ensures
            layer.name == name,
            layer.value == value,
    {
        SetRequestHeaderLayer { name, value }
    }

    /// Sets the header on `request`. Nothing else of the request changes.
    pub fn apply(&self, request: &mut Request)
        ensures
            final(request)@ == (RequestView {
                headers: stamped(
                    old(request)@.headers,
                    self.name.spec_bytes(),
                    self.value.spec_bytes(),
                ),
                ..old(request)@
            }),
            crate::header::holds_only(
                final(request)@.headers,
                self.name.spec_bytes(),
                self.value.spec_bytes(),
            ),
    {
        request.headers.insert(self.name, self.value.as_bytes());
    }
}

/// Bounds how many logical calls of one pipeline are under way at a time.
#[derive(Debug, Clone, Copy)]
pub struct GlobalConcurrencyLimitLayer {
    pub max: usize,
}

impl GlobalConcurrencyLimitLayer {
    /// A limit of `max` calls.
    pub fn new(max: usize) -> (layer: Self)
        ensures
            layer.max == max,
    {
        GlobalConcurrencyLimitLayer { max }
    }
}

/// Opens one span per physical exchange and records its outcome.
#[derive(Debug, Clone, Copy)]
pub struct TraceLayer {
    pub make_span: MakeSpanForRequest,
    pub on_response: EnrichSpanOnResponse,
    pub on_error: EnrichSpanOnError,
}

impl TraceLayer {
    /// A layer that opens its spans with `make_span`.
    pub fn new(make_span: MakeSpanForRequest) -> (layer: Self)
        ensures
            layer.make_span == make_span,
    {
        TraceLayer { make_span, on_response: EnrichSpanOnResponse, on_error: EnrichSpanOnError }
    }

    /// The layer with another way to record a response.
    pub fn on_response(self, on_response: EnrichSpanOnResponse) -> (layer: Self)
        ensures
            layer == (TraceLayer { on_response, ..self }),
    {
        TraceLayer { on_response, ..self }
    }

    /// The layer with another way to record a failure.
    pub fn on_error(self, on_error: EnrichSpanOnError) -> (layer: Self)
        ensures
            layer == (TraceLayer { on_error, ..self }),
    {
        TraceLayer { on_error, ..self }
    }
}

/// The header fields after the fields of `context` were set on them, one
/// after the other.
pub open spec fn injected(headers: Seq<HeaderView>, context: Seq<HeaderView>) -> Seq<HeaderView>
    decreases context.len(),
{
    if context.len() == 0 {
        headers
    } else {
        stamped(
            injected(headers, context.drop_last()),
            context.last().name,
            context.last().value,
        )
    }
}

/// Whether a trace context has a field named `name`.
pub open spec fn names(context: Seq<HeaderView>, name: Seq<u8>) -> bool {
    exists|i: int| 0 <= i < context.len() && same_name((#[trigger] context[i]).name, name)
}

/// Setting the fields of a trace context leaves the values under every name
/// that the context does not have as they were.
pub proof fn lemma_injected_keeps_others(
    headers: Seq<HeaderView>,
    context: Seq<HeaderView>,
    name: Seq<u8>,
)
    requires
        !names(context, name),
    ensures
        values_of(injected(headers, context), name) == values_of(headers, name),
    decreases context.len(),
{
    if context.len() > 0 {
        let rest = context.drop_last();
        let last = context.last();
        assert(!names(rest, name)) by {
            if names(rest, name) {
                let i = choose|i: int|
                    0 <= i < rest.len() && same_name((#[trigger] rest[i]).name, name);
                assert(same_name(context[i].name, name));
            }
        }
        lemma_injected_keeps_others(headers, rest, name);
        assert(!same_name(context[context.len() - 1].name, name));
        lemma_stamped_keeps_others(injected(headers, rest), last.name, last.value, name);
    }
}

/// Carries the trace context of the current span to the receiving service.
#[derive(Debug, Clone, Copy)]
pub struct TraceContextLayer;

impl TraceContextLayer {
    /// The layer.
    pub fn new() -> Self {
        TraceContextLayer
    }

    /// Sets the fields of `context` on `request`: each replaces what the
    /// request holds under its name. Nothing else of the request changes: what
    /// it holds under a name that the context does not have stays as it is.
    pub fn inject(&self, request: &mut Request, context: &Vec<Header>)
        ensures
            final(request)@ == (RequestView {
                headers: injected(old(request)@.headers, context.deep_view()),
                ..old(request)@
            }),
            forall|name: Seq<u8>|
                !names(context.deep_view(), name) ==> #[trigger] values_of(
                    final(request)@.headers,
                    name,
                ) == values_of(old(request)@.headers, name),
    {
        let mut i: usize = 0;
        while i < context.len()
            invariant
                i <= context.len(),
                request@ == (RequestView {
                    headers: injected(
                        old(request)@.headers,
                        context.deep_view().subrange(0, i as int),
                    ),
                    ..old(request)@
                }),
            decreases context.len() - i,
        {
            let field = &context[i];
            assert(context.deep_view().subrange(0, i + 1).drop_last() == context.deep_view().subrange(
                0,
                i as int,
            ));
            request.headers.insert_raw(field.name.as_slice(), field.value.as_slice());
            i += 1;
        }
        assert(context.deep_view().subrange(0, context.len() as int) == context.deep_view());
        assert forall|name: Seq<u8>| !names(context.deep_view(), name) implies #[trigger] values_of(
            request@.headers,
            name,
        ) == values_of(old(request)@.headers, name) by {
            lemma_injected_keeps_others(old(request)@.headers, context.deep_view(), name);
        }
    }
}

/// How a logical call ended.
#[derive(Debug, Clone, Copy)]
pub enum Outcome {
    /// With a response of this status.
    Response(u16),
    /// With a failure.
    Failure,
    /// Given up by the caller before it had ended.
    Cancelled,
}

/// The milliseconds from `started` to `now`; zero where the clock went back.
pub open spec fn elapsed(started: u64, now: u64) -> u64 {
    if now >= started {
        (now - started) as u64
    } else {
        0
    }
}

/// The attributes of the duration sample of a call: those of its request,
/// then those of its response, or those that mark a failure.
pub open spec fn sample_attributes(
    labels: Seq<KeyValueView>,
    on_error: Seq<KeyValueView>,
    outcome: Outcome,
) -> Seq<KeyValueView> {
    match outcome {
        Outcome::Response(status) => labels + response_labels(status),
        Outcome::Failure => labels + on_error,
        Outcome::Cancelled => labels,
    }
}

/// Measures each logical call and emits one duration sample for it.
#[derive(Debug)]
pub struct DurationRecorderLayer {
    pub name: &'static str,
    pub on_request: OnRequestLabels,
    pub on_response: OnResponseLabels,
    pub on_error: Vec<KeyValue>,
}

impl Clone for DurationRecorderLayer {
    fn clone(&self) -> (copy: Self)
        ensures
            copy.name == self.name,
            copy.on_request == self.on_request,
            copy.on_error.deep_view() == self.on_error.deep_view(),
    {
        DurationRecorderLayer {
            name: self.name,
            on_request: self.on_request,
            on_response: self.on_response,
            on_error: clone_pairs(&self.on_error),
        }
    }
}

impl DurationRecorderLayer {
    /// A recorder for the metric `name`, with no category bound and nothing
    /// to mark a failure with.
    pub fn new(name: &'static str) -> (layer: Self)
        ensures
            layer.name == name,
            layer.on_request.category is None,
            layer.on_error.deep_view() == Seq::<KeyValueView>::empty(),
    {
        let layer = DurationRecorderLayer {
            name,
            on_request: OnRequestLabels { category: None },
            on_response: OnResponseLabels,
            on_error: Vec::new(),
        };
        assert(layer.on_error.deep_view() =~= Seq::<KeyValueView>::empty());
        layer
    }

    /// The recorder with another way to label requests.
    pub fn on_request(self, on_request: OnRequestLabels) -> (layer: Self)
        ensures
            layer.name == self.name,
            layer.on_request == on_request,
            layer.on_error.deep_view() == self.on_error.deep_view(),
    {
        DurationRecorderLayer { on_request, ..self }
    }

    /// The recorder with another way to label responses.
    pub fn on_response(self, on_response: OnResponseLabels) -> (layer: Self)
        ensures
            layer.name == self.name && layer.on_request == self.on_request,
            layer.on_response == on_response,
            layer.on_error == self.on_error,
    {
        DurationRecorderLayer { on_response, ..self }
    }

    /// The recorder with `mark` as the one attribute that marks a failure.
    pub fn on_error(self, mark: KeyValue) -> (layer: Self)
        ensures
            layer.name == self.name,
            layer.on_request == self.on_request,
            layer.on_error.deep_view() == seq![mark@],
    {
        let mut on_error: Vec<KeyValue> = Vec::new();
        on_error.push(mark);
        assert(on_error.deep_view() =~= seq![mark@]);
        DurationRecorderLayer { on_error, ..self }
    }

    /// The duration sample of a call that began at `started` with the request
    /// attributes `labels`, and ended at `now` with `outcome`.
    pub fn sample(
        &self,
        call: u64,
        labels: &Vec<KeyValue>,
        outcome: Outcome,
        started: u64,
        now: u64,
    ) -> (sample: Telemetry)
        ensures
            sample@ == (TelemetryView::Duration {
                call,
                name: self.name@,
                millis: elapsed(started, now),
                attributes: sample_attributes(
                    labels.deep_view(),
                    self.on_error.deep_view(),
                    outcome,
                ),
            }),
    {
        let millis = if now >= started {
            now - started
        } else {
            0
        };
        let mut attributes = clone_pairs(labels);
        match outcome {
            Outcome::Response(status) => {
                let mut more: Vec<KeyValue> = Vec::new();
                more.push(
                    KeyValue::signed(crate::keys::http_response_status_code(), status as i64),
                );
                assert(more.deep_view() =~= response_labels(status));
                extend_pairs(&mut attributes, &more);
            },
            Outcome::Failure => {
                extend_pairs(&mut attributes, &self.on_error);
            },
            Outcome::Cancelled => {},
        }
        Telemetry::Duration { call, name: self.name.to_owned(), millis, attributes }
    }
}

/// Counts the logical calls that are under way.
#[derive(Debug, Clone, Copy)]
pub struct InFlightCounterLayer {
    pub name: &'static str,
    pub on_request: OnRequestLabels,
}

/// The change of a gauge by `delta` for a call.
pub open spec fn gauge_change(
    name: Seq<char>,
    call: u64,
    delta: i64,
    labels: Seq<KeyValueView>,
) -> TelemetryView {
    TelemetryView::InFlight { call, name, delta, attributes: labels }
}

impl InFlightCounterLayer {
    /// A counter for the gauge `name`, with no category bound.
    pub fn new(name: &'static str) -> (layer: Self)
        ensures
            layer.name == name,
            layer.on_request.category is None,
    {
        InFlightCounterLayer { name, on_request: OnRequestLabels { category: None } }
    }

    /// The counter with another way to label requests.
    pub fn on_request(self, on_request: OnRequestLabels) -> (layer: Self)
        ensures
            layer.name == self.name,
            layer.on_request == on_request,
    {
        InFlightCounterLayer { on_request, ..self }
    }

    /// The gauge going up by one as a call enters.
    pub fn enter(&self, call: u64, labels: &Vec<KeyValue>) -> (change: Telemetry)
        ensures
            change@ == gauge_change(self.name@, call, 1i64, labels.deep_view()),
    {
        Telemetry::InFlight {
            call,
            name: self.name.to_owned(),
            delta: 1,
            attributes: clone_pairs(labels),
        }
    }

    /// The gauge going down by one as a call leaves.
    pub fn leave(&self, call: u64, labels: &Vec<KeyValue>) -> (change: Telemetry)
        ensures
            change@ == gauge_change(self.name@, call, -1i64, labels.deep_view()),
    {
        Telemetry::InFlight {
            call,
            name: self.name.to_owned(),
            delta: -1,
            attributes: clone_pairs(labels),
        }
    }
}

} // verus!
