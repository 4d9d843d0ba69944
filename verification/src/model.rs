//! The pipeline as a state machine: what the state of a pipeline is, what each
//! event does to it, and what holds of it between events.

use vstd::prelude::*;
use crate::stack::{duration_sample, PipelineConfig};
use crate::header::holds_only;
use crate::labels::{category_text, request_labels};
use crate::layers::{gauge_change, stamped, Outcome};
use crate::message::{RequestView, ResponseView};
use crate::redirect::{next_request, redirect_of, RedirectView};
use crate::service::Failure;
use crate::span::{closed, error_fields, fields_of_response, recorded, span_of_request, SpanView};
use crate::telemetry::{
    all_carry, attributes_of, count, gauge, last_of, Kind, TelemetryView,
};
use crate::value::{text, KeyValueView};

verus! {

/// The mathematical content of an [`Action`].
pub enum ActionView {
    Send { request: RequestView, span: SpanView, keep_body: bool },
    Wait,
    Respond(ResponseView),
    Fail(Failure),
    Cancelled,
    Rejected,
}

/// The mathematical content of a call that is under way.
pub struct CallView {
    /// The name of the call.
    pub id: u64,
    /// When it entered, in milliseconds.
    pub started_at: u64,
    /// The attributes of its request, as taken at entry.
    pub labels: Seq<KeyValueView>,
    /// The request of its current or next physical exchange.
    pub request: RequestView,
    /// The redirections followed so far.
    pub followed: usize,
    /// The open span of the physical exchange under way; `None` while the
    /// call waits for a slot.
    pub span: Option<SpanView>,
}

/// The state of a pipeline.
pub struct PipelineView {
    /// The calls under way, in the order of their entry.
    pub calls: Seq<CallView>,
    /// How many calls have entered so far.
    pub started: u64,
    /// The telemetry emitted so far.
    pub log: Seq<TelemetryView>,
}

/// What a step does: the calls after it, the telemetry it emits, and what
/// the driver does next.
pub struct Effect {
    pub calls: Seq<CallView>,
    pub telemetry: Seq<TelemetryView>,
    pub action: ActionView,
}

/// How many calls hold a slot: those with a physical exchange under way.
pub open spec fn running(calls: Seq<CallView>) -> nat
    decreases calls.len(),
{
    if calls.len() == 0 {
        0
    } else {
        running(calls.drop_last()) + if calls.last().span is Some {
            1nat
        } else {
            0nat
        }
    }
}

/// Whether a call with this name is under way.
pub open spec fn active(calls: Seq<CallView>, id: u64) -> bool {
    exists|i: int| 0 <= i < calls.len() && (#[trigger] calls[i]).id == id
}

/// Where the call with this name stands among the calls under way.
pub open spec fn position(calls: Seq<CallView>, id: u64) -> Option<int> {
    if active(calls, id) {
        Some(choose|i: int| 0 <= i < calls.len() && (#[trigger] calls[i]).id == id)
    } else {
        None
    }
}

/// The category attribute or field of a pipeline.
pub open spec fn category_pair(config: PipelineConfig) -> KeyValueView {
    text("mas.category"@, category_text(config.category))
}

/// The request as it enters the pipeline: with the identification header set.
pub open spec fn entered_request(config: PipelineConfig, request: RequestView) -> RequestView {
    RequestView {
        headers: stamped(request.headers, config.header_name, config.header_value),
        ..request
    }
}

/// The call that starts with `request`, under the name `id`.
pub open spec fn entering(
    config: PipelineConfig,
    request: RequestView,
    id: u64,
    now: u64,
    admitted: bool,
) -> CallView {
    let request = entered_request(config, request);
    CallView {
        id,
        started_at: now,
        labels: request_labels(config.category, request.method),
        request,
        followed: 0,
        span: if admitted {
            Some(span_of_request(config.category, request))
        } else {
            None
        },
    }
}

/// The exchange that a call with an open span has under way.
pub open spec fn exchange(call: CallView, keep_body: bool) -> ActionView {
    ActionView::Send { request: call.request, span: call.span->0, keep_body }
}

/// What the start of a call does.
pub open spec fn start_effect(
    config: PipelineConfig,
    state: PipelineView,
    request: RequestView,
    now: u64,
) -> Effect {
    let admitted = running(state.calls) < config.capacity;
    let call = entering(config, request, state.started, now, admitted);
    Effect {
        calls: state.calls.push(call),
        telemetry: seq![gauge_change(config.in_flight_name, call.id, 1i64, call.labels)],
        action: if admitted {
            exchange(call, true)
        } else {
            ActionView::Wait
        },
    }
}

/// What it does to ask again for a slot, for the waiting call at `i`.
pub open spec fn resume_effect(config: PipelineConfig, state: PipelineView, i: int) -> Effect {
    let call = state.calls[i];
    if running(state.calls) < config.capacity {
        let admitted = CallView {
            span: Some(span_of_request(config.category, call.request)),
            ..call
        };
        Effect {
            calls: state.calls.update(i, admitted),
            telemetry: Seq::empty(),
            action: exchange(admitted, true),
        }
    } else {
        Effect { calls: state.calls, telemetry: Seq::empty(), action: ActionView::Wait }
    }
}

/// The telemetry of the end of a call: the gauge goes down, and the one
/// duration sample is taken.
pub open spec fn end_telemetry(
    config: PipelineConfig,
    call: CallView,
    outcome: Outcome,
    now: u64,
) -> Seq<TelemetryView> {
    seq![
        gauge_change(config.in_flight_name, call.id, -1i64, call.labels),
        duration_sample(config, call.id, call.labels, outcome, call.started_at, now),
    ]
}

/// The closed span of an exchange, as telemetry.
pub open spec fn span_item(call: CallView, span: SpanView) -> TelemetryView {
    TelemetryView::Span { call: call.id, span }
}

/// What a response does, for the call at `i`, which has an exchange under way.
pub open spec fn response_effect(
    config: PipelineConfig,
    state: PipelineView,
    i: int,
    response: ResponseView,
    now: u64,
) -> Effect {
    let call = state.calls[i];
    let span = span_item(call, closed(recorded(call.span->0, fields_of_response(response))));
    match redirect_of(config.max_redirects, call.followed, call.request, response) {
        RedirectView::Follow { method, uri, keep_body, same_origin } => {
            let request = entered_request(
                config,
                next_request(call.request, method, uri, keep_body, same_origin),
            );
            let next = CallView {
                request,
                followed: (call.followed + 1) as usize,
                span: Some(span_of_request(config.category, request)),
                ..call
            };
            Effect {
                calls: state.calls.update(i, next),
                telemetry: seq![span],
                action: exchange(next, keep_body),
            }
        },
        RedirectView::Final => Effect {
            calls: state.calls.remove(i),
            telemetry: seq![span] + end_telemetry(
                config,
                call,
                Outcome::Response(response.status),
                now,
            ),
            action: ActionView::Respond(response),
        },
        RedirectView::TooMany => Effect {
            calls: state.calls.remove(i),
            telemetry: seq![span] + end_telemetry(config, call, Outcome::Failure, now),
            action: ActionView::Fail(Failure::TooManyRedirects),
        },
        RedirectView::InvalidTarget => Effect {
            calls: state.calls.remove(i),
            telemetry: seq![span] + end_telemetry(config, call, Outcome::Failure, now),
            action: ActionView::Fail(Failure::InvalidRedirectTarget),
        },
    }
}

/// What a failure of the transport does, for the call at `i`, which has an
/// exchange under way.
pub open spec fn error_effect(
    config: PipelineConfig,
    state: PipelineView,
    i: int,
    error: Seq<char>,
    now: u64,
) -> Effect {
    let call = state.calls[i];
    let span = span_item(call, closed(recorded(call.span->0, error_fields(error))));
    Effect {
        calls: state.calls.remove(i),
        telemetry: seq![span] + end_telemetry(config, call, Outcome::Failure, now),
        action: ActionView::Fail(Failure::Transport),
    }
}

/// What it does that the caller gives up the call at `i`.
pub open spec fn cancel_effect(
    config: PipelineConfig,
    state: PipelineView,
    i: int,
    now: u64,
) -> Effect {
    let call = state.calls[i];
    let spans = match call.span {
        Some(span) => seq![span_item(call, closed(span))],
        None => Seq::empty(),
    };
    Effect {
        calls: state.calls.remove(i),
        telemetry: spans + end_telemetry(config, call, Outcome::Cancelled, now),
        action: ActionView::Cancelled,
    }
}

/// What holds of every call under way: its attributes carry the category of
/// the pipeline, its request carries the identification header, and the span
/// of its exchange is open and carries the category.
pub open spec fn call_ok(config: PipelineConfig, call: CallView) -> bool {
    &&& call.labels.contains(category_pair(config))
    &&& holds_only(call.request.headers, config.header_name, config.header_value)
    &&& call.span matches Some(span) ==> !span.closed && span.fields.contains(
        category_pair(config),
    )
}

/// What the log holds for a call: one entry and nothing else while it is
/// under way; one entry, one exit and one sample once it has ended; nothing
/// before it has entered.
pub open spec fn tally_ok(state: PipelineView, id: u64) -> bool {
    let entries = count(state.log, id, Kind::Entry);
    let exits = count(state.log, id, Kind::Exit);
    let samples = count(state.log, id, Kind::Sample);
    if active(state.calls, id) {
        entries == 1 && exits == 0 && samples == 0
    } else if id < state.started {
        entries == 1 && exits == 1 && samples == 1
    } else {
        entries == 0 && exits == 0 && samples == 0 && count(state.log, id, Kind::Span) == 0
    }
}

/// What the log holds of the exchanges of a call under way: one closed span
/// for each exchange that has ended, which is one for each redirection
/// followed.
pub open spec fn spans_ok(state: PipelineView, call: CallView) -> bool {
    count(state.log, call.id, Kind::Span) == call.followed
}

/// Whether an attribute set is that of a request of the pipeline: a method,
/// the protocol name and the category of the pipeline.
pub open spec fn is_request_labels(config: PipelineConfig, labels: Seq<KeyValueView>) -> bool {
    exists|method: Seq<char>| labels == #[trigger] request_labels(config.category, method)
}

/// What the log holds of the entry of a call under way: the gauge went up
/// with the attributes that the call has kept since, which are those of a
/// request of the pipeline.
pub open spec fn entry_ok(config: PipelineConfig, state: PipelineView, call: CallView) -> bool {
    &&& last_of(state.log, call.id, Kind::Entry) == Some(
        gauge_change(config.in_flight_name, call.id, 1i64, call.labels),
    )
    &&& is_request_labels(config, call.labels)
}

/// Whether the gauge went up for a call with the attribute set of a request
/// of the pipeline and went down with the same set, and the duration sample
/// of the call begins with that set.
pub open spec fn paired(config: PipelineConfig, log: Seq<TelemetryView>, id: u64) -> bool {
    match (
        last_of(log, id, Kind::Entry),
        last_of(log, id, Kind::Exit),
        last_of(log, id, Kind::Sample),
    ) {
        (Some(entry), Some(exit), Some(sample)) => {
            &&& is_request_labels(config, attributes_of(entry))
            &&& attributes_of(exit) == attributes_of(entry)
            &&& attributes_of(entry).is_prefix_of(attributes_of(sample))
        },
        _ => false,
    }
}

/// What the log holds of the attributes of a call that has ended.
pub open spec fn paired_ok(config: PipelineConfig, state: PipelineView, id: u64) -> bool {
    !active(state.calls, id) && id < state.started ==> paired(config, state.log, id)
}

/// What holds of the attribute sets in the log of a pipeline between any two
/// steps.
pub open spec fn labelled(config: PipelineConfig, state: PipelineView) -> bool {
    &&& forall|i: int| 0 <= i < state.calls.len() ==> entry_ok(config, state, #[trigger] state.calls[i])
    &&& forall|id: u64| #[trigger] paired_ok(config, state, id)
}

/// What holds of a pipeline between any two steps.
pub open spec fn consistent(config: PipelineConfig, state: PipelineView) -> bool {
    &&& forall|i: int, j: int|
        0 <= i < j < state.calls.len() ==> (#[trigger] state.calls[i]).id != (
        #[trigger] state.calls[j]).id
    &&& forall|i: int| 0 <= i < state.calls.len() ==> (#[trigger] state.calls[i]).id < state.started
    &&& forall|i: int| 0 <= i < state.calls.len() ==> call_ok(config, #[trigger] state.calls[i])
    &&& running(state.calls) <= config.capacity
    &&& gauge(state.log) == state.calls.len()
    &&& forall|id: u64| #[trigger] tally_ok(state, id)
    &&& forall|i: int| 0 <= i < state.calls.len() ==> spans_ok(state, #[trigger] state.calls[i])
    &&& all_carry(state.log, category_text(config.category))
}

/// The state after a step with the given effect.
pub open spec fn after(state: PipelineView, effect: Effect, started: u64) -> PipelineView {
    PipelineView { calls: effect.calls, started, log: state.log + effect.telemetry }
}

/// The pipeline before any call.
pub open spec fn initial() -> PipelineView {
    PipelineView { calls: Seq::empty(), started: 0, log: Seq::empty() }
}

/// What can happen to a pipeline.
pub enum Event {
    /// A call enters with this request.
    Start { request: RequestView, now: u64 },
    /// A call asks again for a slot.
    Resume { call: u64 },
    /// A response arrives for the exchange of a call.
    Response { call: u64, response: ResponseView, now: u64 },
    /// The transport fails the exchange of a call.
    Failure { call: u64, error: Seq<char>, now: u64 },
    /// The caller gives up a call.
    Cancel { call: u64, now: u64 },
}

/// What an event does to a pipeline, where it applies to it.
pub open spec fn effect_of(config: PipelineConfig, state: PipelineView, event: Event) -> Option<
    Effect,
> {
    match event {
        Event::Start { request, now } => Some(start_effect(config, state, request, now)),
        Event::Resume { call } => match position(state.calls, call) {
            Some(i) => if state.calls[i].span is None {
                Some(resume_effect(config, state, i))
            } else {
                None
            },
            None => None,
        },
        Event::Response { call, response, now } => match position(state.calls, call) {
            Some(i) => if state.calls[i].span is Some {
                Some(response_effect(config, state, i, response, now))
            } else {
                None
            },
            None => None,
        },
        Event::Failure { call, error, now } => match position(state.calls, call) {
            Some(i) => if state.calls[i].span is Some {
                Some(error_effect(config, state, i, error, now))
            } else {
                None
            },
            None => None,
        },
        Event::Cancel { call, now } => match position(state.calls, call) {
            Some(i) => Some(cancel_effect(config, state, i, now)),
            None => None,
        },
    }
}

/// Whether an event is a response that applies and comes without the
/// connection's two ends: the driver then has a diagnostic to emit.
pub open spec fn lacks_connection(
    config: PipelineConfig,
    state: PipelineView,
    event: Event,
) -> bool {
    &&& effect_of(config, state, event) is Some
    &&& event matches Event::Response { response, .. } && response.connection is None
}

/// The pipeline after an event. An event that does not apply changes nothing,
/// and no call enters once the names of calls have run out.
pub open spec fn next_state(
    config: PipelineConfig,
    state: PipelineView,
    event: Event,
) -> PipelineView {
    match effect_of(config, state, event) {
        Some(effect) => if event is Start {
            if state.started < u64::MAX {
                after(state, effect, (state.started + 1) as u64)
            } else {
                state
            }
        } else {
            after(state, effect, state.started)
        },
        None => state,
    }
}

/// The pipeline after a sequence of events, from the pipeline before any call.
pub open spec fn run(config: PipelineConfig, events: Seq<Event>) -> PipelineView
    decreases events.len(),
{
    if events.len() == 0 {
        initial()
    } else {
        next_state(config, run(config, events.drop_last()), events.last())
    }
}

} // verus!
