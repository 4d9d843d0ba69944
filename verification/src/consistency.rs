//! Every event keeps a pipeline consistent.
//!
//! The pipeline before any call is consistent, and each kind of event leaves a
//! consistent pipeline consistent; so is the pipeline after any sequence of
//! events.

use vstd::prelude::*;
use crate::stack::{duration_sample, PipelineConfig};
use crate::header::lemma_stamped_holds_only;
use crate::labels::{category_text, response_labels};
use crate::layers::{gauge_change, Outcome};
use crate::message::{RequestView, ResponseView};
use crate::model::{
    active, after, call_ok, cancel_effect, category_pair, consistent, end_telemetry,
    entered_request, entering, entry_ok, error_effect, initial, labelled, next_state, paired,
    paired_ok, position, resume_effect, response_effect, run, running, span_item, spans_ok,
    start_effect, tally_ok, CallView, Event, PipelineView,
};
use crate::redirect::{next_request, redirect_of, RedirectView};
use crate::span::{closed, error_fields, fields_of_response, recorded, span_of_request};
use crate::telemetry::{
    all_carry, attributes_of, call_of, carries, count, gauge, is_kind, last_of,
    lemma_count_concat, lemma_gauge_concat, lemma_last_of_concat, Kind, TelemetryView,
};
use crate::value::KeyValueView;

verus! {

pub proof fn lemma_running_push(calls: Seq<CallView>, call: CallView)
    ensures
        running(calls.push(call)) == running(calls) + if call.span is Some {
            1nat
        } else {
            0nat
        },
{
    assert(calls.push(call).drop_last() =~= calls);
}

pub proof fn lemma_running_update(calls: Seq<CallView>, i: int, call: CallView)
    requires
        0 <= i < calls.len(),
    ensures
        running(calls.update(i, call)) + (if calls[i].span is Some {
            1nat
        } else {
            0nat
        }) == running(calls) + if call.span is Some {
            1nat
        } else {
            0nat
        },
    decreases calls.len(),
{
    if i == calls.len() - 1 {
        assert(calls.update(i, call).drop_last() =~= calls.drop_last());
    } else {
        assert(calls.update(i, call).drop_last() =~= calls.drop_last().update(i, call));
        lemma_running_update(calls.drop_last(), i, call);
    }
}

pub proof fn lemma_running_remove(calls: Seq<CallView>, i: int)
    requires
        0 <= i < calls.len(),
    ensures
        running(calls.remove(i)) + (if calls[i].span is Some {
            1nat
        } else {
            0nat
        }) == running(calls),
    decreases calls.len(),
{
    if i == calls.len() - 1 {
        assert(calls.remove(i) =~= calls.drop_last());
    } else {
        assert(calls.remove(i).drop_last() =~= calls.drop_last().remove(i));
        assert(calls.remove(i).last() == calls.last());
        lemma_running_remove(calls.drop_last(), i);
    }
}

proof fn lemma_active_push(calls: Seq<CallView>, call: CallView, id: u64)
    ensures
        active(calls.push(call), id) == (active(calls, id) || call.id == id),
{
    let pushed = calls.push(call);
    if active(calls, id) {
        let i = choose|i: int| 0 <= i < calls.len() && (#[trigger] calls[i]).id == id;
        assert(pushed[i].id == id);
    }
    if call.id == id {
        assert(pushed[calls.len() as int].id == id);
    }
    if active(pushed, id) {
        let i = choose|i: int| 0 <= i < pushed.len() && (#[trigger] pushed[i]).id == id;
        if i < calls.len() {
            assert(calls[i].id == id);
        }
    }
}

proof fn lemma_active_update(calls: Seq<CallView>, i: int, call: CallView, id: u64)
    requires
        0 <= i < calls.len(),
        call.id == calls[i].id,
    ensures
        active(calls.update(i, call), id) == active(calls, id),
{
    let updated = calls.update(i, call);
    if active(calls, id) {
        let j = choose|j: int| 0 <= j < calls.len() && (#[trigger] calls[j]).id == id;
        assert(updated[j].id == id);
    }
    if active(updated, id) {
        let j = choose|j: int| 0 <= j < updated.len() && (#[trigger] updated[j]).id == id;
        assert(calls[j].id == id);
    }
}

proof fn lemma_active_remove(calls: Seq<CallView>, i: int, id: u64)
    requires
        0 <= i < calls.len(),
        forall|a: int, b: int|
            0 <= a < b < calls.len() ==> (#[trigger] calls[a]).id != (#[trigger] calls[b]).id,
    ensures
        active(calls.remove(i), id) == (active(calls, id) && id != calls[i].id),
{
    let removed = calls.remove(i);
    if active(calls, id) && id != calls[i].id {
        let j = choose|j: int| 0 <= j < calls.len() && (#[trigger] calls[j]).id == id;
        if j < i {
            assert(removed[j].id == id);
        } else {
            assert(removed[j - 1].id == id);
        }
    }
    if active(removed, id) {
        let j = choose|j: int| 0 <= j < removed.len() && (#[trigger] removed[j]).id == id;
        if j < i {
            assert(calls[j].id == id);
            assert(calls[j].id != calls[i].id);
        } else {
            assert(calls[j + 1].id == id);
            assert(calls[i].id != calls[j + 1].id);
        }
    }
}

/// Under distinct names, the call at `i` is where its name is found.
pub proof fn lemma_position(calls: Seq<CallView>, i: int)
    requires
        0 <= i < calls.len(),
        forall|a: int, b: int|
            0 <= a < b < calls.len() ==> (#[trigger] calls[a]).id != (#[trigger] calls[b]).id,
    ensures
        position(calls, calls[i].id) == Some(i),
{
    let id = calls[i].id;
    assert(calls[i].id == id);
    let j = choose|j: int| 0 <= j < calls.len() && (#[trigger] calls[j]).id == id;
    if j < i {
        assert(calls[j].id != calls[i].id);
    } else if i < j {
        assert(calls[i].id != calls[j].id);
    }
}

proof fn lemma_contains_left<A>(a: Seq<A>, b: Seq<A>, x: A)
    requires
        a.contains(x),
    ensures
        (a + b).contains(x),
{
    let i = choose|i: int| 0 <= i < a.len() && a[i] == x;
    assert((a + b)[i] == x);
}

proof fn lemma_count_one(item: TelemetryView, call: u64, kind: Kind)
    ensures
        count(seq![item], call, kind) == if call_of(item) == call && is_kind(item, kind) {
            1nat
        } else {
            0nat
        },
{
    reveal_with_fuel(count, 2);
    assert(seq![item].drop_last() =~= Seq::<TelemetryView>::empty());
}

proof fn lemma_gauge_one(item: TelemetryView)
    ensures
        gauge(seq![item]) == match item {
            TelemetryView::InFlight { delta, .. } => delta as int,
            _ => 0,
        },
{
    reveal_with_fuel(gauge, 2);
    assert(seq![item].drop_last() =~= Seq::<TelemetryView>::empty());
}

/// What the telemetry of the end of a call adds to the tallies and the gauge.
proof fn lemma_end_telemetry(
    config: PipelineConfig,
    call: CallView,
    outcome: Outcome,
    now: u64,
    id: u64,
)
    requires
        call.labels.contains(category_pair(config)),
    ensures
        ({
            let items = end_telemetry(config, call, outcome, now);
            &&& count(items, id, Kind::Entry) == 0
            &&& count(items, id, Kind::Exit) == if id == call.id {
                1nat
            } else {
                0nat
            }
            &&& count(items, id, Kind::Sample) == if id == call.id {
                1nat
            } else {
                0nat
            }
            &&& count(items, id, Kind::Span) == 0
            &&& gauge(items) == -1
            &&& all_carry(items, category_text(config.category))
        }),
{
    let exit = gauge_change(config.in_flight_name, call.id, -1i64, call.labels);
    let sample = duration_sample(config, call.id, call.labels, outcome, call.started_at, now);
    let items = end_telemetry(config, call, outcome, now);
    assert(items =~= seq![exit] + seq![sample]);
    lemma_count_concat(seq![exit], seq![sample], id, Kind::Entry);
    lemma_count_concat(seq![exit], seq![sample], id, Kind::Exit);
    lemma_count_concat(seq![exit], seq![sample], id, Kind::Sample);
    lemma_count_concat(seq![exit], seq![sample], id, Kind::Span);
    lemma_count_one(exit, id, Kind::Span);
    lemma_count_one(sample, id, Kind::Span);
    lemma_count_one(exit, id, Kind::Entry);
    lemma_count_one(exit, id, Kind::Exit);
    lemma_count_one(exit, id, Kind::Sample);
    lemma_count_one(sample, id, Kind::Entry);
    lemma_count_one(sample, id, Kind::Exit);
    lemma_count_one(sample, id, Kind::Sample);
    lemma_gauge_concat(seq![exit], seq![sample]);
    lemma_gauge_one(exit);
    lemma_gauge_one(sample);
    match outcome {
        Outcome::Response(status) => {
            lemma_contains_left(
                call.labels,
                crate::labels::response_labels(status),
                category_pair(config),
            );
        },
        Outcome::Failure => {
            lemma_contains_left(call.labels, config.on_error, category_pair(config));
        },
        Outcome::Cancelled => {},
    }
    assert(carries(items[0], category_text(config.category)));
    assert(carries(items[1], category_text(config.category)));
}

/// What closed spans add to the tallies and the gauge: nothing.
proof fn lemma_span_items(items: Seq<TelemetryView>, id: u64)
    requires
        items.len() <= 1,
        forall|i: int| 0 <= i < items.len() ==> (#[trigger] items[i]) is Span,
    ensures
        count(items, id, Kind::Entry) == 0,
        count(items, id, Kind::Exit) == 0,
        count(items, id, Kind::Sample) == 0,
        count(items, id, Kind::Span) == if items.len() == 1 && call_of(items[0]) == id {
            1nat
        } else {
            0nat
        },
        gauge(items) == 0,
{
    reveal_with_fuel(count, 2);
    reveal_with_fuel(gauge, 2);
    if items.len() == 1 {
        assert(items[0] is Span);
        assert(items.drop_last() =~= Seq::<TelemetryView>::empty());
    }
}

/// Appending items that carry the category keeps the log carrying it.
proof fn lemma_carry_concat(log: Seq<TelemetryView>, items: Seq<TelemetryView>, label: Seq<char>)
    requires
        all_carry(log, label),
        all_carry(items, label),
    ensures
        all_carry(log + items, label),
{
    assert forall|i: int| 0 <= i < (log + items).len() implies carries(
        #[trigger] (log + items)[i],
        label,
    ) by {
        if i < log.len() {
            assert((log + items)[i] == log[i]);
        } else {
            assert((log + items)[i] == items[i - log.len()]);
        }
    }
}

/// A call that enters as [`entering`] says is as every call under way is.
proof fn lemma_entering_ok(
    config: PipelineConfig,
    request: RequestView,
    id: u64,
    now: u64,
    admitted: bool,
)
    ensures
        call_ok(config, entering(config, request, id, now, admitted)),
{
    let call = entering(config, request, id, now, admitted);
    assert(call.labels[2] == category_pair(config));
    crate::header::lemma_stamped_holds_only(
        request.headers,
        config.header_name,
        config.header_value,
    );
    lemma_span_ok(config, call.request);
}

/// The span that is opened for a request is open and carries the category.
pub proof fn lemma_span_ok(config: PipelineConfig, request: RequestView)
    ensures
        !span_of_request(config.category, request).closed,
        span_of_request(config.category, request).fields.contains(category_pair(config)),
{
    let span = span_of_request(config.category, request);
    assert(span.fields[span.fields.len() - 1] == category_pair(config));
}

/// The closed span of an exchange carries the category.
proof fn lemma_closed_span_carries(
    config: PipelineConfig,
    call: CallView,
    more: Seq<KeyValueView>,
)
    requires
        call_ok(config, call),
        call.span is Some,
    ensures
        carries(
            span_item(call, closed(recorded(call.span->0, more))),
            category_text(config.category),
        ),
        carries(span_item(call, closed(call.span->0)), category_text(config.category)),
{
    lemma_contains_left(call.span->0.fields, more, category_pair(config));
}

/// The pipeline before any call is consistent.
pub proof fn lemma_initial_consistent(config: PipelineConfig)
    ensures
        consistent(config, initial()),
{
    let state = initial();
    assert forall|id: u64| #[trigger] tally_ok(state, id) by {
        assert(!active(state.calls, id));
    }
}

/// The start of a call leaves a consistent pipeline consistent.
pub proof fn lemma_start_consistent(
    config: PipelineConfig,
    state: PipelineView,
    request: RequestView,
    now: u64,
)
    requires
        consistent(config, state),
        state.started < u64::MAX,
    ensures
        consistent(
            config,
            after(
                state,
                start_effect(config, state, request, now),
                (state.started + 1) as u64,
            ),
        ),
{
    let effect = start_effect(config, state, request, now);
    let next = after(state, effect, (state.started + 1) as u64);
    let admitted = running(state.calls) < config.capacity;
    let call = entering(config, request, state.started, now, admitted);
    let entry = gauge_change(config.in_flight_name, call.id, 1i64, call.labels);
    lemma_entering_ok(config, request, state.started, now, admitted);
    lemma_running_push(state.calls, call);
    lemma_gauge_concat(state.log, effect.telemetry);
    lemma_gauge_one(entry);
    assert(carries(entry, category_text(config.category)));
    lemma_carry_concat(state.log, effect.telemetry, category_text(config.category));
    assert forall|i: int| 0 <= i < next.calls.len() implies spans_ok(
        next,
        #[trigger] next.calls[i],
    ) by {
        let id = next.calls[i].id;
        lemma_count_concat(state.log, effect.telemetry, id, Kind::Span);
        lemma_count_one(entry, id, Kind::Span);
        if i < state.calls.len() {
            assert(spans_ok(state, state.calls[i]));
        } else {
            assert(tally_ok(state, id));
            if active(state.calls, id) {
                let j = choose|j: int| 0 <= j < state.calls.len() && (#[trigger] state.calls[j]).id == id;
                assert(state.calls[j].id < state.started);
            }
        }
    }
    assert forall|id: u64| #[trigger] tally_ok(next, id) by {
        assert(tally_ok(state, id));
        lemma_active_push(state.calls, call, id);
        lemma_count_concat(state.log, effect.telemetry, id, Kind::Entry);
        lemma_count_concat(state.log, effect.telemetry, id, Kind::Exit);
        lemma_count_concat(state.log, effect.telemetry, id, Kind::Sample);
        lemma_count_concat(state.log, effect.telemetry, id, Kind::Span);
        lemma_count_one(entry, id, Kind::Entry);
        lemma_count_one(entry, id, Kind::Exit);
        lemma_count_one(entry, id, Kind::Sample);
        lemma_count_one(entry, id, Kind::Span);
        if id == call.id {
            if active(state.calls, id) {
                let i = choose|i: int| 0 <= i < state.calls.len() && (#[trigger] state.calls[i]).id == id;
                assert(state.calls[i].id < state.started);
            }
        }
    }
}

/// Asking again for a slot leaves a consistent pipeline consistent.
pub proof fn lemma_resume_consistent(config: PipelineConfig, state: PipelineView, i: int)
    requires
        consistent(config, state),
        0 <= i < state.calls.len(),
        state.calls[i].span is None,
    ensures
        consistent(config, after(state, resume_effect(config, state, i), state.started)),
{
    let effect = resume_effect(config, state, i);
    let next = after(state, effect, state.started);
    assert(state.log + effect.telemetry =~= state.log);
    if running(state.calls) < config.capacity {
        let call = state.calls[i];
        let admitted = CallView {
            span: Some(span_of_request(config.category, call.request)),
            ..call
        };
        lemma_running_update(state.calls, i, admitted);
        assert(call_ok(config, call));
        lemma_span_ok(config, call.request);
        assert(call_ok(config, admitted));
        assert forall|id: u64| #[trigger] tally_ok(next, id) by {
            assert(tally_ok(state, id));
            lemma_active_update(state.calls, i, admitted, id);
        }
        assert forall|j: int| 0 <= j < next.calls.len() implies spans_ok(
            next,
            #[trigger] next.calls[j],
        ) by {
            assert(spans_ok(state, state.calls[j]));
        }
    } else {
        assert(next == state);
    }
}

/// The end of the call at `i`, with telemetry made of the closed span of its
/// exchange, if it has one, and of what every end emits, leaves a consistent
/// pipeline consistent.
proof fn lemma_end_consistent(
    config: PipelineConfig,
    state: PipelineView,
    i: int,
    spans: Seq<TelemetryView>,
    outcome: Outcome,
    now: u64,
)
    requires
        consistent(config, state),
        0 <= i < state.calls.len(),
        spans.len() <= 1,
        forall|j: int|
            0 <= j < spans.len() ==> (#[trigger] spans[j]) is Span && call_of(spans[j])
                == state.calls[i].id,
        all_carry(spans, category_text(config.category)),
    ensures
        consistent(
            config,
            PipelineView {
                calls: state.calls.remove(i),
                started: state.started,
                log: state.log + (spans + end_telemetry(config, state.calls[i], outcome, now)),
            },
        ),
{
    let call = state.calls[i];
    let ending = end_telemetry(config, call, outcome, now);
    let items = spans + ending;
    let next = PipelineView {
        calls: state.calls.remove(i),
        started: state.started,
        log: state.log + items,
    };
    assert(call_ok(config, call));
    lemma_running_remove(state.calls, i);
    lemma_end_telemetry(config, call, outcome, now, call.id);
    lemma_span_items(spans, call.id);
    lemma_gauge_concat(spans, ending);
    lemma_gauge_concat(state.log, items);
    lemma_carry_concat(spans, ending, category_text(config.category));
    lemma_carry_concat(state.log, items, category_text(config.category));
    assert forall|id: u64| #[trigger] tally_ok(next, id) by {
        assert(tally_ok(state, id));
        lemma_active_remove(state.calls, i, id);
        lemma_end_telemetry(config, call, outcome, now, id);
        lemma_span_items(spans, id);
        lemma_count_concat(spans, ending, id, Kind::Entry);
        lemma_count_concat(spans, ending, id, Kind::Exit);
        lemma_count_concat(spans, ending, id, Kind::Sample);
        lemma_count_concat(state.log, items, id, Kind::Entry);
        lemma_count_concat(state.log, items, id, Kind::Exit);
        lemma_count_concat(state.log, items, id, Kind::Sample);
        lemma_count_concat(spans, ending, id, Kind::Span);
        lemma_count_concat(state.log, items, id, Kind::Span);
        if id == call.id {
            assert(state.calls[i].id == id);
            assert(active(state.calls, id));
        }
    }
    assert forall|j: int| 0 <= j < next.calls.len() implies spans_ok(
        next,
        #[trigger] next.calls[j],
    ) by {
        let other = if j < i {
            state.calls[j]
        } else {
            state.calls[j + 1]
        };
        assert(next.calls[j] == other);
        assert(spans_ok(state, other));
        assert(other.id != call.id) by {
            if j < i {
                assert(state.calls[j].id != state.calls[i].id);
            } else {
                assert(state.calls[i].id != state.calls[j + 1].id);
            }
        }
        lemma_end_telemetry(config, call, outcome, now, other.id);
        lemma_span_items(spans, other.id);
        lemma_count_concat(spans, ending, other.id, Kind::Span);
        lemma_count_concat(state.log, items, other.id, Kind::Span);
    }
}

/// A response leaves a consistent pipeline consistent.
pub proof fn lemma_response_consistent(
    config: PipelineConfig,
    state: PipelineView,
    i: int,
    response: ResponseView,
    now: u64,
)
    requires
        consistent(config, state),
        0 <= i < state.calls.len(),
        state.calls[i].span is Some,
    ensures
        consistent(
            config,
            after(state, response_effect(config, state, i, response, now), state.started),
        ),
{
    let effect = response_effect(config, state, i, response, now);
    let call = state.calls[i];
    let span = span_item(call, closed(recorded(call.span->0, fields_of_response(response))));
    assert(call_ok(config, call));
    lemma_closed_span_carries(config, call, fields_of_response(response));
    match redirect_of(config.max_redirects, call.followed, call.request, response) {
        RedirectView::Follow { method, uri, keep_body, same_origin } => {
            let next = after(state, effect, state.started);
            let request = entered_request(
                config,
                next_request(call.request, method, uri, keep_body, same_origin),
            );
            let moved = CallView {
                request,
                followed: (call.followed + 1) as usize,
                span: Some(span_of_request(config.category, request)),
                ..call
            };
            lemma_running_update(state.calls, i, moved);
            lemma_span_ok(config, request);
            crate::header::lemma_stamped_holds_only(
                next_request(call.request, method, uri, keep_body, same_origin).headers,
                config.header_name,
                config.header_value,
            );
            assert(call_ok(config, moved));
            lemma_gauge_concat(state.log, effect.telemetry);
            lemma_gauge_one(span);
            lemma_carry_concat(state.log, effect.telemetry, category_text(config.category));
            assert forall|id: u64| #[trigger] tally_ok(next, id) by {
                assert(tally_ok(state, id));
                lemma_active_update(state.calls, i, moved, id);
                lemma_span_items(effect.telemetry, id);
                lemma_count_concat(state.log, effect.telemetry, id, Kind::Entry);
                lemma_count_concat(state.log, effect.telemetry, id, Kind::Exit);
                lemma_count_concat(state.log, effect.telemetry, id, Kind::Sample);
                lemma_count_concat(state.log, effect.telemetry, id, Kind::Span);
                if id == call.id {
                    assert(state.calls[i].id == id);
                    assert(active(state.calls, id));
                }
            }
            assert forall|j: int| 0 <= j < next.calls.len() implies spans_ok(
                next,
                #[trigger] next.calls[j],
            ) by {
                let id = next.calls[j].id;
                assert(spans_ok(state, state.calls[j]));
                lemma_span_items(effect.telemetry, id);
                lemma_count_concat(state.log, effect.telemetry, id, Kind::Span);
                if j != i {
                    if j < i {
                        assert(state.calls[j].id != state.calls[i].id);
                    } else {
                        assert(state.calls[i].id != state.calls[j].id);
                    }
                }
            }
        },
        RedirectView::Final => {
            lemma_end_consistent(
                config,
                state,
                i,
                seq![span],
                Outcome::Response(response.status),
                now,
            );
        },
        RedirectView::TooMany => {
            lemma_end_consistent(config, state, i, seq![span], Outcome::Failure, now);
        },
        RedirectView::InvalidTarget => {
            lemma_end_consistent(config, state, i, seq![span], Outcome::Failure, now);
        },
    }
}

/// A failure of the transport leaves a consistent pipeline consistent.
pub proof fn lemma_error_consistent(
    config: PipelineConfig,
    state: PipelineView,
    i: int,
    error: Seq<char>,
    now: u64,
)
    requires
        consistent(config, state),
        0 <= i < state.calls.len(),
        state.calls[i].span is Some,
    ensures
        consistent(
            config,
            after(state, error_effect(config, state, i, error, now), state.started),
        ),
{
    let call = state.calls[i];
    let span = span_item(call, closed(recorded(call.span->0, error_fields(error))));
    assert(call_ok(config, call));
    lemma_closed_span_carries(config, call, error_fields(error));
    lemma_end_consistent(config, state, i, seq![span], Outcome::Failure, now);
}

/// A cancellation leaves a consistent pipeline consistent.
pub proof fn lemma_cancel_consistent(
    config: PipelineConfig,
    state: PipelineView,
    i: int,
    now: u64,
)
    requires
        consistent(config, state),
        0 <= i < state.calls.len(),
    ensures
        consistent(config, after(state, cancel_effect(config, state, i, now), state.started)),
{
    let call = state.calls[i];
    assert(call_ok(config, call));
    let spans = match call.span {
        Some(span) => seq![span_item(call, closed(span))],
        None => Seq::empty(),
    };
    if call.span is Some {
        lemma_closed_span_carries(config, call, Seq::empty());
    }
    lemma_end_consistent(config, state, i, spans, Outcome::Cancelled, now);
}

/// Every event leaves a consistent pipeline consistent.
pub proof fn lemma_step_consistent(config: PipelineConfig, state: PipelineView, event: Event)
    requires
        consistent(config, state),
    ensures
        consistent(config, next_state(config, state, event)),
{
    match event {
        Event::Start { request, now } => {
            if state.started < u64::MAX {
                lemma_start_consistent(config, state, request, now);
            }
        },
        Event::Resume { call } => {
            if let Some(i) = position(state.calls, call) {
                if state.calls[i].span is None {
                    lemma_resume_consistent(config, state, i);
                }
            }
        },
        Event::Response { call, response, now } => {
            if let Some(i) = position(state.calls, call) {
                if state.calls[i].span is Some {
                    lemma_response_consistent(config, state, i, response, now);
                }
            }
        },
        Event::Failure { call, error, now } => {
            if let Some(i) = position(state.calls, call) {
                if state.calls[i].span is Some {
                    lemma_error_consistent(config, state, i, error, now);
                }
            }
        },
        Event::Cancel { call, now } => {
            if let Some(i) = position(state.calls, call) {
                lemma_cancel_consistent(config, state, i, now);
            }
        },
    }
}

/// One more event leads to the state that the event makes of the state
/// before it.
pub proof fn lemma_run_push(config: PipelineConfig, events: Seq<Event>, event: Event)
    ensures
        run(config, events.push(event)) == next_state(config, run(config, events), event),
{
    assert(events.push(event).drop_last() =~= events);
}

/// Whatever happens to a pipeline, in whatever order, it is consistent.
pub proof fn lemma_run_consistent(config: PipelineConfig, events: Seq<Event>)
    ensures
        consistent(config, run(config, events)),
    decreases events.len(),
{
    if events.len() == 0 {
        lemma_initial_consistent(config);
    } else {
        lemma_run_consistent(config, events.drop_last());
        lemma_step_consistent(config, run(config, events.drop_last()), events.last());
    }
}

proof fn lemma_last_of_one(item: TelemetryView, call: u64, kind: Kind)
    ensures
        last_of(seq![item], call, kind) == if call_of(item) == call && is_kind(item, kind) {
            Some(item)
        } else {
            None
        },
{
    reveal_with_fuel(last_of, 2);
    assert(seq![item].drop_last() =~= Seq::<TelemetryView>::empty());
}

/// Closed spans are neither entries nor exits nor samples.
proof fn lemma_last_of_spans(items: Seq<TelemetryView>, call: u64, kind: Kind)
    requires
        items.len() <= 1,
        forall|i: int| 0 <= i < items.len() ==> (#[trigger] items[i]) is Span,
        !(kind is Span),
    ensures
        last_of(items, call, kind) is None,
{
    reveal_with_fuel(last_of, 2);
    if items.len() == 1 {
        assert(items[0] is Span);
        assert(items.drop_last() =~= Seq::<TelemetryView>::empty());
    }
}

/// The last entry, exit and sample of the telemetry of the end of a call.
proof fn lemma_last_of_end(
    config: PipelineConfig,
    call: CallView,
    outcome: Outcome,
    now: u64,
    id: u64,
)
    ensures
        ({
            let items = end_telemetry(config, call, outcome, now);
            let exit = gauge_change(config.in_flight_name, call.id, -1i64, call.labels);
            let sample = duration_sample(
                config,
                call.id,
                call.labels,
                outcome,
                call.started_at,
                now,
            );
            &&& last_of(items, id, Kind::Entry) is None
            &&& last_of(items, id, Kind::Exit) == if id == call.id {
                Some(exit)
            } else {
                None
            }
            &&& last_of(items, id, Kind::Sample) == if id == call.id {
                Some(sample)
            } else {
                None
            }
            &&& call.labels.is_prefix_of(attributes_of(sample))
        }),
{
    let exit = gauge_change(config.in_flight_name, call.id, -1i64, call.labels);
    let sample = duration_sample(config, call.id, call.labels, outcome, call.started_at, now);
    let items = end_telemetry(config, call, outcome, now);
    assert(items =~= seq![exit] + seq![sample]);
    lemma_last_of_concat(seq![exit], seq![sample], id, Kind::Entry);
    lemma_last_of_concat(seq![exit], seq![sample], id, Kind::Exit);
    lemma_last_of_concat(seq![exit], seq![sample], id, Kind::Sample);
    lemma_last_of_one(exit, id, Kind::Entry);
    lemma_last_of_one(exit, id, Kind::Exit);
    lemma_last_of_one(exit, id, Kind::Sample);
    lemma_last_of_one(sample, id, Kind::Entry);
    lemma_last_of_one(sample, id, Kind::Exit);
    lemma_last_of_one(sample, id, Kind::Sample);
    let attributes = attributes_of(sample);
    assert(attributes.subrange(0, call.labels.len() as int) =~= call.labels);
}

/// Closed spans before the telemetry of the end of a call add no entry, exit
/// or sample to it.
proof fn lemma_last_of_ending(
    config: PipelineConfig,
    call: CallView,
    outcome: Outcome,
    now: u64,
    spans: Seq<TelemetryView>,
    id: u64,
)
    requires
        spans.len() <= 1,
        forall|j: int| 0 <= j < spans.len() ==> (#[trigger] spans[j]) is Span,
    ensures
        ({
            let ending = end_telemetry(config, call, outcome, now);
            &&& last_of(spans + ending, id, Kind::Entry) is None
            &&& last_of(spans + ending, id, Kind::Exit) == last_of(ending, id, Kind::Exit)
            &&& last_of(spans + ending, id, Kind::Sample) == last_of(ending, id, Kind::Sample)
        }),
{
    let ending = end_telemetry(config, call, outcome, now);
    lemma_last_of_end(config, call, outcome, now, id);
    lemma_last_of_spans(spans, id, Kind::Entry);
    lemma_last_of_spans(spans, id, Kind::Exit);
    lemma_last_of_spans(spans, id, Kind::Sample);
    lemma_last_of_concat(spans, ending, id, Kind::Entry);
    lemma_last_of_concat(spans, ending, id, Kind::Exit);
    lemma_last_of_concat(spans, ending, id, Kind::Sample);
}

/// Telemetry that holds no entry, exit or sample for a call leaves what the
/// log holds of them for the call as it is.
proof fn lemma_last_of_untouched(
    config: PipelineConfig,
    log: Seq<TelemetryView>,
    items: Seq<TelemetryView>,
    id: u64,
)
    requires
        last_of(items, id, Kind::Entry) is None,
        last_of(items, id, Kind::Exit) is None,
        last_of(items, id, Kind::Sample) is None,
    ensures
        last_of(log + items, id, Kind::Entry) == last_of(log, id, Kind::Entry),
        last_of(log + items, id, Kind::Exit) == last_of(log, id, Kind::Exit),
        last_of(log + items, id, Kind::Sample) == last_of(log, id, Kind::Sample),
        paired(config, log + items, id) == paired(config, log, id),
{
    lemma_last_of_concat(log, items, id, Kind::Entry);
    lemma_last_of_concat(log, items, id, Kind::Exit);
    lemma_last_of_concat(log, items, id, Kind::Sample);
}

/// The start of a call keeps the attribute sets of the log in order.
proof fn lemma_start_labelled(
    config: PipelineConfig,
    state: PipelineView,
    request: RequestView,
    now: u64,
)
    requires
        consistent(config, state),
        labelled(config, state),
        state.started < u64::MAX,
    ensures
        labelled(
            config,
            after(
                state,
                start_effect(config, state, request, now),
                (state.started + 1) as u64,
            ),
        ),
{
    let effect = start_effect(config, state, request, now);
    let next = after(state, effect, (state.started + 1) as u64);
    let call = effect.calls.last();
    let entry = gauge_change(config.in_flight_name, call.id, 1i64, call.labels);
    assert(effect.telemetry =~= seq![entry]);
    assert forall|i: int| 0 <= i < next.calls.len() implies entry_ok(
        config,
        next,
        #[trigger] next.calls[i],
    ) by {
        let id = next.calls[i].id;
        lemma_last_of_concat(state.log, effect.telemetry, id, Kind::Entry);
        lemma_last_of_one(entry, id, Kind::Entry);
        if i < state.calls.len() {
            assert(next.calls[i] == state.calls[i]);
            assert(entry_ok(config, state, state.calls[i]));
            assert(state.calls[i].id < state.started);
        }
    }
    assert forall|id: u64| #[trigger] paired_ok(config, next, id) by {
        assert(paired_ok(config, state, id));
        lemma_active_push(state.calls, call, id);
        lemma_last_of_one(entry, id, Kind::Entry);
        lemma_last_of_one(entry, id, Kind::Exit);
        lemma_last_of_one(entry, id, Kind::Sample);
        if id != call.id {
            lemma_last_of_untouched(config, state.log, effect.telemetry, id);
        }
    }
}

/// A step that changes one call, keeping its name and its attributes, and
/// emits closed spans alone keeps the attribute sets of the log in order.
proof fn lemma_update_labelled(
    config: PipelineConfig,
    state: PipelineView,
    i: int,
    call: CallView,
    spans: Seq<TelemetryView>,
)
    requires
        labelled(config, state),
        0 <= i < state.calls.len(),
        call.id == state.calls[i].id,
        call.labels == state.calls[i].labels,
        spans.len() <= 1,
        forall|j: int| 0 <= j < spans.len() ==> (#[trigger] spans[j]) is Span,
    ensures
        labelled(
            config,
            PipelineView {
                calls: state.calls.update(i, call),
                started: state.started,
                log: state.log + spans,
            },
        ),
{
    let next = PipelineView {
        calls: state.calls.update(i, call),
        started: state.started,
        log: state.log + spans,
    };
    assert forall|j: int| 0 <= j < next.calls.len() implies entry_ok(
        config,
        next,
        #[trigger] next.calls[j],
    ) by {
        let id = next.calls[j].id;
        assert(entry_ok(config, state, state.calls[j]));
        lemma_last_of_spans(spans, id, Kind::Entry);
        lemma_last_of_concat(state.log, spans, id, Kind::Entry);
    }
    assert forall|id: u64| #[trigger] paired_ok(config, next, id) by {
        assert(paired_ok(config, state, id));
        lemma_active_update(state.calls, i, call, id);
        lemma_last_of_spans(spans, id, Kind::Entry);
        lemma_last_of_spans(spans, id, Kind::Exit);
        lemma_last_of_spans(spans, id, Kind::Sample);
        lemma_last_of_untouched(config, state.log, spans, id);
    }
}

/// The end of a call keeps the attribute sets of the log in order.
proof fn lemma_end_labelled(
    config: PipelineConfig,
    state: PipelineView,
    i: int,
    spans: Seq<TelemetryView>,
    outcome: Outcome,
    now: u64,
)
    requires
        consistent(config, state),
        labelled(config, state),
        0 <= i < state.calls.len(),
        spans.len() <= 1,
        forall|j: int| 0 <= j < spans.len() ==> (#[trigger] spans[j]) is Span,
    ensures
        labelled(
            config,
            PipelineView {
                calls: state.calls.remove(i),
                started: state.started,
                log: state.log + (spans + end_telemetry(config, state.calls[i], outcome, now)),
            },
        ),
{
    let call = state.calls[i];
    let ending = end_telemetry(config, call, outcome, now);
    let items = spans + ending;
    let next = PipelineView {
        calls: state.calls.remove(i),
        started: state.started,
        log: state.log + items,
    };
    assert(entry_ok(config, state, call));
    assert forall|j: int| 0 <= j < next.calls.len() implies entry_ok(
        config,
        next,
        #[trigger] next.calls[j],
    ) by {
        let other = if j < i {
            state.calls[j]
        } else {
            state.calls[j + 1]
        };
        assert(next.calls[j] == other);
        assert(entry_ok(config, state, other));
        lemma_last_of_ending(config, call, outcome, now, spans, other.id);
        lemma_last_of_concat(state.log, items, other.id, Kind::Entry);
    }
    assert forall|id: u64| #[trigger] paired_ok(config, next, id) by {
        assert(paired_ok(config, state, id));
        lemma_active_remove(state.calls, i, id);
        lemma_last_of_end(config, call, outcome, now, id);
        lemma_last_of_ending(config, call, outcome, now, spans, id);
        lemma_last_of_concat(state.log, items, id, Kind::Entry);
        lemma_last_of_concat(state.log, items, id, Kind::Exit);
        lemma_last_of_concat(state.log, items, id, Kind::Sample);
        if id == call.id {
            assert(state.calls[i].id < state.started);
        } else {
            lemma_last_of_untouched(config, state.log, items, id);
        }
    }
}

/// Every event keeps the attribute sets of the log of a consistent pipeline
/// in order.
pub proof fn lemma_step_labelled(config: PipelineConfig, state: PipelineView, event: Event)
    requires
        consistent(config, state),
        labelled(config, state),
    ensures
        labelled(config, next_state(config, state, event)),
{
    match event {
        Event::Start { request, now } => {
            if state.started < u64::MAX {
                lemma_start_labelled(config, state, request, now);
            }
        },
        Event::Resume { call } => {
            if let Some(i) = position(state.calls, call) {
                if state.calls[i].span is None {
                    let effect = resume_effect(config, state, i);
                    if running(state.calls) < config.capacity {
                        lemma_update_labelled(config, state, i, effect.calls[i], Seq::empty());
                    }
                    assert(state.log + effect.telemetry =~= state.log);
                }
            }
        },
        Event::Response { call, response, now } => {
            if let Some(i) = position(state.calls, call) {
                if state.calls[i].span is Some {
                    let effect = response_effect(config, state, i, response, now);
                    let span = span_item(
                        state.calls[i],
                        closed(recorded(state.calls[i].span->0, fields_of_response(response))),
                    );
                    match redirect_of(
                        config.max_redirects,
                        state.calls[i].followed,
                        state.calls[i].request,
                        response,
                    ) {
                        RedirectView::Follow { .. } => {
                            lemma_update_labelled(config, state, i, effect.calls[i], seq![span]);
                        },
                        RedirectView::Final => {
                            lemma_end_labelled(
                                config,
                                state,
                                i,
                                seq![span],
                                Outcome::Response(response.status),
                                now,
                            );
                        },
                        _ => {
                            lemma_end_labelled(config, state, i, seq![span], Outcome::Failure, now);
                        },
                    }
                }
            }
        },
        Event::Failure { call, error, now } => {
            if let Some(i) = position(state.calls, call) {
                if state.calls[i].span is Some {
                    let span = span_item(
                        state.calls[i],
                        closed(recorded(state.calls[i].span->0, error_fields(error))),
                    );
                    lemma_end_labelled(config, state, i, seq![span], Outcome::Failure, now);
                }
            }
        },
        Event::Cancel { call, now } => {
            if let Some(i) = position(state.calls, call) {
                let spans = match state.calls[i].span {
                    Some(span) => seq![span_item(state.calls[i], closed(span))],
                    None => Seq::empty(),
                };
                lemma_end_labelled(config, state, i, spans, Outcome::Cancelled, now);
            }
        },
    }
}

/// Whatever happens to a pipeline, in whatever order, the attribute sets of
/// its log are in order.
pub proof fn lemma_run_labelled(config: PipelineConfig, events: Seq<Event>)
    ensures
        labelled(config, run(config, events)),
    decreases events.len(),
{
    if events.len() == 0 {
        let state = initial();
        assert forall|id: u64| #[trigger] paired_ok(config, state, id) by {}
    } else {
        lemma_run_consistent(config, events.drop_last());
        lemma_run_labelled(config, events.drop_last());
        lemma_step_labelled(config, run(config, events.drop_last()), events.last());
    }
}

} // verus!
