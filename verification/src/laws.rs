//! What holds of every pipeline, whatever happens to it.
//!
//! The laws speak of the pipeline after any sequence of events: calls that
//! enter, ask for a slot, get a response or a failure, or are given up, in
//! any order and in any number. They say how each call is accounted for in
//! the log, what the gauge shows, how many slots are taken, which header
//! every exchange carries, and which category every item of telemetry has.

use vstd::prelude::*;
use vstd::string::StringSliceAdditionalSpecFns;
use crate::stack::{default_config, PipelineConfig, USER_AGENT};
use crate::header::{holds_only, lemma_stamped_holds_only, HeaderView};
use crate::layers::{injected, lemma_injected_keeps_others, names};
use crate::labels::category_text;
use crate::message::{RequestView, ResponseView};
use crate::redirect::{next_request, redirect_of, RedirectView};
use crate::consistency::{
    lemma_run_consistent, lemma_run_labelled, lemma_running_push, lemma_running_remove,
};
use crate::model::{
    active, call_ok, entry_ok, paired, paired_ok, resume_effect, response_effect, run, running,
    spans_ok, start_effect, tally_ok, ActionView, Event,
};
use crate::telemetry::{carries, count, gauge, Kind};

verus! {

/// For a call that has ended the log holds exactly one duration sample and
/// exactly one pair of a gauge increment and a gauge decrement, however the
/// call ended: with a response, with a failure, or given up.
pub proof fn law_ended_call_is_accounted_once(
    config: PipelineConfig,
    events: Seq<Event>,
    id: u64,
)
    requires
        id < run(config, events).started,
        !active(run(config, events).calls, id),
    ensures
        count(run(config, events).log, id, Kind::Sample) == 1,
        count(run(config, events).log, id, Kind::Entry) == 1,
        count(run(config, events).log, id, Kind::Exit) == 1,
{
    lemma_run_consistent(config, events);
    assert(tally_ok(run(config, events), id));
}

/// For a call that is under way the log holds its gauge increment and
/// neither a decrement nor a sample; for a call that has not entered it
/// holds nothing.
pub proof fn law_call_under_way_is_entered_once(
    config: PipelineConfig,
    events: Seq<Event>,
    id: u64,
)
    ensures
        ({
            let state = run(config, events);
            &&& active(state.calls, id) ==> count(state.log, id, Kind::Entry) == 1 && count(
                state.log,
                id,
                Kind::Exit,
            ) == 0 && count(state.log, id, Kind::Sample) == 0
            &&& !active(state.calls, id) && id >= state.started ==> count(
                state.log,
                id,
                Kind::Entry,
            ) == 0 && count(state.log, id, Kind::Exit) == 0 && count(state.log, id, Kind::Sample)
                == 0 && count(state.log, id, Kind::Span) == 0
        }),
{
    lemma_run_consistent(config, events);
    assert(tally_ok(run(config, events), id));
}

/// For a call that has ended, however it ended and however many exchanges
/// it took: the gauge went up with the attribute set of a request of the
/// pipeline (a method, the protocol name, the category), it went down with the
/// same attribute set, and the duration sample begins with that set. With
/// one increment and one decrement for the call, the gauge is left as the
/// call found it.
pub proof fn law_exit_carries_the_attributes_of_entry(
    config: PipelineConfig,
    events: Seq<Event>,
    id: u64,
)
    requires
        id < run(config, events).started,
        !active(run(config, events).calls, id),
    ensures
        paired(config, run(config, events).log, id),
        count(run(config, events).log, id, Kind::Entry) == count(
            run(config, events).log,
            id,
            Kind::Exit,
        ),
{
    lemma_run_consistent(config, events);
    lemma_run_labelled(config, events);
    assert(tally_ok(run(config, events), id));
    assert(paired_ok(config, run(config, events), id));
}

/// For a call under way, the gauge went up with the attribute set that the
/// call keeps, which is that of a request of the pipeline.
pub proof fn law_entry_carries_the_attributes_of_the_call(
    config: PipelineConfig,
    events: Seq<Event>,
    i: int,
)
    requires
        0 <= i < run(config, events).calls.len(),
    ensures
        entry_ok(config, run(config, events), run(config, events).calls[i]),
{
    lemma_run_labelled(config, events);
}

/// The gauge is never taken down for a call without having been taken up
/// for it.
pub proof fn law_exit_follows_entry(config: PipelineConfig, events: Seq<Event>, id: u64)
    ensures
        count(run(config, events).log, id, Kind::Exit) <= count(
            run(config, events).log,
            id,
            Kind::Entry,
        ),
{
    lemma_run_consistent(config, events);
    assert(tally_ok(run(config, events), id));
}

/// For a call under way the log holds one closed span for each of its
/// physical exchanges that has ended, and none for the exchange under way:
/// as many as redirections were followed.
pub proof fn law_one_span_per_exchange(config: PipelineConfig, events: Seq<Event>, i: int)
    requires
        0 <= i < run(config, events).calls.len(),
    ensures
        count(run(config, events).log, run(config, events).calls[i].id, Kind::Span) == run(
            config,
            events,
        ).calls[i].followed,
{
    lemma_run_consistent(config, events);
    assert(spans_ok(run(config, events), run(config, events).calls[i]));
}

/// The in-flight gauge is never negative, and at any instant its value is
/// the number of calls that are between entry and exit.
pub proof fn law_gauge_counts_calls_under_way(config: PipelineConfig, events: Seq<Event>)
    ensures
        gauge(run(config, events).log) >= 0,
        gauge(run(config, events).log) == run(config, events).calls.len(),
{
    lemma_run_consistent(config, events);
}

/// At any instant no more calls than the capacity hold a slot of the
/// pipeline, whichever services they came through: the calls of a run are all
/// the calls of the pipeline.
pub proof fn law_slots_are_bounded(config: PipelineConfig, events: Seq<Event>)
    ensures
        running(run(config, events).calls) <= config.capacity,
{
    lemma_run_consistent(config, events);
}

/// A call that enters, through whichever service, is suspended exactly when
/// every slot of the pipeline is taken; otherwise its first exchange is to be
/// performed, and it holds one slot more than were held.
pub proof fn law_entry_waits_iff_full(
    config: PipelineConfig,
    events: Seq<Event>,
    request: RequestView,
    now: u64,
)
    ensures
        ({
            let state = run(config, events);
            let action = start_effect(config, state, request, now).action;
            &&& action is Wait <==> running(state.calls) == config.capacity
            &&& action is Send <==> running(state.calls) < config.capacity
            &&& running(start_effect(config, state, request, now).calls) == running(state.calls)
                + if action is Send {
                1nat
            } else {
                0nat
            }
        }),
{
    lemma_run_consistent(config, events);
    let state = run(config, events);
    lemma_running_push(state.calls, start_effect(config, state, request, now).calls.last());
    assert(start_effect(config, state, request, now).calls.drop_last() =~= state.calls);
}

/// A waiting call stays suspended while every slot is taken, and goes on
/// without error as soon as one is free.
pub proof fn law_waiting_call_goes_on_when_free(
    config: PipelineConfig,
    events: Seq<Event>,
    i: int,
)
    requires
        0 <= i < run(config, events).calls.len(),
        run(config, events).calls[i].span is None,
    ensures
        ({
            let state = run(config, events);
            let action = resume_effect(config, state, i).action;
            &&& action is Wait <==> running(state.calls) == config.capacity
            &&& action is Send <==> running(state.calls) < config.capacity
        }),
{
    lemma_run_consistent(config, events);
}

/// When a call that holds a slot ends, a slot is free: a waiting call that
/// asks again goes on.
pub proof fn law_end_frees_a_slot(config: PipelineConfig, events: Seq<Event>, i: int)
    requires
        0 <= i < run(config, events).calls.len(),
        run(config, events).calls[i].span is Some,
    ensures
        running(run(config, events).calls.remove(i)) < config.capacity,
{
    lemma_run_consistent(config, events);
    lemma_running_remove(run(config, events).calls, i);
}

/// Whether an action, if it is an exchange, carries the identification header
/// of the pipeline as the only value under its name.
pub open spec fn identified(config: PipelineConfig, action: ActionView) -> bool {
    action matches ActionView::Send { request, .. } ==> holds_only(
        request.headers,
        config.header_name,
        config.header_value,
    )
}

/// Every physical exchange carries the identification header of the
/// pipeline, whatever the caller gave under that name: the first exchange of
/// a call, that of a call that waited, and that of every redirection.
pub proof fn law_every_exchange_is_identified(
    config: PipelineConfig,
    events: Seq<Event>,
    request: RequestView,
    response: ResponseView,
    i: int,
    now: u64,
)
    ensures
        ({
            let state = run(config, events);
            &&& identified(config, start_effect(config, state, request, now).action)
            &&& 0 <= i < state.calls.len() ==> identified(
                config,
                resume_effect(config, state, i).action,
            )
            &&& 0 <= i < state.calls.len() ==> identified(
                config,
                response_effect(config, state, i, response, now).action,
            )
        }),
{
    lemma_run_consistent(config, events);
    let state = run(config, events);
    lemma_stamped_holds_only(request.headers, config.header_name, config.header_value);
    if 0 <= i < state.calls.len() {
        let call = state.calls[i];
        assert(call_ok(config, call));
        match redirect_of(config.max_redirects, call.followed, call.request, response) {
            RedirectView::Follow { method, uri, keep_body, same_origin } => {
                lemma_stamped_holds_only(
                    next_request(call.request, method, uri, keep_body, same_origin).headers,
                    config.header_name,
                    config.header_value,
                );
            },
            _ => {},
        }
    }
}

/// The trace context that is set on the request of an exchange before it
/// reaches the transport leaves the identification header as it is, unless
/// the context itself has a field of that name.
pub proof fn law_trace_context_keeps_identification(
    config: PipelineConfig,
    headers: Seq<HeaderView>,
    context: Seq<HeaderView>,
)
    requires
        holds_only(headers, config.header_name, config.header_value),
        !names(context, config.header_name),
    ensures
        holds_only(injected(headers, context), config.header_name, config.header_value),
{
    lemma_injected_keeps_others(headers, context, config.header_name);
}

/// The identification header of the default pipeline is `User-Agent`, with
/// the fixed product string as its value, bound to a category or not.
pub proof fn law_default_identification(category: Option<&'static str>)
    ensures
        default_config(category).header_name == "user-agent".spec_bytes(),
        default_config(category).header_value == USER_AGENT.spec_bytes(),
{
}

/// Every item of telemetry of a pipeline carries the category that the
/// pipeline is bound to, and `"UNSET"` where it is bound to none.
pub proof fn law_telemetry_carries_category(
    config: PipelineConfig,
    events: Seq<Event>,
    i: int,
)
    requires
        0 <= i < run(config, events).log.len(),
    ensures
        carries(run(config, events).log[i], category_text(config.category)),
        config.category is None ==> carries(run(config, events).log[i], "UNSET"@),
        config.category matches Some(label) ==> carries(run(config, events).log[i], label@),
{
    lemma_run_consistent(config, events);
}

/// An unbound pipeline and a pipeline bound from it each carry their own
/// category, whatever happens to the other: the unbound one `"UNSET"`, the
/// bound one its label.
pub proof fn law_binding_leaves_the_other_pipeline_alone(
    config: PipelineConfig,
    label: &'static str,
    events: Seq<Event>,
    others: Seq<Event>,
    i: int,
    j: int,
)
    requires
        config.category is None,
        0 <= i < run(config, events).log.len(),
        0 <= j < run(PipelineConfig { category: Some(label), ..config }, others).log.len(),
    ensures
        carries(run(config, events).log[i], "UNSET"@),
        carries(run(PipelineConfig { category: Some(label), ..config }, others).log[j], label@),
{
    lemma_run_consistent(config, events);
    lemma_run_consistent(PipelineConfig { category: Some(label), ..config }, others);
}

} // verus!
