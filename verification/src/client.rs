//! The client pipeline: the layers in their fixed order and the calls that
//! are under way through them.
//!
//! The pipeline does no I/O. It is told what happens (a call starts, a
//! response or a failure arrives, the caller gives up) and answers with what
//! to do next and with the telemetry to emit. Whoever drives it performs the
//! physical exchanges and hands the telemetry to its sinks.
//!
//! A logical call enters with [`ClientLayer::start`]. It then waits for a
//! slot or has one physical exchange under way, until a response that does
//! not redirect, a failure or a cancellation ends it. Every step returns the
//! telemetry it emits; the log of the pipeline is all of it, in order.

use vstd::prelude::*;
use crate::consistency::{
    lemma_cancel_consistent, lemma_error_consistent, lemma_initial_consistent, lemma_position,
    lemma_response_consistent, lemma_resume_consistent, lemma_running_push,
    lemma_run_push, lemma_running_remove, lemma_running_update, lemma_start_consistent,
};
use crate::layers::Outcome;
use crate::message::{Request, Response};
use crate::model::{
    active, consistent, end_telemetry, initial, next_state, position, resume_effect,
    response_effect, run, running, span_item, start_effect, CallView, Event, PipelineView,
};
use crate::redirect::{FollowRedirectLayer, Redirect};
use crate::service::{answer_to, rejected, Action, ClientService, Failure, Started, Step};
use crate::span::{
    closed, error_fields, fields_of_response, recorded, EnrichSpanOnError, EnrichSpanOnResponse,
    Span,
};
use crate::stack::{default_config, LayerStack, PipelineConfig};
use crate::telemetry::{gauge, Telemetry, TelemetryView};
use crate::value::KeyValue;

verus! {

/// A logical call that is under way.
#[derive(Debug)]
pub struct Call {
    id: u64,
    started_at: u64,
    labels: Vec<KeyValue>,
    request: Request,
    followed: usize,
    span: Option<Span>,
}

impl DeepView for Call {
    type V = CallView;

    closed spec fn deep_view(&self) -> CallView {
        CallView {
            id: self.id,
            started_at: self.started_at,
            labels: self.labels.deep_view(),
            request: self.request@,
            followed: self.followed,
            span: self.span.deep_view(),
        }
    }
}

/// A client pipeline: the layers in their fixed order, and the calls that are
/// under way through them. The slots, the gauge and the log are the
/// pipeline's: every service composed from it runs its calls through them.
pub struct ClientLayer {
    stack: LayerStack,
    calls: Vec<Call>,
    in_use: usize,
    started: u64,
    log: Ghost<Seq<TelemetryView>>,
    events: Ghost<Seq<Event>>,
}

impl View for ClientLayer {
    type V = PipelineView;

    closed spec fn view(&self) -> PipelineView {
        PipelineView { calls: self.calls.deep_view(), started: self.started, log: self.log@ }
    }
}

impl ClientLayer {
    /// The configuration of the pipeline.
    pub closed spec fn config(&self) -> PipelineConfig {
        self.stack@
    }

    /// What has happened to the pipeline so far, in order.
    pub closed spec fn history(&self) -> Seq<Event> {
        self.events@
    }

    /// Whether the calls and the slots of the pipeline are in order.
    closed spec fn sound(&self) -> bool {
        &&& consistent(self.config(), self@)
        &&& self.in_use == running(self@.calls)
    }

    /// Whether the pipeline is in a state that its steps can leave it in: the
    /// state that its history leads to.
    pub closed spec fn wf(&self) -> bool {
        &&& self.sound()
        &&& self@ == run(self.config(), self.history())
    }

    /// A well-formed pipeline is in the state that its history leads to, from
    /// the pipeline before any call.
    pub proof fn lemma_wf_is_a_run(&self)
        requires
            self.wf(),
        ensures
            self@ == run(self.config(), self.history()),
    {
    }

    /// A well-formed pipeline is consistent.
    pub proof fn lemma_wf_consistent(&self)
        requires
            self.wf(),
        ensures
            consistent(self.config(), self@),
    {
    }

    /// The pipeline of `stack`, with no call under way.
    fn of(stack: LayerStack) -> (pipeline: Self)
        ensures
            pipeline.wf(),
            pipeline.config() == stack@,
            pipeline@ == initial(),
            pipeline.history() == Seq::<Event>::empty(),
    {
        let pipeline = ClientLayer {
            stack,
            calls: Vec::new(),
            in_use: 0,
            started: 0,
            log: Ghost(Seq::empty()),
            events: Ghost(Seq::empty()),
        };
        proof {
            assert(pipeline.calls.deep_view() =~= Seq::<CallView>::empty());
            lemma_initial_consistent(pipeline.config());
        }
        pipeline
    }

    /// The pipeline with the default capacity and redirect bound, with no
    /// category bound and no call under way.
    #[must_use]
    pub fn new() -> (pipeline: Self)
        ensures
            pipeline.wf(),
            pipeline.config() == default_config(None),
            pipeline@ == initial(),
            pipeline.history() == Seq::<Event>::empty(),
    {
        Self::of(LayerStack::new())
    }

    /// A new pipeline bound to `category`, with no call under way: its spans
    /// and its two metrics carry the category, everything else is configured
    /// as in `self`. Nothing of what `self` has run goes over to it.
    #[must_use]
    pub fn with_category(self, category: &'static str) -> (pipeline: Self)
        ensures
            pipeline.wf(),
            pipeline.config() == (PipelineConfig { category: Some(category), ..self.config() }),
            pipeline@ == initial(),
            pipeline.history() == Seq::<Event>::empty(),
    {
        Self::of(self.stack.with_category(category))
    }

    /// Composes the layers around `inner`: a service whose calls go to
    /// `inner` and are run through this pipeline. However many services are
    /// composed from one pipeline, their calls share its slots and its gauge.
    pub fn layer<S>(&self, inner: S) -> (service: ClientService<S>)
        ensures
            service.transport() == inner,
    {
        ClientService::new(inner)
    }

    /// The category bound to the pipeline, if any.
    pub fn category(&self) -> (category: Option<&'static str>)
        ensures
            category == self.config().category,
    {
        self.stack.category()
    }

    /// The logical calls that may hold a slot at a time.
    pub fn capacity(&self) -> (capacity: usize)
        ensures
            capacity == self.config().capacity,
    {
        self.stack.capacity()
    }

    /// Where the call with this name stands, if it is under way.
    fn find(&self, id: u64) -> (found: Option<usize>)
        requires
            self.sound(),
        ensures
            match found {
                Some(i) => i < self.calls.len() && position(self@.calls, id) == Some(i as int)
                    && self@.calls[i as int].id == id,
                None => position(self@.calls, id) is None,
            },
    {
        let mut i: usize = 0;
        while i < self.calls.len()
            invariant
                self.sound(),
                i <= self.calls.len(),
                forall|j: int| 0 <= j < i ==> (#[trigger] self@.calls[j]).id != id,
            decreases self.calls.len() - i,
        {
            if self.calls[i].id == id {
                proof {
                    assert(self@.calls[i as int].id == id);
                    lemma_position(self@.calls, i as int);
                }
                return Some(i);
            }
            i += 1;
        }
        proof {
            if active(self@.calls, id) {
                let j = choose|j: int| 0 <= j < self@.calls.len() && (#[trigger] self@.calls[j]).id == id;
                assert(self@.calls[j].id != id);
            }
        }
        None
    }

    /// The answer to an event that does not apply.
    fn reject() -> (step: Step)
        ensures
            rejected(step),
    {
        let step = Step {
            telemetry: Vec::new(),
            action: Action::Rejected,
            connection_unknown: false,
        };
        assert(step.telemetry.deep_view() =~= Seq::<TelemetryView>::empty());
        step
    }

    /// What [`ClientLayer::start`] does to the calls, the slots and the log.
    fn take_start(&mut self, request: Request, now: u64) -> (started: Started)
        requires
            old(self).sound(),
            old(self)@.started < u64::MAX,
        ensures
            final(self).sound(),
            final(self).config() == old(self).config(),
            final(self).history() == old(self).history(),
            started.call == old(self)@.started,
            final(self)@ == next_state(
                old(self).config(),
                old(self)@,
                Event::Start { request: request@, now },
            ),
            answer_to(
                old(self).config(),
                old(self)@,
                Event::Start { request: request@, now },
                started.step,
            ),
    {
        let ghost config = self.config();
        let ghost before = self@;
        let ghost effect = start_effect(config, before, request@, now);
        let id = self.started;
        let mut entered = request.clone();
        self.stack.stamp(&mut entered);
        let labels = self.stack.labels(&entered);
        let entry = self.stack.enter(id, &labels);
        let admitted = self.in_use < self.stack.capacity();
        let mut span: Option<Span> = None;
        let mut action = Action::Wait;
        if admitted {
            let opened = self.stack.open_span(&entered);
            action = Action::Send { request: entered.clone(), span: opened.clone(), keep_body: true };
            span = Some(opened);
            self.in_use = self.in_use + 1;
        }
        let call = Call { id, started_at: now, labels, request: entered, followed: 0, span };
        proof {
            assert(call.deep_view() == effect.calls.last());
            lemma_running_push(before.calls, call.deep_view());
            lemma_start_consistent(config, before, request@, now);
        }
        self.calls.push(call);
        self.started = id + 1;
        self.log = Ghost(self.log@ + seq![entry@]);
        let mut telemetry: Vec<Telemetry> = Vec::new();
        telemetry.push(entry);
        proof {
            assert(self.calls.deep_view() =~= effect.calls);
            assert(telemetry.deep_view() =~= effect.telemetry);
            assert(self.log@ =~= before.log + effect.telemetry);
        }
        Started { call: id, step: Step { telemetry, action, connection_unknown: false } }
    }

    /// What [`ClientLayer::resume`] does to the calls, the slots and the log.
    fn take_resume(&mut self, id: u64) -> (step: Step)
        requires
            old(self).sound(),
        ensures
            final(self).sound(),
            final(self).config() == old(self).config(),
            final(self).history() == old(self).history(),
            final(self)@ == next_state(old(self).config(), old(self)@, Event::Resume { call: id }),
            answer_to(old(self).config(), old(self)@, Event::Resume { call: id }, step),
    {
        let ghost config = self.config();
        let ghost before = self@;
        let i = match self.find(id) {
            Some(i) => i,
            None => {
                return Self::reject();
            },
        };
        if self.calls[i].span.is_some() {
            return Self::reject();
        }
        let ghost effect = resume_effect(config, before, i as int);
        proof {
            lemma_resume_consistent(config, before, i as int);
            assert(before.log + Seq::<TelemetryView>::empty() =~= before.log);
        }
        let telemetry: Vec<Telemetry> = Vec::new();
        assert(telemetry.deep_view() =~= Seq::<TelemetryView>::empty());
        if self.in_use < self.stack.capacity() {
            let call = self.calls.remove(i);
            let Call { id, started_at, labels, request, followed, span: _ } = call;
            let opened = self.stack.open_span(&request);
            let action = Action::Send {
                request: request.clone(),
                span: opened.clone(),
                keep_body: true,
            };
            let admitted = Call { id, started_at, labels, request, followed, span: Some(opened) };
            proof {
                lemma_running_update(before.calls, i as int, admitted.deep_view());
            }
            self.calls.insert(i, admitted);
            self.in_use = self.in_use + 1;
            assert(self.calls.deep_view() =~= effect.calls);
            Step { telemetry, action, connection_unknown: false }
        } else {
            Step { telemetry, action: Action::Wait, connection_unknown: false }
        }
    }

    /// Ends the call that was taken out of the calls under way: the slot it
    /// held is free again, the gauge goes down and the duration sample is
    /// taken.
    fn end(
        &mut self,
        call: Call,
        outcome: Outcome,
        now: u64,
        telemetry: &mut Vec<Telemetry>,
        held_slot: bool,
    )
        requires
            held_slot ==> old(self).in_use > 0,
        ensures
            final(self).stack == old(self).stack,
            final(self).events == old(self).events,
            final(self).calls == old(self).calls,
            final(self).started == old(self).started,
            final(self).in_use == if held_slot {
                (old(self).in_use - 1) as usize
            } else {
                old(self).in_use
            },
            final(telemetry).deep_view() == old(telemetry).deep_view() + end_telemetry(
                old(self).config(),
                call.deep_view(),
                outcome,
                now,
            ),
            final(self).log@ == old(self).log@ + end_telemetry(
                old(self).config(),
                call.deep_view(),
                outcome,
                now,
            ),
    {
        let ghost items = end_telemetry(self.config(), call.deep_view(), outcome, now);
        let ghost emitted = telemetry.deep_view();
        let exit = self.stack.leave(call.id, &call.labels);
        let sample = self.stack.sample(call.id, &call.labels, outcome, call.started_at, now);
        telemetry.push(exit);
        telemetry.push(sample);
        assert(telemetry.deep_view() =~= emitted + items);
        if held_slot {
            self.in_use = self.in_use - 1;
        }
        self.log = Ghost(self.log@ + items);
    }

    /// What [`ClientLayer::on_response`] does to the calls, the slots and the log.
    fn take_on_response(&mut self, id: u64, response: Response, now: u64) -> (step: Step)
        requires
            old(self).sound(),
        ensures
            final(self).sound(),
            final(self).config() == old(self).config(),
            final(self).history() == old(self).history(),
            final(self)@ == next_state(
                old(self).config(),
                old(self)@,
                Event::Response { call: id, response: response@, now },
            ),
            answer_to(
                old(self).config(),
                old(self)@,
                Event::Response { call: id, response: response@, now },
                step,
            ),
    {
        let ghost config = self.config();
        let ghost before = self@;
        let i = match self.find(id) {
            Some(i) => i,
            None => {
                return Self::reject();
            },
        };
        if self.calls[i].span.is_none() {
            return Self::reject();
        }
        let ghost effect = response_effect(config, before, i as int, response@, now);
        proof {
            lemma_response_consistent(config, before, i as int, response@, now);
            lemma_running_remove(before.calls, i as int);
        }
        let call = self.calls.remove(i);
        assert(self.calls.deep_view() =~= before.calls.remove(i as int));
        let ghost ended = call.deep_view();
        let Call { id, started_at, labels, request, followed, span } = call;
        let mut span = span.unwrap();
        let known = EnrichSpanOnResponse.enrich_span(&mut span, &response);
        span.close();
        let next = self.stack.next(followed, &request, &response);
        let mut telemetry: Vec<Telemetry> = Vec::new();
        telemetry.push(Telemetry::Span { call: id, span });
        let ghost spans = telemetry.deep_view();
        assert(spans =~= seq![
            span_item(ended, closed(recorded(ended.span->0, fields_of_response(response@)))),
        ]);
        match next {
            Redirect::Follow { method, uri, keep_body, same_origin } => {
                let mut onward = FollowRedirectLayer::redirected(
                    &request,
                    method,
                    uri,
                    keep_body,
                    same_origin,
                );
                self.stack.stamp(&mut onward);
                let opened = self.stack.open_span(&onward);
                let action = Action::Send {
                    request: onward.clone(),
                    span: opened.clone(),
                    keep_body,
                };
                let moved = Call {
                    id,
                    started_at,
                    labels,
                    request: onward,
                    followed: followed + 1,
                    span: Some(opened),
                };
                proof {
                    lemma_running_update(before.calls, i as int, moved.deep_view());
                }
                self.calls.insert(i, moved);
                self.log = Ghost(self.log@ + spans);
                assert(self.calls.deep_view() =~= effect.calls);
                Step { telemetry, action, connection_unknown: !known }
            },
            last => {
                let outcome = match last {
                    Redirect::Final => Outcome::Response(response.status),
                    _ => Outcome::Failure,
                };
                let call = Call { id, started_at, labels, request, followed, span: None };
                self.log = Ghost(self.log@ + spans);
                self.end(call, outcome, now, &mut telemetry, true);
                proof {
                    let ending = end_telemetry(config, ended, outcome, now);
                    assert((before.log + spans) + ending =~= before.log + (spans + ending));
                }
                let action = match last {
                    Redirect::Final => Action::Respond(response),
                    Redirect::TooMany => Action::Fail(Failure::TooManyRedirects),
                    _ => Action::Fail(Failure::InvalidRedirectTarget),
                };
                Step { telemetry, action, connection_unknown: !known }
            },
        }
    }

    /// What [`ClientLayer::on_error`] does to the calls, the slots and the log.
    fn take_on_error(&mut self, id: u64, error: &str, now: u64) -> (step: Step)
        requires
            old(self).sound(),
        ensures
            final(self).sound(),
            final(self).config() == old(self).config(),
            final(self).history() == old(self).history(),
            final(self)@ == next_state(
                old(self).config(),
                old(self)@,
                Event::Failure { call: id, error: error@, now },
            ),
            answer_to(
                old(self).config(),
                old(self)@,
                Event::Failure { call: id, error: error@, now },
                step,
            ),
    {
        let ghost config = self.config();
        let ghost before = self@;
        let i = match self.find(id) {
            Some(i) => i,
            None => {
                return Self::reject();
            },
        };
        if self.calls[i].span.is_none() {
            return Self::reject();
        }
        proof {
            lemma_error_consistent(config, before, i as int, error@, now);
            lemma_running_remove(before.calls, i as int);
        }
        let call = self.calls.remove(i);
        assert(self.calls.deep_view() =~= before.calls.remove(i as int));
        let ghost ended = call.deep_view();
        let Call { id, started_at, labels, request, followed, span } = call;
        let mut span = span.unwrap();
        EnrichSpanOnError.enrich_span(&mut span, error);
        span.close();
        let mut telemetry: Vec<Telemetry> = Vec::new();
        telemetry.push(Telemetry::Span { call: id, span });
        let ghost spans = telemetry.deep_view();
        assert(spans =~= seq![
            span_item(ended, closed(recorded(ended.span->0, error_fields(error@)))),
        ]);
        let call = Call { id, started_at, labels, request, followed, span: None };
        self.log = Ghost(self.log@ + spans);
        self.end(call, Outcome::Failure, now, &mut telemetry, true);
        proof {
            let ending = end_telemetry(config, ended, Outcome::Failure, now);
            assert((before.log + spans) + ending =~= before.log + (spans + ending));
        }
        Step { telemetry, action: Action::Fail(Failure::Transport), connection_unknown: false }
    }

    /// What [`ClientLayer::cancel`] does to the calls, the slots and the log.
    fn take_cancel(&mut self, id: u64, now: u64) -> (step: Step)
        requires
            old(self).sound(),
        ensures
            final(self).sound(),
            final(self).config() == old(self).config(),
            final(self).history() == old(self).history(),
            final(self)@ == next_state(old(self).config(), old(self)@, Event::Cancel { call: id, now }),
            answer_to(old(self).config(), old(self)@, Event::Cancel { call: id, now }, step),
    {
        let ghost config = self.config();
        let ghost before = self@;
        let i = match self.find(id) {
            Some(i) => i,
            None => {
                return Self::reject();
            },
        };
        proof {
            lemma_cancel_consistent(config, before, i as int, now);
            lemma_running_remove(before.calls, i as int);
        }
        let call = self.calls.remove(i);
        assert(self.calls.deep_view() =~= before.calls.remove(i as int));
        let ghost ended = call.deep_view();
        let Call { id, started_at, labels, request, followed, span } = call;
        let mut telemetry: Vec<Telemetry> = Vec::new();
        let held_slot = span.is_some();
        match span {
            Some(span) => {
                let mut span = span;
                span.close();
                telemetry.push(Telemetry::Span { call: id, span });
                assert(telemetry.deep_view() =~= seq![span_item(ended, closed(ended.span->0))]);
            },
            None => {
                assert(telemetry.deep_view() =~= Seq::<TelemetryView>::empty());
            },
        }
        let ghost spans = telemetry.deep_view();
        let call = Call { id, started_at, labels, request, followed, span: None };
        self.log = Ghost(self.log@ + spans);
        self.end(call, Outcome::Cancelled, now, &mut telemetry, held_slot);
        proof {
            let ending = end_telemetry(config, ended, Outcome::Cancelled, now);
            assert((before.log + spans) + ending =~= before.log + (spans + ending));
        }
        Step { telemetry, action: Action::Cancelled, connection_unknown: false }
    }

    /// A logical call enters. The request gets the identification header, the
    /// in-flight gauge goes up, and the call takes a slot if one is free: then
    /// its first exchange is to be performed, else it waits.
    pub fn start(&mut self, request: Request, now: u64) -> (started: Started)
        requires
            old(self).wf(),
            old(self)@.started < u64::MAX,
        ensures
            final(self).wf(),
            final(self).config() == old(self).config(),
            final(self).history() == old(self).history().push(Event::Start { request: request@, now }),
            started.call == old(self)@.started,
            final(self)@ == next_state(
                old(self).config(),
                old(self)@,
                Event::Start { request: request@, now },
            ),
            answer_to(
                old(self).config(),
                old(self)@,
                Event::Start { request: request@, now },
                started.step,
            ),
    {
        let started = self.take_start(request, now);
        proof {
            lemma_run_push(old(self).config(), old(self).history(), Event::Start { request: request@, now });
        }
        self.events = Ghost(self.events@.push(Event::Start { request: request@, now }));
        started
    }

    /// A waiting call asks again for a slot. If one is free the call takes it
    /// and its first exchange is to be performed; else it goes on waiting.
    /// The event does not apply to a call that is not waiting.
    pub fn resume(&mut self, id: u64) -> (step: Step)
        requires
            old(self).wf(),
        ensures
            final(self).wf(),
            final(self).config() == old(self).config(),
            final(self).history() == old(self).history().push(Event::Resume { call: id }),
            final(self)@ == next_state(
                old(self).config(),
                old(self)@,
                Event::Resume { call: id },
            ),
            answer_to(
                old(self).config(),
                old(self)@,
                Event::Resume { call: id },
                step,
            ),
    {
        let step = self.take_resume(id);
        proof {
            lemma_run_push(old(self).config(), old(self).history(), Event::Resume { call: id });
        }
        self.events = Ghost(self.events@.push(Event::Resume { call: id }));
        step
    }

    /// A response arrives for the exchange of a call. The span of the
    /// exchange is closed with the outcome. Where the response redirects and
    /// may be followed, the next exchange is to be performed; else the call
    /// ends, with the response or with the failure to follow it. The event
    /// does not apply to a call that has no exchange under way.
    pub fn on_response(&mut self, id: u64, response: Response, now: u64) -> (step: Step)
        requires
            old(self).wf(),
        ensures
            final(self).wf(),
            final(self).config() == old(self).config(),
            final(self).history() == old(self).history().push(Event::Response { call: id, response: response@, now }),
            final(self)@ == next_state(
                old(self).config(),
                old(self)@,
                Event::Response { call: id, response: response@, now },
            ),
            answer_to(
                old(self).config(),
                old(self)@,
                Event::Response { call: id, response: response@, now },
                step,
            ),
    {
        let step = self.take_on_response(id, response, now);
        proof {
            lemma_run_push(old(self).config(), old(self).history(), Event::Response { call: id, response: response@, now });
        }
        self.events = Ghost(self.events@.push(Event::Response { call: id, response: response@, now }));
        step
    }

    /// The transport fails the exchange of a call. The span of the exchange
    /// is closed with the failure and the call ends with it. The event does
    /// not apply to a call that has no exchange under way.
    pub fn on_error(&mut self, id: u64, error: &str, now: u64) -> (step: Step)
        requires
            old(self).wf(),
        ensures
            final(self).wf(),
            final(self).config() == old(self).config(),
            final(self).history() == old(self).history().push(Event::Failure { call: id, error: error@, now }),
            final(self)@ == next_state(
                old(self).config(),
                old(self)@,
                Event::Failure { call: id, error: error@, now },
            ),
            answer_to(
                old(self).config(),
                old(self)@,
                Event::Failure { call: id, error: error@, now },
                step,
            ),
    {
        let step = self.take_on_error(id, error, now);
        proof {
            lemma_run_push(old(self).config(), old(self).history(), Event::Failure { call: id, error: error@, now });
        }
        self.events = Ghost(self.events@.push(Event::Failure { call: id, error: error@, now }));
        step
    }

    /// The caller gives up a call. What the call holds is released as at any
    /// other end: the span of an exchange under way is closed, the slot is
    /// free again, the gauge goes down and the duration sample is taken. The
    /// event does not apply to a call that is not under way.
    pub fn cancel(&mut self, id: u64, now: u64) -> (step: Step)
        requires
            old(self).wf(),
        ensures
            final(self).wf(),
            final(self).config() == old(self).config(),
            final(self).history() == old(self).history().push(Event::Cancel { call: id, now }),
            final(self)@ == next_state(
                old(self).config(),
                old(self)@,
                Event::Cancel { call: id, now },
            ),
            answer_to(
                old(self).config(),
                old(self)@,
                Event::Cancel { call: id, now },
                step,
            ),
    {
        let step = self.take_cancel(id, now);
        proof {
            lemma_run_push(old(self).config(), old(self).history(), Event::Cancel { call: id, now });
        }
        self.events = Ghost(self.events@.push(Event::Cancel { call: id, now }));
        step
    }

    /// The layers that the pipeline is made of.
    pub fn stack(&self) -> (stack: &LayerStack)
        ensures
            stack@ == self.config(),
    {
        &self.stack
    }

    /// How many calls have entered so far. The next call gets this number as
    /// its name.
    pub fn calls_started(&self) -> (n: u64)
        ensures
            n == self@.started,
    {
        self.started
    }

    /// The value of the in-flight gauge: the number of calls under way.
    pub fn in_flight(&self) -> (n: usize)
        requires
            self.wf(),
        ensures
            n == self@.calls.len(),
            n == gauge(self@.log),
    {
        self.calls.len()
    }

    /// The number of slots that are taken.
    pub fn slots_in_use(&self) -> (n: usize)
        requires
            self.wf(),
        ensures
            n == running(self@.calls),
            n <= self.config().capacity,
    {
        self.in_use
    }
}

impl Default for ClientLayer {
    fn default() -> (pipeline: Self)
        ensures
            pipeline.wf(),
            pipeline.config() == default_config(None),
            pipeline@ == initial(),
    {
        Self::new()
    }
}

} // verus!
