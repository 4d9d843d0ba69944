//! Services: the handles through which calls go into a pipeline, and what a
//! pipeline answers to them.
//!
//! A service is a transport with the pipeline's layers composed around it.
//! It holds nothing of the pipeline's state: the slots, the gauge and the log
//! that a call is accounted in are those of the pipeline, whichever service
//! the call goes through.

use vstd::prelude::*;
use crate::client::ClientLayer;
use crate::message::{Request, Response};
use crate::model::{effect_of, lacks_connection, next_state, ActionView, Effect, Event, PipelineView};
use crate::span::Span;
use crate::stack::PipelineConfig;
use crate::telemetry::{Telemetry, TelemetryView};

verus! {


/// Why a logical call failed.
#[derive(Debug, Clone, Copy, PartialEq, Eq, Structural)]
pub enum Failure {
    /// The transport failed. Its error goes to the caller as it is.
    Transport,
    /// A response redirected after the bound on redirections was reached.
    TooManyRedirects,
    /// A response redirected to no usable target.
    InvalidRedirectTarget,
}

/// What the driver of the service does next for a call.
#[derive(Debug)]
pub enum Action {
    /// Perform this physical exchange, under this open span. `keep_body` is
    /// `false` where the exchange carries no body.
    Send { request: Request, span: Span, keep_body: bool },
    /// Stay suspended: every slot is taken.
    Wait,
    /// Give this response to the caller.
    Respond(Response),
    /// Fail the call.
    Fail(Failure),
    /// The call was given up; there is nothing to give to the caller.
    Cancelled,
    /// The service has no such call in a state that the step applies to.
    /// Nothing has changed.
    Rejected,
}

impl DeepView for Action {
    type V = ActionView;

    open spec fn deep_view(&self) -> ActionView {
        match *self {
            Action::Send { request, span, keep_body } => ActionView::Send {
                request: request@,
                span: span@,
                keep_body,
            },
            Action::Wait => ActionView::Wait,
            Action::Respond(response) => ActionView::Respond(response@),
            Action::Fail(failure) => ActionView::Fail(failure),
            Action::Cancelled => ActionView::Cancelled,
            Action::Rejected => ActionView::Rejected,
        }
    }
}

impl View for Action {
    type V = ActionView;

    open spec fn view(&self) -> ActionView {
        self.deep_view()
    }
}

/// The answer of the service to one event.
#[derive(Debug)]
pub struct Step {
    /// The telemetry to emit, in this order.
    pub telemetry: Vec<Telemetry>,
    /// What to do next.
    pub action: Action,
    /// Whether a response came without the connection's two ends: the driver
    /// then has a diagnostic to emit. The call goes on as it would.
    pub connection_unknown: bool,
}

/// The answer of the service to the start of a call.
#[derive(Debug)]
pub struct Started {
    /// The name of the call in later events.
    pub call: u64,
    pub step: Step,
}

/// Whether a step gives what an effect says.
pub open spec fn answers(step: Step, effect: Effect) -> bool {
    &&& step.telemetry.deep_view() == effect.telemetry
    &&& step.action@ == effect.action
}

/// Whether a step is the answer to an event that does not apply.
pub open spec fn rejected(step: Step) -> bool {
    &&& step.telemetry.deep_view() == Seq::<TelemetryView>::empty()
    &&& step.action@ == ActionView::Rejected
    &&& !step.connection_unknown
}

/// Whether a step is the pipeline's answer to an event: what the effect of
/// the event says, where the event applies, and nothing otherwise.
pub open spec fn answer_to(
    config: PipelineConfig,
    state: PipelineView,
    event: Event,
    step: Step,
) -> bool {
    &&& match effect_of(config, state, event) {
        Some(effect) => answers(step, effect),
        None => rejected(step),
    }
    &&& step.connection_unknown == lacks_connection(config, state, event)
}

/// A transport with the layers of a pipeline composed around it.
#[derive(Debug)]
pub struct ClientService<S> {
    inner: S,
}

impl<S> ClientService<S> {
    /// The transport that the layers are composed around.
    pub closed spec fn transport(&self) -> S {
        self.inner
    }

    /// The service around `inner`.
    pub fn new(inner: S) -> (service: Self)
        ensures
            service.transport() == inner,
    {
        ClientService { inner }
    }

    /// The transport that the layers are composed around.
    pub fn inner(&self) -> (inner: &S)
        ensures
            *inner == self.transport(),
    {
        &self.inner
    }

    /// A logical call enters through this service. It is accounted in
    /// `pipeline`, and takes one of its slots if one is free, whichever
    /// service the calls that hold the others came through.
    pub fn start(&self, pipeline: &mut ClientLayer, request: Request, now: u64) -> (started:
        Started)
        requires
            old(pipeline).wf(),
            old(pipeline)@.started < u64::MAX,
        ensures
            final(pipeline).wf(),
            final(pipeline).config() == old(pipeline).config(),
            final(pipeline).history() == old(pipeline).history().push(
                Event::Start { request: request@, now },
            ),
            started.call == old(pipeline)@.started,
            final(pipeline)@ == next_state(
                old(pipeline).config(),
                old(pipeline)@,
                Event::Start { request: request@, now },
            ),
            answer_to(
                old(pipeline).config(),
                old(pipeline)@,
                Event::Start { request: request@, now },
                started.step,
            ),
    {
        pipeline.start(request, now)
    }

    /// A waiting call of this service asks again for a slot of `pipeline`.
    pub fn resume(&self, pipeline: &mut ClientLayer, id: u64) -> (step: Step)
        requires
            old(pipeline).wf(),
        ensures
            final(pipeline).wf(),
            final(pipeline).config() == old(pipeline).config(),
            final(pipeline).history() == old(pipeline).history().push(
                Event::Resume { call: id },
            ),
            final(pipeline)@ == next_state(
                old(pipeline).config(),
                old(pipeline)@,
                Event::Resume { call: id },
            ),
            answer_to(old(pipeline).config(), old(pipeline)@, Event::Resume { call: id }, step),
    {
        pipeline.resume(id)
    }

    /// The transport of this service gives a response for the exchange of a
    /// call.
    pub fn on_response(&self, pipeline: &mut ClientLayer, id: u64, response: Response, now: u64)
        -> (step: Step)
        requires
            old(pipeline).wf(),
        ensures
            final(pipeline).wf(),
            final(pipeline).config() == old(pipeline).config(),
            final(pipeline).history() == old(pipeline).history().push(
                Event::Response { call: id, response: response@, now },
            ),
            final(pipeline)@ == next_state(
                old(pipeline).config(),
                old(pipeline)@,
                Event::Response { call: id, response: response@, now },
            ),
            answer_to(
                old(pipeline).config(),
                old(pipeline)@,
                Event::Response { call: id, response: response@, now },
                step,
            ),
    {
        pipeline.on_response(id, response, now)
    }

    /// The transport of this service fails the exchange of a call.
    pub fn on_error(&self, pipeline: &mut ClientLayer, id: u64, error: &str, now: u64) -> (step:
        Step)
        requires
            old(pipeline).wf(),
        ensures
            final(pipeline).wf(),
            final(pipeline).config() == old(pipeline).config(),
            final(pipeline).history() == old(pipeline).history().push(
                Event::Failure { call: id, error: error@, now },
            ),
            final(pipeline)@ == next_state(
                old(pipeline).config(),
                old(pipeline)@,
                Event::Failure { call: id, error: error@, now },
            ),
            answer_to(
                old(pipeline).config(),
                old(pipeline)@,
                Event::Failure { call: id, error: error@, now },
                step,
            ),
    {
        pipeline.on_error(id, error, now)
    }

    /// The caller of this service gives up a call.
    pub fn cancel(&self, pipeline: &mut ClientLayer, id: u64, now: u64) -> (step: Step)
        requires
            old(pipeline).wf(),
        ensures
            final(pipeline).wf(),
            final(pipeline).config() == old(pipeline).config(),
            final(pipeline).history() == old(pipeline).history().push(
                Event::Cancel { call: id, now },
            ),
            final(pipeline)@ == next_state(
                old(pipeline).config(),
                old(pipeline)@,
                Event::Cancel { call: id, now },
            ),
            answer_to(old(pipeline).config(), old(pipeline)@, Event::Cancel { call: id, now }, step),
    {
        pipeline.cancel(id, now)
    }
}

} // verus!
