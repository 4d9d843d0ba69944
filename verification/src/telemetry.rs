//! What the pipeline hands to its telemetry sinks.
//!
//! Every item names the logical call it belongs to. The items emitted by one
//! pipeline, in their order, are its log; the functions here count what a log
//! holds for one call and add up what it did to the in-flight gauge.

use vstd::prelude::*;
use crate::span::{Span, SpanView};
use crate::value::{KeyValue, KeyValueView};

verus! {

/// One item of telemetry.
#[derive(Debug)]
pub enum Telemetry {
    /// A change of the in-flight gauge.
    InFlight { call: u64, name: String, delta: i64, attributes: Vec<KeyValue> },
    /// A duration sample, in milliseconds.
    Duration { call: u64, name: String, millis: u64, attributes: Vec<KeyValue> },
    /// A span that was closed.
    Span { call: u64, span: Span },
}

/// The mathematical content of a [`Telemetry`].
pub enum TelemetryView {
    InFlight { call: u64, name: Seq<char>, delta: i64, attributes: Seq<KeyValueView> },
    Duration { call: u64, name: Seq<char>, millis: u64, attributes: Seq<KeyValueView> },
    Span { call: u64, span: SpanView },
}

impl DeepView for Telemetry {
    type V = TelemetryView;

    open spec fn deep_view(&self) -> TelemetryView {
        match *self {
            Telemetry::InFlight { call, name, delta, attributes } => TelemetryView::InFlight {
                call,
                name: name@,
                delta,
                attributes: attributes.deep_view(),
            },
            Telemetry::Duration { call, name, millis, attributes } => TelemetryView::Duration {
                call,
                name: name@,
                millis,
                attributes: attributes.deep_view(),
            },
            Telemetry::Span { call, span } => TelemetryView::Span { call, span: span@ },
        }
    }
}

impl View for Telemetry {
    type V = TelemetryView;

    open spec fn view(&self) -> TelemetryView {
        self.deep_view()
    }
}

/// The kinds of item that are counted per call.
pub enum Kind {
    /// The gauge went up by one.
    Entry,
    /// The gauge went down by one.
    Exit,
    /// A duration sample.
    Sample,
    /// A closed span.
    Span,
}

/// The call that an item belongs to.
pub open spec fn call_of(item: TelemetryView) -> u64 {
    match item {
        TelemetryView::InFlight { call, .. } => call,
        TelemetryView::Duration { call, .. } => call,
        TelemetryView::Span { call, .. } => call,
    }
}

/// Whether an item is of a kind.
pub open spec fn is_kind(item: TelemetryView, kind: Kind) -> bool {
    match item {
        TelemetryView::InFlight { delta, .. } => (delta == 1 && kind is Entry) || (delta == -1
            && kind is Exit),
        TelemetryView::Duration { .. } => kind is Sample,
        TelemetryView::Span { .. } => kind is Span,
    }
}

/// How many items of a kind a log holds for a call.
pub open spec fn count(log: Seq<TelemetryView>, call: u64, kind: Kind) -> nat
    decreases log.len(),
{
    if log.len() == 0 {
        0
    } else {
        count(log.drop_last(), call, kind) + if call_of(log.last()) == call && is_kind(
            log.last(),
            kind,
        ) {
            1nat
        } else {
            0nat
        }
    }
}

/// The value of the in-flight gauge after a log, from zero: the sum of its changes.
pub open spec fn gauge(log: Seq<TelemetryView>) -> int
    decreases log.len(),
{
    if log.len() == 0 {
        0
    } else {
        gauge(log.drop_last()) + match log.last() {
            TelemetryView::InFlight { delta, .. } => delta as int,
            _ => 0,
        }
    }
}

/// The attributes of an item: those of a gauge change or of a sample, the
/// fields of a span.
pub open spec fn attributes_of(item: TelemetryView) -> Seq<KeyValueView> {
    match item {
        TelemetryView::InFlight { attributes, .. } => attributes,
        TelemetryView::Duration { attributes, .. } => attributes,
        TelemetryView::Span { span, .. } => span.fields,
    }
}

/// The last item of a kind that a log holds for a call, if it holds one.
pub open spec fn last_of(log: Seq<TelemetryView>, call: u64, kind: Kind) -> Option<TelemetryView>
    decreases log.len(),
{
    if log.len() == 0 {
        None
    } else if call_of(log.last()) == call && is_kind(log.last(), kind) {
        Some(log.last())
    } else {
        last_of(log.drop_last(), call, kind)
    }
}

/// The last item of a kind in a concatenation is that of the second part,
/// where it has one, else that of the first.
pub proof fn lemma_last_of_concat(
    a: Seq<TelemetryView>,
    b: Seq<TelemetryView>,
    call: u64,
    kind: Kind,
)
    ensures
        last_of(a + b, call, kind) == if last_of(b, call, kind) is Some {
            last_of(b, call, kind)
        } else {
            last_of(a, call, kind)
        },
    decreases b.len(),
{
    if b.len() == 0 {
        assert(a + b =~= a);
    } else {
        assert((a + b).drop_last() =~= a + b.drop_last());
        assert((a + b).last() == b.last());
        lemma_last_of_concat(a, b.drop_last(), call, kind);
    }
}

/// Counting distributes over concatenation.
pub proof fn lemma_count_concat(a: Seq<TelemetryView>, b: Seq<TelemetryView>, call: u64, kind: Kind)
    ensures
        count(a + b, call, kind) == count(a, call, kind) + count(b, call, kind),
    decreases b.len(),
{
    if b.len() == 0 {
        assert(a + b =~= a);
    } else {
        assert((a + b).drop_last() =~= a + b.drop_last());
        assert((a + b).last() == b.last());
        lemma_count_concat(a, b.drop_last(), call, kind);
    }
}

/// The gauge adds up over concatenation.
pub proof fn lemma_gauge_concat(a: Seq<TelemetryView>, b: Seq<TelemetryView>)
    ensures
        gauge(a + b) == gauge(a) + gauge(b),
    decreases b.len(),
{
    if b.len() == 0 {
        assert(a + b =~= a);
    } else {
        assert((a + b).drop_last() =~= a + b.drop_last());
        assert((a + b).last() == b.last());
        lemma_gauge_concat(a, b.drop_last());
    }
}

/// Whether every item of a log carries the category `label`: as an attribute
/// of a gauge change or a sample, as a field of a span.
pub open spec fn all_carry(log: Seq<TelemetryView>, label: Seq<char>) -> bool {
    forall|i: int| 0 <= i < log.len() ==> carries(#[trigger] log[i], label)
}

/// Whether an item carries the category `label`.
pub open spec fn carries(item: TelemetryView, label: Seq<char>) -> bool {
    let wanted = crate::value::text("mas.category"@, label);
    match item {
        TelemetryView::InFlight { attributes, .. } => attributes.contains(wanted),
        TelemetryView::Duration { attributes, .. } => attributes.contains(wanted),
        TelemetryView::Span { span, .. } => span.fields.contains(wanted),
    }
}

} // verus!
