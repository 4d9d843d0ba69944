//! The attribute sets that tag the pipeline's metrics.

use vstd::prelude::*;
use crate::keys;
use crate::message::{Request, Response};
use crate::value::{signed, text, KeyValue, KeyValueView};

verus! {

/// The category that telemetry carries where none was bound.
pub open spec fn unset() -> Seq<char> {
    "UNSET"@
}

/// The category as telemetry carries it: the bound label, or `"UNSET"`.
pub open spec fn category_text(category: Option<&'static str>) -> Seq<char> {
    match category {
        Some(label) => label@,
        None => unset(),
    }
}

/// The category as telemetry carries it.
pub fn category_or_unset(category: Option<&'static str>) -> (label: &'static str)
    ensures
        label@ == category_text(category),
{
    match category {
        Some(label) => label,
        None => "UNSET",
    }
}

/// The attributes of a request: its method, the protocol name and the
/// category, in this order.
pub open spec fn request_labels(
    category: Option<&'static str>,
    method: Seq<char>,
) -> Seq<KeyValueView> {
    seq![
        text("http.request.method"@, method),
        text("network.protocol.name"@, "http"@),
        text("mas.category"@, category_text(category)),
    ]
}

/// The attributes of a response: its status code.
pub open spec fn response_labels(status: u16) -> Seq<KeyValueView> {
    seq![signed("http.response.status_code"@, status as i64)]
}

/// Whether a pair is the category attribute with the given label.
pub open spec fn is_category(pair: KeyValueView, label: Seq<char>) -> bool {
    pair == text("mas.category"@, label)
}

/// Labels a request for the metrics, with the category it was built with.
#[derive(Debug, Clone, Copy)]
pub struct OnRequestLabels {
    pub category: Option<&'static str>,
}

impl Default for OnRequestLabels {
    fn default() -> (labels: Self)
        ensures
            labels.category is None,
    {
        OnRequestLabels { category: None }
    }
}

impl OnRequestLabels {
    /// The attributes of `t`.
    pub fn attributes(&self, t: &Request) -> (attributes: Vec<KeyValue>)
        ensures
            attributes.deep_view() == request_labels(self.category, t@.method),
    {
        let mut attributes: Vec<KeyValue> = Vec::new();
        attributes.push(KeyValue::text(keys::http_request_method(), t.method.as_str()));
        attributes.push(KeyValue::text(keys::network_protocol_name(), "http"));
        attributes.push(KeyValue::text("mas.category", category_or_unset(self.category)));
        assert(attributes.deep_view() =~= request_labels(self.category, t@.method));
        attributes
    }
}

/// Labels a response for the metrics.
#[derive(Debug, Clone, Copy)]
pub struct OnResponseLabels;

impl Default for OnResponseLabels {
    fn default() -> Self {
        OnResponseLabels
    }
}

impl OnResponseLabels {
    /// The attributes of `t`.
    pub fn attributes(&self, t: &Response) -> (attributes: Vec<KeyValue>)
        ensures
            attributes.deep_view() == response_labels(t@.status),
    {
        let mut attributes: Vec<KeyValue> = Vec::new();
        let status: i64 = t.status as i64;
        attributes.push(KeyValue::signed(keys::http_response_status_code(), status));
        assert(attributes.deep_view() =~= response_labels(t@.status));
        attributes
    }
}

/// Every attribute set of a request carries the category it was built with,
/// and `"UNSET"` where none was bound.
pub proof fn law_request_labels_carry_category(category: Option<&'static str>, method: Seq<char>)
    ensures
        request_labels(category, method).len() == 3,
        is_category(request_labels(category, method)[2], category_text(category)),
        category is None ==> is_category(request_labels(category, method)[2], "UNSET"@),
{
}

} // verus!
