//! Trace spans: one record per physical exchange.
//!
//! A span is opened when an exchange starts, with the fields known from the
//! request. It takes further fields while it is open, and is closed once the
//! outcome of the exchange is known. Nothing is recorded on a closed span.

use vstd::prelude::*;
use vstd::string::StringSliceAdditionalSpecFns;
use crate::keys;
use crate::labels::{category_or_unset, category_text};
use crate::header::values_of;
use crate::message::{ConnectionInfoView, Request, Response};
use crate::typed;
use crate::typed::{content_length_of, host_of, text_of, user_agent_of};
use crate::value::{text, unsigned, KeyValue, KeyValueView, extend_pairs, clone_pairs};

verus! {

/// The record of one physical exchange.
#[derive(Debug)]
pub struct Span {
    name: String,
    fields: Vec<KeyValue>,
    closed: bool,
}

/// The mathematical content of a [`Span`].
pub struct SpanView {
    pub name: Seq<char>,
    pub fields: Seq<KeyValueView>,
    pub closed: bool,
}

impl View for Span {
    type V = SpanView;

    closed spec fn view(&self) -> SpanView {
        SpanView { name: self.name@, fields: self.fields.deep_view(), closed: self.closed }
    }
}

impl DeepView for Span {
    type V = SpanView;

    open spec fn deep_view(&self) -> SpanView {
        self@
    }
}

/// The span after `more` was recorded on it: appended while the span is open,
/// dropped once it is closed.
pub open spec fn recorded(span: SpanView, more: Seq<KeyValueView>) -> SpanView {
    if span.closed {
        span
    } else {
        SpanView { fields: span.fields + more, ..span }
    }
}

/// The span after it was closed.
pub open spec fn closed(span: SpanView) -> SpanView {
    SpanView { closed: true, ..span }
}

/// The field `key = value`, where there is a value.
pub open spec fn optional_text(key: Seq<char>, value: Option<Seq<char>>) -> Seq<KeyValueView> {
    match value {
        Some(value) => seq![text(key, value)],
        None => Seq::empty(),
    }
}

/// The field `key = value`, where there is a value.
pub open spec fn optional_unsigned(key: Seq<char>, value: Option<u64>) -> Seq<KeyValueView> {
    match value {
        Some(value) => seq![unsigned(key, value)],
        None => Seq::empty(),
    }
}

/// The fields that a span has from its request.
pub open spec fn request_fields(
    category: Option<&'static str>,
    method: Seq<char>,
    uri: Seq<char>,
    host: Option<Seq<char>>,
    content_length: Option<u64>,
    user_agent: Option<Seq<char>>,
) -> Seq<KeyValueView> {
    seq![
        text("otel.kind"@, "client"@),
        text("http.request.method"@, method),
        text("url.full"@, uri),
    ] + optional_text("server.address"@, host) + optional_unsigned(
        "http.request.body.size"@,
        content_length,
    ) + seq![text("network.transport"@, "tcp"@)] + optional_text(
        "user_agent.original"@,
        user_agent,
    ) + seq![text("mas.category"@, category_text(category))]
}

/// The span of a request, as it is opened.
pub open spec fn opened(
    category: Option<&'static str>,
    method: Seq<char>,
    uri: Seq<char>,
    host: Option<Seq<char>>,
    content_length: Option<u64>,
    user_agent: Option<Seq<char>>,
) -> SpanView {
    SpanView {
        name: "http.client.request"@,
        fields: request_fields(category, method, uri, host, content_length, user_agent),
        closed: false,
    }
}

/// The fields that tell the two ends of a connection.
pub open spec fn connection_fields(connection: Option<ConnectionInfoView>) -> Seq<KeyValueView> {
    match connection {
        Some(info) => seq![
            text(
                "network.type"@,
                if info.local.ipv4 {
                    "ipv4"@
                } else {
                    "ipv6"@
                },
            ),
            text("client.address"@, info.remote.ip),
            unsigned("client.port"@, info.remote.port as u64),
            text("server.address"@, info.local.ip),
            unsigned("server.port"@, info.local.port as u64),
        ],
        None => Seq::empty(),
    }
}

/// The fields that a span takes from a response.
pub open spec fn response_fields(
    status: u16,
    content_length: Option<u64>,
    connection: Option<ConnectionInfoView>,
) -> Seq<KeyValueView> {
    seq![text("otel.status_code"@, "OK"@), unsigned("http.response.status_code"@, status as u64)]
        + optional_unsigned("http.response.body.size"@, content_length) + connection_fields(
        connection,
    )
}

/// The fields that a span takes from a failure.
pub open spec fn error_fields(description: Seq<char>) -> Seq<KeyValueView> {
    seq![text("otel.status_code"@, "ERROR"@), text("rust.error"@, description)]
}

/// Every span is opened with the category it was built for as its last field,
/// and with `"UNSET"` where none was bound.
pub proof fn law_opened_span_carries_category(
    category: Option<&'static str>,
    method: Seq<char>,
    uri: Seq<char>,
    host: Option<Seq<char>>,
    content_length: Option<u64>,
    user_agent: Option<Seq<char>>,
)
    ensures
        opened(category, method, uri, host, content_length, user_agent).fields.last() == text(
            "mas.category"@,
            category_text(category),
        ),
        category is None ==> opened(
            category,
            method,
            uri,
            host,
            content_length,
            user_agent,
        ).fields.last() == text("mas.category"@, "UNSET"@),
{
}

impl Span {
    /// A new open span with the given fields.
    pub fn open(name: &str, fields: Vec<KeyValue>) -> (span: Span)
        ensures
            span@ == (SpanView { name: name@, fields: fields.deep_view(), closed: false }),
    {
        Span { name: name.to_owned(), fields, closed: false }
    }

    /// The span's name.
    pub fn name(&self) -> (name: &str)
        ensures
            name@ == self@.name,
    {
        self.name.as_str()
    }

    /// The fields recorded so far, in the order of recording.
    pub fn fields(&self) -> (fields: &Vec<KeyValue>)
        ensures
            fields.deep_view() == self@.fields,
    {
        &self.fields
    }

    /// Whether the span is closed.
    pub fn is_closed(&self) -> (closed: bool)
        ensures
            closed == self@.closed,
    {
        self.closed
    }

    /// Records fields on the span, unless it is closed.
    pub fn record(&mut self, more: &Vec<KeyValue>)
        ensures
            final(self)@ == recorded(old(self)@, more.deep_view()),
    {
        if !self.closed {
            extend_pairs(&mut self.fields, more);
        }
    }

    /// Closes the span. Its fields stay as they are.
    pub fn close(&mut self)
        ensures
            final(self)@ == closed(old(self)@),
    {
        self.closed = true;
    }
}

impl Clone for Span {
    fn clone(&self) -> (copy: Self)
        ensures
            copy@ == self@,
    {
        Span { name: self.name.clone(), fields: clone_pairs(&self.fields), closed: self.closed }
    }
}

/// The open span of a request whose typed headers have been decoded.
pub fn open_span(
    category: Option<&'static str>,
    method: &str,
    uri: &str,
    host: Option<String>,
    content_length: Option<u64>,
    user_agent: Option<String>,
) -> (span: Span)
    ensures
        span@ == opened(
            category,
            method@,
            uri@,
            text_of(host),
            content_length,
            text_of(user_agent),
        ),
{
    let mut fields: Vec<KeyValue> = Vec::new();
    fields.push(KeyValue::text("otel.kind", "client"));
    fields.push(KeyValue::text(keys::http_request_method(), method));
    fields.push(KeyValue::text(keys::url_full(), uri));
    if let Some(host) = &host {
        fields.push(KeyValue::text(keys::server_address(), host.as_str()));
    }
    if let Some(length) = content_length {
        fields.push(KeyValue::unsigned(keys::http_request_body_size(), length));
    }
    fields.push(KeyValue::text(keys::network_transport(), "tcp"));
    if let Some(agent) = &user_agent {
        fields.push(KeyValue::text(keys::user_agent_original(), agent.as_str()));
    }
    fields.push(KeyValue::text("mas.category", category_or_unset(category)));
    assert(fields.deep_view() =~= request_fields(
        category,
        method@,
        uri@,
        text_of(host),
        content_length,
        text_of(user_agent),
    ));
    Span::open("http.client.request", fields)
}

/// Opens the span of a physical exchange, with the category it was built with.
#[derive(Debug, Clone, Copy)]
pub struct MakeSpanForRequest {
    pub category: Option<&'static str>,
}

impl Default for MakeSpanForRequest {
    fn default() -> (maker: Self)
        ensures
            maker.category is None,
    {
        MakeSpanForRequest { category: None }
    }
}

/// The span that [`MakeSpanForRequest::make_span`] opens for a request.
pub open spec fn span_of_request(
    category: Option<&'static str>,
    request: crate::message::RequestView,
) -> SpanView {
    opened(
        category,
        request.method,
        request.uri,
        host_of(values_of(request.headers, "host".spec_bytes())),
        content_length_of(values_of(request.headers, "content-length".spec_bytes())),
        user_agent_of(values_of(request.headers, "user-agent".spec_bytes())),
    )
}

impl MakeSpanForRequest {
    /// The open span of `request`: its method and target, the host, declared
    /// body size and user agent where the headers give them, and the category.
    pub fn make_span(&self, request: &Request) -> (span: Span)
        ensures
            span@ == span_of_request(self.category, request@),
    {
        let host = typed::decode_host(&request.headers.get_all(typed::host_name()));
        let user_agent = typed::decode_user_agent(
            &request.headers.get_all(typed::user_agent_name()),
        );
        let content_length = typed::decode_content_length(
            &request.headers.get_all(typed::content_length_name()),
        );
        open_span(
            self.category,
            request.method.as_str(),
            request.uri.as_str(),
            host,
            content_length,
            user_agent,
        )
    }
}

/// The fields of a response whose declared body size has been decoded.
pub fn response_span_fields(
    status: u16,
    content_length: Option<u64>,
    connection: &Option<crate::message::ConnectionInfo>,
) -> (fields: Vec<KeyValue>)
    ensures
        fields.deep_view() == response_fields(status, content_length, connection.deep_view()),
{
    let mut fields: Vec<KeyValue> = Vec::new();
    fields.push(KeyValue::text("otel.status_code", "OK"));
    fields.push(KeyValue::unsigned(keys::http_response_status_code(), status as u64));
    if let Some(length) = content_length {
        fields.push(KeyValue::unsigned(keys::http_response_body_size(), length));
    }
    if let Some(info) = connection {
        let family = if info.local.ipv4 {
            "ipv4"
        } else {
            "ipv6"
        };
        fields.push(KeyValue::text(keys::network_type(), family));
        fields.push(KeyValue::text(keys::client_address(), info.remote.ip.as_str()));
        fields.push(KeyValue::unsigned(keys::client_port(), info.remote.port as u64));
        fields.push(KeyValue::text(keys::server_address(), info.local.ip.as_str()));
        fields.push(KeyValue::unsigned(keys::server_port(), info.local.port as u64));
    }
    assert(fields.deep_view() =~= response_fields(status, content_length, connection.deep_view()));
    fields
}

/// Records the outcome of an exchange that gave a response.
#[derive(Debug, Clone, Copy)]
pub struct EnrichSpanOnResponse;

/// The fields that [`EnrichSpanOnResponse::enrich_span`] records for a response.
pub open spec fn fields_of_response(response: crate::message::ResponseView) -> Seq<KeyValueView> {
    response_fields(
        response.status,
        content_length_of(values_of(response.headers, "content-length".spec_bytes())),
        response.connection,
    )
}

impl EnrichSpanOnResponse {
    /// Records on `span` that the exchange succeeded, the status code, the
    /// declared body size if there is one, and the connection's two ends if
    /// the transport reported them. Returns whether it did report them: where
    /// it did not, the caller has a diagnostic to emit.
    pub fn enrich_span(&self, span: &mut Span, response: &Response) -> (connection_known: bool)
        ensures
            final(span)@ == recorded(old(span)@, fields_of_response(response@)),
            connection_known == response@.connection is Some,
    {
        let content_length = typed::decode_content_length(
            &response.headers.get_all(typed::content_length_name()),
        );
        let fields = response_span_fields(response.status, content_length, &response.connection);
        span.record(&fields);
        response.connection.is_some()
    }
}

/// Records the outcome of an exchange that failed.
#[derive(Debug, Clone, Copy)]
pub struct EnrichSpanOnError;

impl EnrichSpanOnError {
    /// Records on `span` that the exchange failed, with the error's
    /// description.
    pub fn enrich_span(&self, span: &mut Span, error: &str)
        ensures
            final(span)@ == recorded(old(span)@, error_fields(error@)),
    {
        let mut fields: Vec<KeyValue> = Vec::new();
        fields.push(KeyValue::text("otel.status_code", "ERROR"));
        fields.push(KeyValue::text("rust.error", error));
        assert(fields.deep_view() =~= error_fields(error@));
        span.record(&fields);
    }
}

} // verus!
