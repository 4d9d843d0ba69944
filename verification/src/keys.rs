//! Names of the span fields and metric attributes that the pipeline emits.
//!
//! Most names come from the OpenTelemetry semantic conventions. Each of those
//! is read from the `opentelemetry_semantic_conventions` crate through a small
//! trusted function whose contract states the text of the constant.

use vstd::prelude::*;

verus! {

/// Trusted: `opentelemetry_semantic_conventions::trace::HTTP_REQUEST_METHOD`,
/// the constant `"http.request.method"`.
#[verifier::external_body]
pub(crate) fn http_request_method() -> (key: &'static str)
    ensures
        key@ == "http.request.method"@,
{
    opentelemetry_semantic_conventions::trace::HTTP_REQUEST_METHOD
}

/// Trusted: `opentelemetry_semantic_conventions::trace::URL_FULL`,
/// the constant `"url.full"`.
#[verifier::external_body]
pub(crate) fn url_full() -> (key: &'static str)
    ensures
        key@ == "url.full"@,
{
    opentelemetry_semantic_conventions::trace::URL_FULL
}

/// Trusted: `opentelemetry_semantic_conventions::trace::HTTP_RESPONSE_STATUS_CODE`,
/// the constant `"http.response.status_code"`.
#[verifier::external_body]
pub(crate) fn http_response_status_code() -> (key: &'static str)
    ensures
        key@ == "http.response.status_code"@,
{
    opentelemetry_semantic_conventions::trace::HTTP_RESPONSE_STATUS_CODE
}

/// Trusted: `opentelemetry_semantic_conventions::trace::SERVER_ADDRESS`,
/// the constant `"server.address"`.
#[verifier::external_body]
pub(crate) fn server_address() -> (key: &'static str)
    ensures
        key@ == "server.address"@,
{
    opentelemetry_semantic_conventions::trace::SERVER_ADDRESS
}

/// Trusted: `opentelemetry_semantic_conventions::trace::SERVER_PORT`,
/// the constant `"server.port"`.
#[verifier::external_body]
pub(crate) fn server_port() -> (key: &'static str)
    ensures
        key@ == "server.port"@,
{
    opentelemetry_semantic_conventions::trace::SERVER_PORT
}

/// Trusted: `opentelemetry_semantic_conventions::trace::CLIENT_ADDRESS`,
/// the constant `"client.address"`.
#[verifier::external_body]
pub(crate) fn client_address() -> (key: &'static str)
    ensures
        key@ == "client.address"@,
{
    opentelemetry_semantic_conventions::trace::CLIENT_ADDRESS
}

/// Trusted: `opentelemetry_semantic_conventions::trace::CLIENT_PORT`,
/// the constant `"client.port"`.
#[verifier::external_body]
pub(crate) fn client_port() -> (key: &'static str)
    ensures
        key@ == "client.port"@,
{
    opentelemetry_semantic_conventions::trace::CLIENT_PORT
}

/// Trusted: `opentelemetry_semantic_conventions::trace::NETWORK_TRANSPORT`,
/// the constant `"network.transport"`.
#[verifier::external_body]
pub(crate) fn network_transport() -> (key: &'static str)
    ensures
        key@ == "network.transport"@,
{
    opentelemetry_semantic_conventions::trace::NETWORK_TRANSPORT
}

/// Trusted: `opentelemetry_semantic_conventions::trace::NETWORK_TYPE`,
/// the constant `"network.type"`.
#[verifier::external_body]
pub(crate) fn network_type() -> (key: &'static str)
    ensures
        key@ == "network.type"@,
{
    opentelemetry_semantic_conventions::trace::NETWORK_TYPE
}

/// Trusted: `opentelemetry_semantic_conventions::trace::NETWORK_PROTOCOL_NAME`,
/// the constant `"network.protocol.name"`.
#[verifier::external_body]
pub(crate) fn network_protocol_name() -> (key: &'static str)
    ensures
        key@ == "network.protocol.name"@,
{
    opentelemetry_semantic_conventions::trace::NETWORK_PROTOCOL_NAME
}

/// Trusted: `opentelemetry_semantic_conventions::trace::USER_AGENT_ORIGINAL`,
/// the constant `"user_agent.original"`.
#[verifier::external_body]
pub(crate) fn user_agent_original() -> (key: &'static str)
    ensures
        key@ == "user_agent.original"@,
{
    opentelemetry_semantic_conventions::trace::USER_AGENT_ORIGINAL
}

/// Trusted: `opentelemetry_semantic_conventions::attribute::HTTP_REQUEST_BODY_SIZE`,
/// the constant `"http.request.body.size"`.
#[verifier::external_body]
pub(crate) fn http_request_body_size() -> (key: &'static str)
    ensures
        key@ == "http.request.body.size"@,
{
    opentelemetry_semantic_conventions::attribute::HTTP_REQUEST_BODY_SIZE
}

/// Trusted: `opentelemetry_semantic_conventions::attribute::HTTP_RESPONSE_BODY_SIZE`,
/// the constant `"http.response.body.size"`.
#[verifier::external_body]
pub(crate) fn http_response_body_size() -> (key: &'static str)
    ensures
        key@ == "http.response.body.size"@,
{
    opentelemetry_semantic_conventions::attribute::HTTP_RESPONSE_BODY_SIZE
}

} // verus!
