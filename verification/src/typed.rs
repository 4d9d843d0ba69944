//! Typed reading of the header fields that the pipeline looks at.
//!
//! Decoding is done by the `headers` crate. Each decoder is reached through a
//! trusted function that takes the raw values found under the header's name,
//! and each header's name is read from that crate as well.

use vstd::prelude::*;

verus! {

/// What `Content-Length` decodes to, given the values under that name.
pub uninterp spec fn content_length_of(values: Seq<Seq<u8>>) -> Option<u64>;

/// What `Host` decodes to, printed, given the values under that name.
pub uninterp spec fn host_of(values: Seq<Seq<u8>>) -> Option<Seq<char>>;

/// Whether a byte is a visible ASCII character, a space or a tab.
pub open spec fn visible_ascii(b: u8) -> bool {
    32 <= b < 127 || b == 9
}

/// What `User-Agent` decodes to: the text of the value, where there is exactly
/// one value and it is made of visible ASCII.
pub open spec fn user_agent_of(values: Seq<Seq<u8>>) -> Option<Seq<char>> {
    if values.len() == 1 && forall|i: int|
        0 <= i < values[0].len() ==> visible_ascii(#[trigger] values[0][i]) {
        Some(values[0].map_values(|b: u8| b as char))
    } else {
        None
    }
}

/// The text of an optional string.
pub open spec fn text_of(s: Option<String>) -> Option<Seq<char>> {
    match s {
        Some(s) => Some(s@),
        None => None,
    }
}

/// Trusted: `<headers::ContentLength as headers::Header>::decode` on the given
/// values, each made a `HeaderValue` by `HeaderValue::from_bytes`. The result
/// is a function of the values alone: the decoded length, or `None` where a
/// value is no legal header value or the decoder refuses them.
#[verifier::external_body]
pub(crate) fn decode_content_length(values: &Vec<Vec<u8>>) -> (length: Option<u64>)
    ensures
        length == content_length_of(values.deep_view()),
{
    let parsed: Result<Vec<::headers::HeaderValue>, _> =
        values.iter().map(|v| ::headers::HeaderValue::from_bytes(v)).collect();
    let parsed = parsed.ok()?;
    <::headers::ContentLength as ::headers::Header>::decode(&mut parsed.iter()).ok().map(|l| l.0)
}

/// Trusted: `<headers::Host as headers::Header>::decode` on the given values,
/// each made a `HeaderValue` by `HeaderValue::from_bytes`, and the decoded
/// host printed by its `Display`. The result is a function of the values
/// alone; it is `None` where a value is no legal header value or the decoder
/// refuses them.
#[verifier::external_body]
pub(crate) fn decode_host(values: &Vec<Vec<u8>>) -> (host: Option<String>)
    ensures
        text_of(host) == host_of(values.deep_view()),
{
    let parsed: Result<Vec<::headers::HeaderValue>, _> =
        values.iter().map(|v| ::headers::HeaderValue::from_bytes(v)).collect();
    let parsed = parsed.ok()?;
    <::headers::Host as ::headers::Header>::decode(&mut parsed.iter()).ok().map(|h| h.to_string())
}

/// Trusted: `<headers::UserAgent as headers::Header>::decode` on the given
/// values, each made a `HeaderValue` by `HeaderValue::from_bytes`, and the
/// decoded agent read by `UserAgent::as_str`. The decoder accepts exactly one
/// value, and only one that `HeaderValue::to_str` accepts: bytes 32 to 126 and
/// the tab. Bytes that `from_bytes` refuses are among those refused here.
#[verifier::external_body]
pub(crate) fn decode_user_agent(values: &Vec<Vec<u8>>) -> (agent: Option<String>)
    ensures
        text_of(agent) == user_agent_of(values.deep_view()),
{
    let parsed: Result<Vec<::headers::HeaderValue>, _> =
        values.iter().map(|v| ::headers::HeaderValue::from_bytes(v)).collect();
    let parsed = parsed.ok()?;
    <::headers::UserAgent as ::headers::Header>::decode(&mut parsed.iter()).ok().map(
        |a| a.as_str().to_owned(),
    )
}

/// Trusted: the name of the `Content-Length` header as `headers` has it,
/// `<headers::ContentLength as headers::Header>::name`, which is http's
/// constant `"content-length"`.
#[verifier::external_body]
pub(crate) fn content_length_name() -> (name: &'static str)
    ensures
        name@ == "content-length"@,
{
    <::headers::ContentLength as ::headers::Header>::name().as_str()
}

/// Trusted: the name of the `Host` header as `headers` has it,
/// `<headers::Host as headers::Header>::name`, which is http's constant
/// `"host"`.
#[verifier::external_body]
pub(crate) fn host_name() -> (name: &'static str)
    ensures
        name@ == "host"@,
{
    <::headers::Host as ::headers::Header>::name().as_str()
}

/// Trusted: the name of the `User-Agent` header as `headers` has it,
/// `<headers::UserAgent as headers::Header>::name`, which is http's constant
/// `"user-agent"`.
#[verifier::external_body]
pub(crate) fn user_agent_name() -> (name: &'static str)
    ensures
        name@ == "user-agent"@,
{
    <::headers::UserAgent as ::headers::Header>::name().as_str()
}

/// Trusted: the name of the `Location` header as `headers` has it,
/// `<headers::Location as headers::Header>::name`, which is http's constant
/// `"location"`.
#[verifier::external_body]
pub(crate) fn location_name() -> (name: &'static str)
    ensures
        name@ == "location"@,
{
    <::headers::Location as ::headers::Header>::name().as_str()
}

} // verus!
