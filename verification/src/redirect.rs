//! Following redirections.
//!
//! A response with a redirection status and a usable `Location` leads to one
//! more physical exchange, up to a bound on the number of redirections
//! followed for one logical call. The policy, point by point:
//!
//! - A response that is no redirection, or that names no `Location` at all,
//!   is the logical response.
//! - A `Location` that cannot be read or resolved against the request's
//!   target fails the call, and so does a redirection past the bound. Of
//!   several `Location` fields the first counts.
//! - `301` and `302` turn `POST` into a body-less `GET`, `303` turns
//!   everything but `HEAD` into `GET` and drops the body, `307` and `308`
//!   repeat the request as it was.
//! - Payload headers (`Content-Type`, `Content-Length`, `Content-Encoding`,
//!   `Transfer-Encoding`) leave with the body.
//! - Credentials (`Authorization`, `Cookie`, `Proxy-Authorization`) are not
//!   carried to another origin. Two targets have the same origin where the
//!   `url` crate gives them equal origins. Each exchange is made from the
//!   request of the one before it, so what was left behind on one hop stays
//!   behind on the hops after it.

use vstd::prelude::*;
use vstd::string::StringSliceAdditionalSpecFns;
use crate::header::{values_of, without, HeaderView};
use crate::message::{Request, RequestView, Response, ResponseView};
use crate::typed;
use crate::typed::text_of;

verus! {

/// The redirections followed for one logical call where no other bound is set.
pub const DEFAULT_MAX_REDIRECTS: usize = 20;

/// What a reference resolves to against a base URL, if it does.
pub uninterp spec fn resolved(base: Seq<char>, reference: Seq<u8>) -> Option<Seq<char>>;

/// Whether two URLs have the same origin.
pub uninterp spec fn origins_match(a: Seq<char>, b: Seq<char>) -> bool;

/// Trusted: `url::Url::join` on the base parsed by `url::Url::parse`, with the
/// reference read as UTF-8, and the joined URL turned into a `String`. The
/// result is a function of the two arguments alone; it is `None` where the
/// reference is no UTF-8, the base does not parse or the join fails.
#[verifier::external_body]
pub(crate) fn resolve(base: &str, reference: &[u8]) -> (target: Option<String>)
    ensures
        text_of(target) == resolved(base@, reference@),
{
    let reference = std::str::from_utf8(reference).ok()?;
    let base = url::Url::parse(base).ok()?;
    base.join(reference).ok().map(String::from)
}

/// Trusted: equality of what `url::Url::origin` gives for the two URLs, each
/// parsed by `url::Url::parse`. The result is a function of the two arguments
/// alone; it is `false` where one of them does not parse.
#[verifier::external_body]
pub(crate) fn same_origin(a: &str, b: &str) -> (same: bool)
    ensures
        same == origins_match(a@, b@),
{
    match (url::Url::parse(a), url::Url::parse(b)) {
        (Ok(a), Ok(b)) => a.origin() == b.origin(),
        _ => false,
    }
}

/// Whether two texts are equal.
pub fn same_text(a: &str, b: &str) -> (same: bool)
    ensures
        same == (a@ == b@),
{
    a.to_owned() == b.to_owned()
}

/// What follows a response.
#[derive(Debug)]
pub enum Redirect {
    /// One more exchange, with this method and target.
    Follow { method: String, uri: String, keep_body: bool, same_origin: bool },
    /// The response is the logical response.
    Final,
    /// The response redirects, and the bound on redirections is reached.
    TooMany,
    /// The response redirects, to no usable target.
    InvalidTarget,
}

/// The mathematical content of a [`Redirect`].
pub enum RedirectView {
    Follow { method: Seq<char>, uri: Seq<char>, keep_body: bool, same_origin: bool },
    Final,
    TooMany,
    InvalidTarget,
}

impl DeepView for Redirect {
    type V = RedirectView;

    open spec fn deep_view(&self) -> RedirectView {
        match *self {
            Redirect::Follow { method, uri, keep_body, same_origin } => RedirectView::Follow {
                method: method@,
                uri: uri@,
                keep_body,
                same_origin,
            },
            Redirect::Final => RedirectView::Final,
            Redirect::TooMany => RedirectView::TooMany,
            Redirect::InvalidTarget => RedirectView::InvalidTarget,
        }
    }
}

impl View for Redirect {
    type V = RedirectView;

    open spec fn view(&self) -> RedirectView {
        self.deep_view()
    }
}

/// Whether a status asks for a redirection.
pub open spec fn is_redirection(status: u16) -> bool {
    status == 301 || status == 302 || status == 303 || status == 307 || status == 308
}

/// Whether a redirection with this status turns the request into a body-less one.
pub open spec fn drops_body(status: u16, method: Seq<char>) -> bool {
    ((status == 301 || status == 302) && method == "POST"@) || status == 303
}

/// The method of the exchange that follows a redirection.
pub open spec fn next_method(status: u16, method: Seq<char>) -> Seq<char> {
    if (status == 301 || status == 302) && method == "POST"@ {
        "GET"@
    } else if status == 303 && method != "HEAD"@ {
        "GET"@
    } else {
        method
    }
}

/// What follows a response with `status` to a request with `method`, after
/// `followed` redirections, where the response names a `Location` and
/// `target` is what that resolves to, if it resolves to anything.
pub open spec fn decision(
    max: usize,
    followed: usize,
    status: u16,
    method: Seq<char>,
    target: Option<Seq<char>>,
    same_origin: bool,
) -> RedirectView {
    if !is_redirection(status) {
        RedirectView::Final
    } else {
        match target {
            None => RedirectView::InvalidTarget,
            Some(uri) => if followed >= max {
                RedirectView::TooMany
            } else {
                RedirectView::Follow {
                    method: next_method(status, method),
                    uri,
                    keep_body: !drops_body(status, method),
                    same_origin,
                }
            },
        }
    }
}

/// The first of a list of values, if there is one.
pub open spec fn first_of(values: Seq<Seq<u8>>) -> Option<Seq<u8>> {
    if values.len() > 0 {
        Some(values[0])
    } else {
        None
    }
}

/// What follows a response to a request, after `followed` redirections: the
/// response itself where it names no `Location`, else what is decided for
/// the target that its first `Location` resolves to.
pub open spec fn redirect_of(
    max: usize,
    followed: usize,
    request: RequestView,
    response: ResponseView,
) -> RedirectView {
    match first_of(values_of(response.headers, "location".spec_bytes())) {
        None => RedirectView::Final,
        Some(reference) => {
            let target = resolved(request.uri, reference);
            decision(
                max,
                followed,
                response.status,
                request.method,
                target,
                stays_in_origin(request.uri, target),
            )
        },
    }
}

/// Whether a redirection stays within the origin; `false` without a target.
pub open spec fn stays_in_origin(uri: Seq<char>, target: Option<Seq<char>>) -> bool {
    match target {
        Some(target) => origins_match(uri, target),
        None => false,
    }
}

/// The header fields of the exchange that follows a redirection.
pub open spec fn next_headers(
    headers: Seq<HeaderView>,
    keep_body: bool,
    same_origin: bool,
) -> Seq<HeaderView> {
    let kept = if keep_body {
        headers
    } else {
        without(
            without(
                without(
                    without(headers, "content-type".spec_bytes()),
                    "content-length".spec_bytes(),
                ),
                "content-encoding".spec_bytes(),
            ),
            "transfer-encoding".spec_bytes(),
        )
    };
    if same_origin {
        kept
    } else {
        without(
            without(without(kept, "authorization".spec_bytes()), "cookie".spec_bytes()),
            "proxy-authorization".spec_bytes(),
        )
    }
}

/// The request of the exchange that follows a redirection.
pub open spec fn next_request(
    request: RequestView,
    method: Seq<char>,
    uri: Seq<char>,
    keep_body: bool,
    same_origin: bool,
) -> RequestView {
    RequestView { method, uri, headers: next_headers(request.headers, keep_body, same_origin) }
}

/// Follows redirections, up to a bound.
#[derive(Debug, Clone, Copy)]
pub struct FollowRedirectLayer {
    pub max_redirects: usize,
}

impl FollowRedirectLayer {
    /// The follower with the default bound.
    pub fn new() -> (layer: Self)
        ensures
            layer.max_redirects == DEFAULT_MAX_REDIRECTS,
    {
        FollowRedirectLayer { max_redirects: DEFAULT_MAX_REDIRECTS }
    }

    /// What follows a response that names a `Location`, where `target` is
    /// what that resolves to, if it resolves to anything.
    pub fn decide(
        &self,
        followed: usize,
        status: u16,
        method: &str,
        target: Option<String>,
        same_origin: bool,
    ) -> (next: Redirect)
        ensures
            next@ == decision(
                self.max_redirects,
                followed,
                status,
                method@,
                text_of(target),
                same_origin,
            ),
    {
        if !(status == 301 || status == 302 || status == 303 || status == 307 || status == 308) {
            return Redirect::Final;
        }
        match target {
            None => Redirect::InvalidTarget,
            Some(uri) => {
                if followed >= self.max_redirects {
                    Redirect::TooMany
                } else if (status == 301 || status == 302) && same_text(method, "POST") {
                    Redirect::Follow {
                        method: "GET".to_owned(),
                        uri,
                        keep_body: false,
                        same_origin,
                    }
                } else if status == 303 {
                    let next = if same_text(method, "HEAD") {
                        "HEAD"
                    } else {
                        "GET"
                    };
                    Redirect::Follow {
                        method: next.to_owned(),
                        uri,
                        keep_body: false,
                        same_origin,
                    }
                } else {
                    Redirect::Follow {
                        method: method.to_owned(),
                        uri,
                        keep_body: true,
                        same_origin,
                    }
                }
            },
        }
    }

    /// What follows `response`, which answered `request` after `followed`
    /// redirections.
    pub fn next(&self, followed: usize, request: &Request, response: &Response) -> (next: Redirect)
        ensures
            next@ == redirect_of(self.max_redirects, followed, request@, response@),
    {
        let locations = response.headers.get_all(typed::location_name());
        if locations.len() == 0 {
            return Redirect::Final;
        }
        assert(locations.deep_view()[0] =~= locations@[0]@);
        let target = resolve(request.uri.as_str(), locations[0].as_slice());
        let same = match &target {
            Some(target) => same_origin(request.uri.as_str(), target.as_str()),
            None => false,
        };
        self.decide(followed, response.status, request.method.as_str(), target, same)
    }

    /// The request of the exchange that follows a redirection of `request`.
    pub fn redirected(
        request: &Request,
        method: String,
        uri: String,
        keep_body: bool,
        same_origin: bool,
    ) -> (next: Request)
        ensures
            next@ == next_request(request@, method@, uri@, keep_body, same_origin),
    {
        let mut headers = request.headers.clone();
        if !keep_body {
            headers.remove("content-type");
            headers.remove("content-length");
            headers.remove("content-encoding");
            headers.remove("transfer-encoding");
        }
        if !same_origin {
            headers.remove("authorization");
            headers.remove("cookie");
            headers.remove("proxy-authorization");
        }
        Request { method, uri, headers }
    }
}

} // verus!
