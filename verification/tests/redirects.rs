use client_pipeline::message::{Request, Response};
use client_pipeline::redirect::{same_text, FollowRedirectLayer, Redirect, DEFAULT_MAX_REDIRECTS};

fn redirect(status: u16, location: &[u8]) -> Response {
    let mut response = Response::new(status);
    response.headers.append("Location", location);
    response
}

fn follow(next: Redirect) -> (String, String, bool, bool) {
    match next {
        Redirect::Follow { method, uri, keep_body, same_origin } => {
            (method, uri, keep_body, same_origin)
        }
        other => panic!("not followed: {:?}", other),
    }
}

#[test]
fn default_bound_is_twenty() {
    assert_eq!(DEFAULT_MAX_REDIRECTS, 20);
    assert_eq!(FollowRedirectLayer::new().max_redirects, 20);
}

#[test]
fn texts_compare_by_content() {
    assert!(same_text("POST", "POST"));
    assert!(!same_text("POST", "post"));
    assert!(!same_text("", "x"));
}

#[test]
fn plain_response_is_final() {
    let layer = FollowRedirectLayer::new();
    let request = Request::new("GET", "http://example.com/a");
    for status in [200u16, 204, 300, 304, 305, 306, 400, 404, 500] {
        let next = layer.next(0, &request, &redirect(status, b"/b"));
        assert!(matches!(next, Redirect::Final), "status {}", status);
    }
}

#[test]
fn relative_location_resolves_against_the_request() {
    let layer = FollowRedirectLayer::new();
    let request = Request::new("GET", "http://example.com/a/b.html");
    let (method, uri, keep_body, same_origin) =
        follow(layer.next(0, &request, &redirect(302, b"c.png")));
    assert_eq!(method, "GET");
    assert_eq!(uri, "http://example.com/a/c.png");
    assert!(keep_body);
    assert!(same_origin);
    let (_, uri, _, _) = follow(layer.next(0, &request, &redirect(302, b"/v1/meta")));
    assert_eq!(uri, "http://example.com/v1/meta");
}

#[test]
fn absolute_location_to_another_origin() {
    let layer = FollowRedirectLayer::new();
    let request = Request::new("GET", "https://alice.com/a");
    let (_, uri, _, same_origin) =
        follow(layer.next(0, &request, &redirect(307, b"http://eve.com/b")));
    assert_eq!(uri, "http://eve.com/b");
    assert!(!same_origin);
    let (_, uri, _, same_origin) =
        follow(layer.next(0, &request, &redirect(307, b"https://alice.com:443/c")));
    assert_eq!(uri, "https://alice.com/c");
    assert!(same_origin);
}

#[test]
fn post_becomes_get_on_301_and_302() {
    let layer = FollowRedirectLayer::new();
    let request = Request::new("POST", "http://example.com/a");
    for status in [301u16, 302] {
        let (method, _, keep_body, _) =
            follow(layer.next(0, &request, &redirect(status, b"/b")));
        assert_eq!(method, "GET");
        assert!(!keep_body);
    }
    let put = Request::new("PUT", "http://example.com/a");
    let (method, _, keep_body, _) = follow(layer.next(0, &put, &redirect(301, b"/b")));
    assert_eq!(method, "PUT");
    assert!(keep_body);
}

#[test]
fn see_other_becomes_get_but_for_head() {
    let layer = FollowRedirectLayer::new();
    let put = Request::new("PUT", "http://example.com/a");
    let (method, _, keep_body, _) = follow(layer.next(0, &put, &redirect(303, b"/b")));
    assert_eq!(method, "GET");
    assert!(!keep_body);
    let head = Request::new("HEAD", "http://example.com/a");
    let (method, _, keep_body, _) = follow(layer.next(0, &head, &redirect(303, b"/b")));
    assert_eq!(method, "HEAD");
    assert!(!keep_body);
}

#[test]
fn temporary_and_permanent_redirects_repeat_the_request() {
    let layer = FollowRedirectLayer::new();
    let request = Request::new("POST", "http://example.com/a");
    for status in [307u16, 308] {
        let (method, _, keep_body, _) =
            follow(layer.next(0, &request, &redirect(status, b"/b")));
        assert_eq!(method, "POST");
        assert!(keep_body);
    }
}

#[test]
fn redirect_without_location_is_the_response() {
    let layer = FollowRedirectLayer::new();
    let request = Request::new("POST", "http://example.com/a");
    for status in [301u16, 302, 303, 307, 308] {
        assert!(matches!(layer.next(0, &request, &Response::new(status)), Redirect::Final));
        // also past the bound
        assert!(matches!(layer.next(20, &request, &Response::new(status)), Redirect::Final));
    }
}

#[test]
fn redirect_without_usable_target_is_invalid() {
    let layer = FollowRedirectLayer::new();
    let request = Request::new("GET", "http://example.com/a");
    assert!(matches!(
        layer.next(0, &request, &redirect(302, b"\xff\xfe")),
        Redirect::InvalidTarget
    ));
    assert!(matches!(
        layer.next(0, &request, &redirect(302, b"http://[bad")),
        Redirect::InvalidTarget
    ));
    let relative = Request::new("GET", "/no/base");
    assert!(matches!(
        layer.next(0, &relative, &redirect(302, b"/b")),
        Redirect::InvalidTarget
    ));
    // an invalid target comes before the bound
    assert!(matches!(
        layer.next(20, &request, &redirect(302, b"\xff\xfe")),
        Redirect::InvalidTarget
    ));
}

#[test]
fn bound_on_redirections() {
    let layer = FollowRedirectLayer { max_redirects: 2 };
    let request = Request::new("GET", "http://example.com/a");
    assert!(matches!(layer.next(1, &request, &redirect(302, b"/b")), Redirect::Follow { .. }));
    assert!(matches!(layer.next(2, &request, &redirect(302, b"/b")), Redirect::TooMany));
    assert!(matches!(layer.next(3, &request, &redirect(302, b"/b")), Redirect::TooMany));
    assert!(matches!(layer.next(3, &request, &redirect(200, b"/b")), Redirect::Final));
    let none = FollowRedirectLayer { max_redirects: 0 };
    assert!(matches!(none.next(0, &request, &redirect(308, b"/b")), Redirect::TooMany));
}

#[test]
fn first_location_counts() {
    let layer = FollowRedirectLayer::new();
    let request = Request::new("GET", "http://example.com/a");
    let mut response = redirect(302, b"/first");
    response.headers.append("location", b"/second");
    let (_, uri, _, _) = follow(layer.next(0, &request, &response));
    assert_eq!(uri, "http://example.com/first");
}

#[test]
fn decide_follows_the_given_target() {
    let layer = FollowRedirectLayer { max_redirects: 1 };
    let next = layer.decide(0, 301, "POST", Some("http://t/".to_owned()), false);
    let (method, uri, keep_body, same_origin) = follow(next);
    assert_eq!((method.as_str(), uri.as_str(), keep_body, same_origin), ("GET", "http://t/", false, false));
    assert!(matches!(layer.decide(0, 301, "POST", None, true), Redirect::InvalidTarget));
    assert!(matches!(layer.decide(1, 301, "POST", Some("x".to_owned()), true), Redirect::TooMany));
    assert!(matches!(layer.decide(0, 299, "POST", None, true), Redirect::Final));
}

#[test]
fn redirected_request_drops_payload_headers_with_the_body() {
    let mut request = Request::new("POST", "http://example.com/a");
    request.headers.append("Content-Type", b"application/json");
    request.headers.append("Content-Length", b"2");
    request.headers.append("Content-Encoding", b"gzip");
    request.headers.append("Transfer-Encoding", b"chunked");
    request.headers.append("Authorization", b"Bearer t");
    request.headers.append("Accept", b"*/*");
    let next = FollowRedirectLayer::redirected(
        &request,
        "GET".to_owned(),
        "http://example.com/b".to_owned(),
        false,
        true,
    );
    assert_eq!(next.method, "GET");
    assert_eq!(next.uri, "http://example.com/b");
    assert_eq!(next.headers.len(), 2);
    assert_eq!(next.headers.get_all("authorization"), vec![b"Bearer t".to_vec()]);
    assert_eq!(next.headers.get_all("accept"), vec![b"*/*".to_vec()]);
    // the request that was redirected is as it was
    assert_eq!(request.headers.len(), 6);
}

#[test]
fn redirected_request_leaves_credentials_behind_across_origins() {
    let mut request = Request::new("POST", "http://example.com/a");
    request.headers.append("Content-Type", b"application/json");
    request.headers.append("Authorization", b"Bearer t");
    request.headers.append("Cookie", b"a=b");
    request.headers.append("Proxy-Authorization", b"Basic x");
    request.headers.append("Accept", b"*/*");
    let next = FollowRedirectLayer::redirected(
        &request,
        "POST".to_owned(),
        "http://other.example/b".to_owned(),
        true,
        false,
    );
    assert_eq!(next.headers.len(), 2);
    assert_eq!(next.headers.get_all("content-type"), vec![b"application/json".to_vec()]);
    assert_eq!(next.headers.get_all("accept"), vec![b"*/*".to_vec()]);
}
