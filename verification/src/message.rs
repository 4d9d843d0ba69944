//! Requests and responses as the pipeline sees them.
//!
//! Bodies do not pass through the pipeline's decisions and are not part of
//! these types: whoever performs the exchange keeps them.

use vstd::prelude::*;
use crate::header::{HeaderMap, HeaderView};

verus! {

/// An outgoing request: method, target and header fields.
#[derive(Debug)]
pub struct Request {
    pub method: String,
    pub uri: String,
    pub headers: HeaderMap,
}

/// The mathematical content of a [`Request`].
pub struct RequestView {
    pub method: Seq<char>,
    pub uri: Seq<char>,
    pub headers: Seq<HeaderView>,
}

impl DeepView for Request {
    type V = RequestView;

    open spec fn deep_view(&self) -> RequestView {
        RequestView { method: self.method@, uri: self.uri@, headers: self.headers@ }
    }
}

impl View for Request {
    type V = RequestView;

    open spec fn view(&self) -> RequestView {
        self.deep_view()
    }
}

impl Clone for Request {
    fn clone(&self) -> (copy: Self)
        ensures
            copy@ == self@,
    {
        Request {
            method: self.method.clone(),
            uri: self.uri.clone(),
            headers: self.headers.clone(),
        }
    }
}

impl Request {
    /// A request without header fields.
    pub fn new(method: &str, uri: &str) -> (request: Request)
        ensures
            request@ == (RequestView {
                method: method@,
                uri: uri@,
                headers: Seq::<HeaderView>::empty(),
            }),
    {
        Request { method: method.to_owned(), uri: uri.to_owned(), headers: HeaderMap::new() }
    }
}

/// One end of a connection.
#[derive(Debug)]
pub struct SocketAddress {
    /// The IP address, printed.
    pub ip: String,
    pub port: u16,
    /// Whether the address is an IPv4 address; otherwise it is IPv6.
    pub ipv4: bool,
}

/// The mathematical content of a [`SocketAddress`].
pub struct SocketAddressView {
    pub ip: Seq<char>,
    pub port: u16,
    pub ipv4: bool,
}

impl DeepView for SocketAddress {
    type V = SocketAddressView;

    open spec fn deep_view(&self) -> SocketAddressView {
        SocketAddressView { ip: self.ip@, port: self.port, ipv4: self.ipv4 }
    }
}

impl View for SocketAddress {
    type V = SocketAddressView;

    open spec fn view(&self) -> SocketAddressView {
        self.deep_view()
    }
}

/// The two ends of the connection that carried a response.
#[derive(Debug)]
pub struct ConnectionInfo {
    pub local: SocketAddress,
    pub remote: SocketAddress,
}

/// The mathematical content of a [`ConnectionInfo`].
pub struct ConnectionInfoView {
    pub local: SocketAddressView,
    pub remote: SocketAddressView,
}

impl DeepView for ConnectionInfo {
    type V = ConnectionInfoView;

    open spec fn deep_view(&self) -> ConnectionInfoView {
        ConnectionInfoView { local: self.local@, remote: self.remote@ }
    }
}

impl View for ConnectionInfo {
    type V = ConnectionInfoView;

    open spec fn view(&self) -> ConnectionInfoView {
        self.deep_view()
    }
}

/// A response: status, header fields, and the connection's two ends where the
/// transport reported them.
#[derive(Debug)]
pub struct Response {
    pub status: u16,
    pub headers: HeaderMap,
    pub connection: Option<ConnectionInfo>,
}

/// The mathematical content of a [`Response`].
pub struct ResponseView {
    pub status: u16,
    pub headers: Seq<HeaderView>,
    pub connection: Option<ConnectionInfoView>,
}

impl DeepView for Response {
    type V = ResponseView;

    open spec fn deep_view(&self) -> ResponseView {
        ResponseView {
            status: self.status,
            headers: self.headers@,
            connection: self.connection.deep_view(),
        }
    }
}

impl View for Response {
    type V = ResponseView;

    open spec fn view(&self) -> ResponseView {
        self.deep_view()
    }
}

impl Response {
    /// A response without header fields and without connection data.
    pub fn new(status: u16) -> (response: Response)
        ensures
            response@ == (ResponseView {
                status,
                headers: Seq::<HeaderView>::empty(),
                connection: None,
            }),
    {
        Response { status, headers: HeaderMap::new(), connection: None }
    }
}

} // verus!
