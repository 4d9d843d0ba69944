//! Dynamic registration of a client with an OpenID provider.
//!
//! The exchange itself is performed by the caller. What is decided here is
//! the request to send and whether the provider's answer is acceptable: a
//! client that authenticates with a secret must be given one.

use vstd::prelude::*;
use crate::header::HeaderView;
use crate::message::{Request, RequestView};

verus! {

/// How a client authenticates at the token endpoint.
#[derive(Debug)]
pub enum OAuthClientAuthenticationMethod {
    /// The method registered as `none`.
    NoAuthentication,
    ClientSecretPost,
    ClientSecretBasic,
    ClientSecretJwt,
    PrivateKeyJwt,
    TlsClientAuth,
    SelfSignedTlsClientAuth,
    Unknown(String),
}

/// Whether a method authenticates the client with a secret that the provider
/// issues.
pub open spec fn uses_secret(method: OAuthClientAuthenticationMethod) -> bool {
    method is ClientSecretPost || method is ClientSecretBasic || method is ClientSecretJwt
}

/// What the provider answers to a registration.
#[derive(Debug)]
pub struct ClientRegistrationResponse {
    pub client_id: String,
    pub client_secret: Option<String>,
}

/// Why a registration failed.
#[derive(Debug, Clone, Copy, PartialEq, Eq, Structural)]
pub enum RegistrationError {
    /// The client authenticates with a secret, and the provider gave none.
    MissingClientSecret,
}

/// A registration whose request is to be sent.
#[derive(Debug)]
pub struct Registration {
    /// The request to send, with the client metadata as its body.
    pub request: Request,
    /// Whether the answer must hold a client secret.
    pub should_receive_secret: bool,
}

/// Starts the registration of a client at `registration_endpoint`: the
/// request is a `POST` to the endpoint, and a secret is expected exactly for
/// the methods that authenticate with one.
pub fn register_client(
    registration_endpoint: &str,
    token_endpoint_auth_method: &OAuthClientAuthenticationMethod,
) -> (registration: Registration)
    ensures
        registration.request@ == (RequestView {
            method: "POST"@,
            uri: registration_endpoint@,
            headers: Seq::<HeaderView>::empty(),
        }),
        registration.should_receive_secret == uses_secret(*token_endpoint_auth_method),
{
    let should_receive_secret = match token_endpoint_auth_method {
        OAuthClientAuthenticationMethod::ClientSecretPost => true,
        OAuthClientAuthenticationMethod::ClientSecretBasic => true,
        OAuthClientAuthenticationMethod::ClientSecretJwt => true,
        _ => false,
    };
    Registration { request: Request::new("POST", registration_endpoint), should_receive_secret }
}

impl Registration {
    /// Ends the registration with the provider's answer: the answer itself,
    /// unless a secret was expected and none came.
    pub fn complete(self, response: ClientRegistrationResponse) -> (result: Result<
        ClientRegistrationResponse,
        RegistrationError,
    >)
        ensures
            self.should_receive_secret && response.client_secret is None ==> result == Err::<
                ClientRegistrationResponse,
                RegistrationError,
            >(RegistrationError::MissingClientSecret),
            !(self.should_receive_secret && response.client_secret is None) ==> result == Ok::<
                ClientRegistrationResponse,
                RegistrationError,
            >(response),
    {
        if self.should_receive_secret && response.client_secret.is_none() {
            return Err(RegistrationError::MissingClientSecret);
        }
        Ok(response)
    }
}

} // verus!
