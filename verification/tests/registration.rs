use client_pipeline::registration::{
    register_client, ClientRegistrationResponse, OAuthClientAuthenticationMethod,
    RegistrationError,
};

fn answer(secret: Option<&str>) -> ClientRegistrationResponse {
    ClientRegistrationResponse {
        client_id: "client".to_owned(),
        client_secret: secret.map(|s| s.to_owned()),
    }
}

#[test]
fn request_is_a_post_to_the_endpoint() {
    let registration = register_client(
        "https://op.example/register",
        &OAuthClientAuthenticationMethod::NoAuthentication,
    );
    assert_eq!(registration.request.method, "POST");
    assert_eq!(registration.request.uri, "https://op.example/register");
    assert_eq!(registration.request.headers.len(), 0);
    assert!(!registration.should_receive_secret);
}

#[test]
fn secret_is_expected_for_the_three_secret_methods() {
    let expects = |method: OAuthClientAuthenticationMethod| {
        register_client("https://op.example/register", &method).should_receive_secret
    };
    assert!(expects(OAuthClientAuthenticationMethod::ClientSecretPost));
    assert!(expects(OAuthClientAuthenticationMethod::ClientSecretBasic));
    assert!(expects(OAuthClientAuthenticationMethod::ClientSecretJwt));
    assert!(!expects(OAuthClientAuthenticationMethod::NoAuthentication));
    assert!(!expects(OAuthClientAuthenticationMethod::PrivateKeyJwt));
    assert!(!expects(OAuthClientAuthenticationMethod::TlsClientAuth));
    assert!(!expects(OAuthClientAuthenticationMethod::SelfSignedTlsClientAuth));
    assert!(!expects(OAuthClientAuthenticationMethod::Unknown("client_secret_post".to_owned())));
}

#[test]
fn missing_secret_is_an_error_only_where_one_is_expected() {
    let with_secret = || {
        register_client("https://op.example/r", &OAuthClientAuthenticationMethod::ClientSecretBasic)
    };
    let without = || register_client("https://op.example/r", &OAuthClientAuthenticationMethod::NoAuthentication);
    assert_eq!(
        with_secret().complete(answer(None)).unwrap_err(),
        RegistrationError::MissingClientSecret
    );
    let ok = with_secret().complete(answer(Some("s3cret"))).unwrap();
    assert_eq!(ok.client_id, "client");
    assert_eq!(ok.client_secret.as_deref(), Some("s3cret"));
    let ok = without().complete(answer(None)).unwrap();
    assert_eq!(ok.client_secret, None);
    let ok = without().complete(answer(Some("extra"))).unwrap();
    assert_eq!(ok.client_secret.as_deref(), Some("extra"));
}
