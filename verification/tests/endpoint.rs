use container_credentials::env::EndpointSelection;
use container_credentials::env::EnvView;
use container_credentials::env::resolve_endpoint;
use container_credentials::errors::CredError;
use container_credentials::provider::ContainerProvider;

fn env(relative: Option<&str>, full: Option<&str>, token: Option<&str>) -> EnvView {
    EnvView {
        relative_uri: relative.map(|s| s.to_string()),
        full_uri: full.map(|s| s.to_string()),
        auth_token: token.map(|s| s.to_string()),
    }
}

#[test]
fn relative_uri_takes_precedence() {
    let e = env(Some("/xxx"), Some("http://localhost/other"), Some("dummy"));
    match resolve_endpoint(&e) {
        Ok(EndpointSelection::Relative(p)) => assert_eq!(p, "/xxx"),
        other => panic!("expected a relative selection, got {:?}", other.is_ok()),
    }
}

#[test]
fn full_uri_selected_when_relative_unset() {
    let e = env(None, Some("http://localhost/xxx"), Some("dummy"));
    match resolve_endpoint(&e) {
        Ok(EndpointSelection::Full(u, t)) => {
            assert_eq!(u, "http://localhost/xxx");
            assert_eq!(t.as_deref(), Some("dummy"));
        }
        other => panic!("expected a full selection, got {:?}", other.is_ok()),
    }
}

#[test]
fn full_uri_selected_when_relative_empty() {
    let e = env(Some(""), Some("http://localhost/xxx"), None);
    match resolve_endpoint(&e) {
        Ok(EndpointSelection::Full(u, t)) => {
            assert_eq!(u, "http://localhost/xxx");
            assert!(t.is_none());
        }
        other => panic!("expected a full selection, got {:?}", other.is_ok()),
    }
}

#[test]
fn empty_token_treated_as_absent() {
    let e = env(None, Some("http://localhost/xxx"), Some(""));
    match resolve_endpoint(&e) {
        Ok(EndpointSelection::Full(_, t)) => assert!(t.is_none()),
        other => panic!("expected a full selection, got {:?}", other.is_ok()),
    }
}

#[test]
fn missing_vars_name_both_variables() {
    let e = env(None, None, Some("dummy"));
    match resolve_endpoint(&e) {
        Err(CredError::Configuration(m)) => {
            assert_eq!(
                m,
                "Neither environment variable 'AWS_CONTAINER_CREDENTIALS_FULL_URI' nor \
                 'AWS_CONTAINER_CREDENTIALS_RELATIVE_URI' is set"
            );
        }
        _ => panic!("expected a configuration error"),
    }
}

#[test]
fn empty_vars_rejected_like_missing() {
    let e = env(Some(""), Some(""), Some(""));
    assert!(matches!(resolve_endpoint(&e), Err(CredError::Configuration(_))));
}

#[test]
fn request_from_relative_uri() {
    let provider = ContainerProvider::new();
    let e = env(Some("/xxx"), Some("dummy"), Some("dummy"));
    let request = provider.prepare_request(&e).expect("request should build");
    assert_eq!(request.uri, "http://169.254.170.2/xxx");
    assert_eq!(
        request.uri,
        format!("http://{}/xxx", container_credentials::request::provider_ip())
    );
    assert!(request.authorization.is_none());
}

#[test]
fn request_from_full_uri_with_token() {
    let provider = ContainerProvider::new();
    let e = env(None, Some("http://localhost/xxx"), Some("dummy"));
    let request = provider.prepare_request(&e).expect("request should build");
    assert_eq!(request.uri, "http://localhost/xxx");
    assert_eq!(request.authorization.as_deref(), Some("dummy"));
}

#[test]
fn request_from_full_uri_without_token() {
    let provider = ContainerProvider::new();
    let e = env(None, Some("http://localhost/xxx"), None);
    let request = provider.prepare_request(&e).expect("request should build");
    assert_eq!(request.uri, "http://localhost/xxx");
    assert!(request.authorization.is_none());
}

#[test]
fn request_from_full_uri_with_empty_token() {
    let provider = ContainerProvider::new();
    let e = env(None, Some("http://localhost/xxx"), Some(""));
    let request = provider.prepare_request(&e).expect("request should build");
    assert_eq!(request.uri, "http://localhost/xxx");
    assert!(request.authorization.is_none());
}

#[test]
fn unparsable_uri_reports_configuration_error() {
    let provider = ContainerProvider::new();
    let e = env(None, Some("http://exa mple.com/creds"), None);
    match provider.prepare_request(&e) {
        Err(CredError::Configuration(m)) => {
            assert!(m.starts_with(
                "Error while parsing URI 'http://exa mple.com/creds' derived from \
                 environment variable 'AWS_CONTAINER_CREDENTIALS_FULL_URI': "
            ));
        }
        _ => panic!("expected a configuration error"),
    }
}

#[test]
fn parsable_uri_accepted() {
    let provider = ContainerProvider::new();
    let e = env(None, Some("https://example.com/task/creds?v=1"), None);
    assert!(provider.prepare_request(&e).is_ok());
}
