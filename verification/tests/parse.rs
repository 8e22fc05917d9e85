use container_credentials::errors::CredError;
use container_credentials::parse::parse_credentials;

#[test]
fn full_document_parses() {
    let body = "{\"AccessKeyId\":\"AKID\",\"SecretAccessKey\":\"sk\",\"Token\":\"tok\",\
                \"Expiration\":\"2030-01-01T00:00:00Z\"}";
    let creds = parse_credentials(body).expect("document should parse");
    assert_eq!(creds.access_key, "AKID");
    assert_eq!(creds.secret_key, "sk");
    assert_eq!(creds.token.as_deref(), Some("tok"));
    assert_eq!(creds.expires_at.as_deref(), Some("2030-01-01T00:00:00Z"));
}

#[test]
fn token_and_expiration_are_optional() {
    let body = "{\"AccessKeyId\":\"AKID\",\"SecretAccessKey\":\"sk\"}";
    let creds = parse_credentials(body).expect("document should parse");
    assert!(creds.token.is_none());
    assert!(creds.expires_at.is_none());
}

#[test]
fn missing_access_key_is_reported() {
    let body = "{\"SecretAccessKey\":\"sk\"}";
    match parse_credentials(body) {
        Err(CredError::Parse(m)) => assert_eq!(
            m,
            "Couldn't parse credentials response: no string value for 'AccessKeyId'"
        ),
        _ => panic!("expected a parse error"),
    }
}

#[test]
fn missing_secret_key_is_reported() {
    let body = "{\"AccessKeyId\":\"AKID\"}";
    match parse_credentials(body) {
        Err(CredError::Parse(m)) => assert_eq!(
            m,
            "Couldn't parse credentials response: no string value for 'SecretAccessKey'"
        ),
        _ => panic!("expected a parse error"),
    }
}

#[test]
fn malformed_document_is_a_parse_error() {
    assert!(matches!(
        parse_credentials("this is not json"),
        Err(CredError::Parse(_))
    ));
    assert!(matches!(parse_credentials(""), Err(CredError::Parse(_))));
    assert!(matches!(parse_credentials("[1, 2, 3]"), Err(CredError::Parse(_))));
}

#[test]
fn non_string_field_is_rejected() {
    let body = "{\"AccessKeyId\":17,\"SecretAccessKey\":\"sk\"}";
    assert!(matches!(parse_credentials(body), Err(CredError::Parse(_))));
}
