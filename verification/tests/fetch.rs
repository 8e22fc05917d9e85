use container_credentials::env::EnvView;
use container_credentials::errors::CredError;
use container_credentials::fetch::FetchState;
use container_credentials::fetch::PollStep;
use container_credentials::fetch::TimedFetcher;
use container_credentials::fetch::TransportEvent;
use container_credentials::fetch::run_fetch;
use container_credentials::provider::ContainerProvider;

const CREDS_BODY: &str = "{\"AccessKeyId\":\"A\",\"SecretAccessKey\":\"S\",\"Token\":\"T\",\
                          \"Expiration\":\"2030-01-01T00:00:00Z\"}";

fn relative_env() -> EnvView {
    EnvView {
        relative_uri: Some("/task/creds".to_string()),
        full_uri: None,
        auth_token: None,
    }
}

fn step(now: u64, event: TransportEvent) -> PollStep {
    PollStep { now, event }
}

#[test]
fn successful_fetch_yields_credentials() {
    let provider = ContainerProvider::new();
    let transcript = vec![
        step(0, TransportEvent::Pending),
        step(1, TransportEvent::Response(200)),
        step(1, TransportEvent::Chunk(CREDS_BODY.as_bytes().to_vec())),
        step(2, TransportEvent::End),
    ];
    let outcome = provider.credentials(&relative_env(), 0, transcript);
    let creds = outcome.expect("fetch should finish").expect("fetch should succeed");
    assert_eq!(creds.access_key, "A");
    assert_eq!(creds.secret_key, "S");
    assert_eq!(creds.token.as_deref(), Some("T"));
    assert_eq!(creds.expires_at.as_deref(), Some("2030-01-01T00:00:00Z"));
}

#[test]
fn chunked_body_is_accumulated() {
    let provider = ContainerProvider::new();
    let (a, b) = CREDS_BODY.as_bytes().split_at(10);
    let transcript = vec![
        step(0, TransportEvent::Response(200)),
        step(0, TransportEvent::Chunk(a.to_vec())),
        step(1, TransportEvent::Pending),
        step(1, TransportEvent::Chunk(b.to_vec())),
        step(2, TransportEvent::End),
    ];
    let outcome = provider.credentials(&relative_env(), 0, transcript);
    let creds = outcome.expect("fetch should finish").expect("fetch should succeed");
    assert_eq!(creds.access_key, "A");
}

#[test]
fn non_success_status_is_a_status_error() {
    let provider = ContainerProvider::new();
    let transcript = vec![
        step(0, TransportEvent::Response(403)),
        // anything the transport delivers afterwards is ignored
        step(0, TransportEvent::Chunk(CREDS_BODY.as_bytes().to_vec())),
        step(0, TransportEvent::End),
    ];
    let outcome = provider.credentials(&relative_env(), 0, transcript);
    match outcome.expect("fetch should finish") {
        Err(CredError::Status(code)) => assert_eq!(code, 403),
        _ => panic!("expected a status error, not a parse of the body"),
    }
}

#[test]
fn status_error_message_contains_the_code() {
    let e = CredError::Status(403);
    assert_eq!(e.message(), "Invalid Response Code: 403");
    let e = CredError::Status(65535);
    assert_eq!(e.message(), "Invalid Response Code: 65535");
}

#[test]
fn timeout_after_one_time_unit() {
    let mut provider = ContainerProvider::new();
    provider.set_timeout(1);
    let transcript = vec![
        step(0, TransportEvent::Pending),
        step(1, TransportEvent::Pending),
    ];
    let outcome = provider.credentials(&relative_env(), 0, transcript);
    match outcome.expect("fetch should finish") {
        Err(CredError::Timeout) => {}
        _ => panic!("expected a timeout"),
    }
    assert_eq!(CredError::Timeout.message(), "Request timed out");
}

#[test]
fn late_result_does_not_overwrite_timeout() {
    let mut fetcher = TimedFetcher::start(1);
    fetcher.poll(1, TransportEvent::Pending);
    assert!(fetcher.is_done());
    // the abandoned transport delivers afterwards; the outcome stays a timeout
    fetcher.poll(2, TransportEvent::Response(200));
    fetcher.poll(2, TransportEvent::Chunk(CREDS_BODY.as_bytes().to_vec()));
    fetcher.poll(3, TransportEvent::End);
    match fetcher.into_outcome() {
        Some(Err(CredError::Timeout)) => {}
        _ => panic!("expected the timeout to stand"),
    }
}

#[test]
fn delivered_result_wins_over_elapsed_deadline() {
    // headers already delivered when the deadline passes: the result stands
    let transcript = vec![
        step(5, TransportEvent::Response(500)),
    ];
    match run_fetch(1, transcript) {
        FetchState::Done(Err(CredError::Status(code))) => assert_eq!(code, 500),
        _ => panic!("expected the delivered status to win"),
    }
}

#[test]
fn transport_failure_is_surfaced_verbatim() {
    let transcript = vec![
        step(0, TransportEvent::Failed("connection refused".to_string())),
    ];
    match run_fetch(30, transcript) {
        FetchState::Done(Err(CredError::Transport(m))) => assert_eq!(m, "connection refused"),
        _ => panic!("expected a transport error"),
    }
}

#[test]
fn non_utf8_body_is_a_data_encoding_error() {
    let provider = ContainerProvider::new();
    let transcript = vec![
        step(0, TransportEvent::Response(200)),
        step(0, TransportEvent::Chunk(vec![0xff, 0xfe, 0xfd])),
        step(1, TransportEvent::End),
    ];
    let outcome = provider.credentials(&relative_env(), 0, transcript);
    match outcome.expect("fetch should finish") {
        Err(CredError::DataEncoding) => {}
        _ => panic!("expected a data-encoding error, never a parse"),
    }
    assert_eq!(CredError::DataEncoding.message(), "Non UTF-8 Data returned");
}

#[test]
fn exhausted_transcript_leaves_fetch_in_flight() {
    let provider = ContainerProvider::new();
    let transcript = vec![
        step(0, TransportEvent::Pending),
        step(1, TransportEvent::Response(200)),
    ];
    assert!(provider.credentials(&relative_env(), 0, transcript).is_none());
}

#[test]
fn status_boundaries() {
    let ok = vec![step(0, TransportEvent::Response(299)), step(0, TransportEvent::End)];
    match run_fetch(30, ok) {
        // 299 counts as success: the empty body decodes but does not parse
        FetchState::Done(Ok(body)) => assert_eq!(body, ""),
        _ => panic!("expected 299 to count as success"),
    }
    let redirect = vec![step(0, TransportEvent::Response(301))];
    assert!(matches!(
        run_fetch(30, redirect),
        FetchState::Done(Err(CredError::Status(301)))
    ));
    let low = vec![step(0, TransportEvent::Response(199))];
    assert!(matches!(
        run_fetch(30, low),
        FetchState::Done(Err(CredError::Status(199)))
    ));
}

fn outcome_digest(o: &Option<Result<container_credentials::parse::Credentials, CredError>>) -> String {
    match o {
        None => "in flight".to_string(),
        Some(Ok(c)) => format!(
            "ok {} {} {:?} {:?}",
            c.access_key, c.secret_key, c.token, c.expires_at
        ),
        Some(Err(e)) => format!("err {}", e.message()),
    }
}

#[test]
fn two_identical_attempts_yield_identical_outcomes() {
    let provider = ContainerProvider::new();
    let transcript = || {
        vec![
            step(0, TransportEvent::Pending),
            step(1, TransportEvent::Response(200)),
            step(1, TransportEvent::Chunk(CREDS_BODY.as_bytes().to_vec())),
            step(2, TransportEvent::End),
        ]
    };
    let first = provider.credentials(&relative_env(), 0, transcript());
    let second = provider.credentials(&relative_env(), 0, transcript());
    assert_eq!(outcome_digest(&first), outcome_digest(&second));

    let failing = || vec![step(0, TransportEvent::Response(403))];
    let first = provider.credentials(&relative_env(), 0, failing());
    let second = provider.credentials(&relative_env(), 0, failing());
    assert_eq!(outcome_digest(&first), outcome_digest(&second));
}
