//! The credential provider for a containerized task: one resolution attempt
//! composes endpoint selection, request construction, the timed fetch, and
//! credential parsing into a single terminal outcome.

use vstd::prelude::*;
use crate::env::EnvView;
use crate::env::endpoint_of;
use crate::env::resolve_endpoint;
use crate::errors::CredError;
use crate::errors::ErrorModel;
use crate::fetch::PollStep;
use crate::fetch::FetchState;
use crate::fetch::StateModel;
use crate::fetch::run_fetch;
use crate::fetch::run_model;
use crate::fetch::steps_model;
use crate::parse::CredModel;
use crate::parse::Credentials;
use crate::parse::parse_credentials;
use crate::parse::parsed_credentials;
use crate::request::OutboundRequest;
use crate::request::build_request;
use crate::request::request_of;
use crate::request::source_var_of;
use crate::request::target_of;
use crate::request::uri_error_prefix;

verus! {

/// The outcome that a fetch state determines once the machine is terminal:
/// the parsed credentials of a delivered body, the failure the fetch
/// committed to, and nothing while still in flight.
pub open spec fn outcome_of_state(s: StateModel) -> Option<Result<CredModel, ErrorModel>> {
    match s {
        StateModel::Done(done) => match done {
            Ok(body) => match parsed_credentials(body) {
                Ok(c) => Some(Ok(c)),
                Err(msg) => Some(Err(ErrorModel::Parse(msg))),
            },
            Err(e) => Some(Err(e)),
        },
        _ => None,
    }
}

/// Provides credentials from the container metadata endpoint, under a
/// configurable time budget for the whole operation.
pub struct ContainerProvider {
    /// Timeout of one whole fetch operation, in seconds.
    pub timeout: u64,
}

impl ContainerProvider {
    /// A provider with the default timeout.
    pub fn new() -> (r: ContainerProvider)
        ensures
            r.timeout == crate::DEFAULT_TIMEOUT_SECS,
    {
        ContainerProvider { timeout: crate::DEFAULT_TIMEOUT_SECS }
    }

    /// Sets the timeout on the provider to the specified number of seconds.
    pub fn set_timeout(&mut self, timeout: u64)
        ensures
            final(self).timeout == timeout,
    {
        self.timeout = timeout;
    }

    /// Builds the outbound request that the environment determines: selects
    /// the endpoint strategy, composes and validates the target URI. Fails
    /// with a configuration error when neither endpoint variable is set or
    /// the target does not parse.
    pub fn prepare_request(&self, env: &EnvView) -> (r: Result<OutboundRequest, CredError>)
        ensures
            match endpoint_of(env@) {
                Err(msg) => r matches Err(e) && e@ == ErrorModel::Configuration(msg),
                Ok(ep) => match request_of(ep) {
                    Some(m) => r matches Ok(req) && req@ == m,
                    None => r matches Err(e) && e@ matches ErrorModel::Configuration(msg)
                        && uri_error_prefix(target_of(ep), source_var_of(ep)).is_prefix_of(msg),
                },
            },
    {
        let selection = match resolve_endpoint(env) {
            Ok(sel) => sel,
            Err(e) => {
                return Err(e);
            },
        };
        build_request(&selection)
    }

    /// Runs one whole resolution attempt against a scripted transport: the
    /// transcript stands in for the transport's behaviour, one entry per
    /// poll. Returns the terminal outcome, or `None` when the transcript
    /// ends while the fetch is still in flight. At most one attempt is
    /// made; no stage retries.
    pub fn credentials(&self, env: &EnvView, start: u64, transcript: Vec<PollStep>) -> (r: Option<
        Result<Credentials, CredError>,
    >)
        requires
            start + self.timeout <= u64::MAX,
        ensures
            endpoint_of(env@) matches Err(msg) ==> (r matches Some(res) && res matches Err(e)
                && e@ == ErrorModel::Configuration(msg)),
            endpoint_of(env@) matches Ok(ep) ==> request_of(ep) is None ==> (r matches Some(res)
                && res matches Err(e) && e@ matches ErrorModel::Configuration(msg)
                && uri_error_prefix(target_of(ep), source_var_of(ep)).is_prefix_of(msg)),
            endpoint_of(env@) matches Ok(ep) ==> request_of(ep) is Some ==> {
                let fin = run_model(
                    (start + self.timeout) as u64,
                    StateModel::Waiting,
                    steps_model(transcript@),
                );
                match outcome_of_state(fin) {
                    Some(done) => r matches Some(res) && (match done {
                        Ok(c) => res matches Ok(cred) && cred@ == c,
                        Err(e) => res matches Err(err) && err@ == e,
                    }),
                    None => r is None,
                }
            },
    {
        let _request = match self.prepare_request(env) {
            Ok(req) => req,
            Err(e) => {
                return Some(Err(e));
            },
        };
        let deadline = crate::fetch::deadline_after(start, self.timeout);
        let fin = run_fetch(deadline, transcript);
        match fin {
            FetchState::Done(done) => match done {
                Ok(body) => match parse_credentials(body.as_str()) {
                    Ok(c) => Some(Ok(c)),
                    Err(e) => Some(Err(e)),
                },
                Err(e) => Some(Err(e)),
            },
            _ => None,
        }
    }
}

/// Law: a resolution attempt is deterministic — two attempts under the same
/// deadline and the same transport transcript determine the same terminal
/// outcome.
pub proof fn lemma_attempt_idempotent(
    deadline1: u64,
    transcript1: Seq<crate::fetch::PollStepModel>,
    deadline2: u64,
    transcript2: Seq<crate::fetch::PollStepModel>,
)
    requires
        deadline1 == deadline2,
        transcript1 == transcript2,
    ensures
        outcome_of_state(run_model(deadline1, StateModel::Waiting, transcript1))
            == outcome_of_state(run_model(deadline2, StateModel::Waiting, transcript2)),
{
}

} // verus!
