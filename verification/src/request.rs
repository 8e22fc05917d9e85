//! Construction of the outbound request that an endpoint selection
//! determines: a read-only fetch of a validated target URI, with at most one
//! authorization header.

use vstd::prelude::*;
use crate::env::EndpointModel;
use crate::env::EndpointSelection;
use crate::env::spec_full_uri_var;
use crate::env::spec_relative_uri_var;
use crate::errors::CredError;
use crate::errors::ErrorModel;

verus! {

/// The fixed local provider address used only by the relative-URI strategy.
pub open spec fn spec_provider_ip() -> Seq<char> {
    "169.254.170.2"@
}

/// The fixed local provider address, for callers that display it.
pub fn provider_ip() -> (r: &'static str)
    ensures
        r@ == spec_provider_ip(),
{
    "169.254.170.2"
}

/// The target composed by the relative strategy: the scheme, the fixed local
/// provider address, then the configured path.
pub open spec fn relative_target(path: Seq<char>) -> Seq<char> {
    "http://"@ + spec_provider_ip() + path
}

/// Validity of `s` as a target URI, as the `http` crate's parser decides it.
pub uninterp spec fn uri_valid(s: Seq<char>) -> bool;

/// Relies on `http::Uri`'s `FromStr` impl: whether `s` parses as a URI
/// depends on the characters of `s` alone. On failure the parser's own
/// description comes back.
#[verifier::external_body]
fn check_uri(s: &str) -> (r: Result<(), String>)
    ensures
        r is Ok <==> uri_valid(s@),
{
    match s.parse::<http::Uri>() {
        Ok(_) => Ok(()),
        Err(e) => Err(e.to_string()),
    }
}

/// An outbound request: always a read-only fetch (no body) of `uri`, with at
/// most one authorization header. Built once, consumed once.
pub struct OutboundRequest {
    /// The validated target URI.
    pub uri: String,
    /// Raw value of the single authorization header, if one is attached.
    pub authorization: Option<String>,
}

/// Mathematical model of an [`OutboundRequest`].
pub struct RequestModel {
    pub uri: Seq<char>,
    pub authorization: Option<Seq<char>>,
}

impl View for OutboundRequest {
    type V = RequestModel;

    open spec fn view(&self) -> RequestModel {
        RequestModel {
            uri: self.uri@,
            authorization: match self.authorization {
                Some(t) => Some(t@),
                None => None,
            },
        }
    }
}

/// The request that an endpoint selection determines, where its target
/// parses as a URI; `None` where it does not. The relative strategy targets
/// the composed local address and never carries authorization; the full
/// strategy targets the configured URI with its selected token.
pub open spec fn request_of(e: EndpointModel) -> Option<RequestModel> {
    match e {
        EndpointModel::Relative(p) => if uri_valid(relative_target(p)) {
            Some(RequestModel { uri: relative_target(p), authorization: None })
        } else {
            None
        },
        EndpointModel::Full(u, t) => if uri_valid(u) {
            Some(RequestModel { uri: u, authorization: t })
        } else {
            None
        },
    }
}

/// The fixed opening of the message reported when a target does not parse:
/// it names the offending string and the variable it came from, and the
/// parser's own description follows.
pub open spec fn uri_error_prefix(uri: Seq<char>, var: Seq<char>) -> Seq<char> {
    "Error while parsing URI '"@ + uri + "' derived from environment variable '"@ + var + "': "@
}

/// The variable an endpoint selection was derived from, named in its parse
/// failures.
pub open spec fn source_var_of(e: EndpointModel) -> Seq<char> {
    match e {
        EndpointModel::Relative(_) => spec_relative_uri_var(),
        EndpointModel::Full(_, _) => spec_full_uri_var(),
    }
}

/// The target string an endpoint selection asks to parse.
pub open spec fn target_of(e: EndpointModel) -> Seq<char> {
    match e {
        EndpointModel::Relative(p) => relative_target(p),
        EndpointModel::Full(u, _) => u,
    }
}

fn uri_error_message(uri: &str, var: &str, detail: String) -> (r: String)
    ensures
        r@ == uri_error_prefix(uri@, var@) + detail@,
{
    let mut m = String::new();
    m.append("Error while parsing URI '");
    m.append(uri);
    m.append("' derived from environment variable '");
    m.append(var);
    m.append("': ");
    m.append(detail.as_str());
    proof {
        assert(m@ =~= uri_error_prefix(uri@, var@) + detail@);
    }
    m
}

/// Builds the outbound request that `sel` determines, or fails with a
/// configuration error naming the offending string and its source variable.
pub fn build_request(sel: &EndpointSelection) -> (r: Result<OutboundRequest, CredError>)
    ensures
        match request_of(sel@) {
            Some(m) => r matches Ok(req) && req@ == m,
            None => r matches Err(e) && e@ matches ErrorModel::Configuration(msg)
                && uri_error_prefix(target_of(sel@), source_var_of(sel@)).is_prefix_of(msg),
        },
{
    match sel {
        EndpointSelection::Relative(path) => {
            let mut target = String::new();
            target.append("http://");
            target.append("169.254.170.2");
            target.append(path.as_str());
            proof {
                assert(target@ =~= relative_target(path@));
            }
            match check_uri(target.as_str()) {
                Ok(_) => Ok(OutboundRequest { uri: target, authorization: None }),
                Err(detail) => {
                    let m = uri_error_message(
                        target.as_str(),
                        "AWS_CONTAINER_CREDENTIALS_RELATIVE_URI",
                        detail,
                    );
                    proof {
                        let prefix = uri_error_prefix(target_of(sel@), source_var_of(sel@));
                        assert(m@.subrange(0, prefix.len() as int) =~= prefix);
                    }
                    Err(CredError::Configuration(m))
                },
            }
        },
        EndpointSelection::Full(u, t) => {
            match check_uri(u.as_str()) {
                Ok(_) => {
                    let token = match t {
                        Some(s) => Some(s.clone()),
                        None => None,
                    };
                    Ok(OutboundRequest { uri: u.clone(), authorization: token })
                },
                Err(detail) => {
                    let m = uri_error_message(
                        u.as_str(),
                        "AWS_CONTAINER_CREDENTIALS_FULL_URI",
                        detail,
                    );
                    proof {
                        let prefix = uri_error_prefix(target_of(sel@), source_var_of(sel@));
                        assert(m@.subrange(0, prefix.len() as int) =~= prefix);
                    }
                    Err(CredError::Configuration(m))
                },
            }
        },
    }
}

/// Law: a request built from a relative selection targets the composed local
/// address and never carries an authorization header.
pub proof fn lemma_relative_request_no_authorization(p: Seq<char>)
    ensures
        request_of(EndpointModel::Relative(p)) matches Some(m) ==> m.authorization is None
            && m.uri == relative_target(p),
{
}

/// Law: a request built from a full selection targets the configured URI and
/// carries the authorization header exactly when a token was selected — that
/// token, raw.
pub proof fn lemma_full_request_authorization(u: Seq<char>, t: Option<Seq<char>>)
    ensures
        request_of(EndpointModel::Full(u, t)) matches Some(m) ==> m.authorization == t && m.uri
            == u,
{
}

} // verus!
