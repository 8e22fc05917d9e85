//! Endpoint selection from the process environment: which of the two
//! endpoint strategies a resolution attempt uses, and with what
//! authorization.

use vstd::prelude::*;
use crate::errors::CredError;
use crate::errors::ErrorModel;

verus! {

/// A read-only view of the environment variables that endpoint selection
/// consults. The caller reads the process environment (or builds an isolated
/// mapping for a test) and hands the three values in; resolution never
/// mutates environment state.
pub struct EnvView {
    /// Value of the relative-URI variable, if present.
    pub relative_uri: Option<String>,
    /// Value of the full-URI variable, if present.
    pub full_uri: Option<String>,
    /// Value of the authorization-token variable, if present.
    pub auth_token: Option<String>,
}

/// Mathematical model of an [`EnvView`].
pub struct EnvModel {
    pub relative_uri: Option<Seq<char>>,
    pub full_uri: Option<Seq<char>>,
    pub auth_token: Option<Seq<char>>,
}

impl View for EnvView {
    type V = EnvModel;

    open spec fn view(&self) -> EnvModel {
        EnvModel {
            relative_uri: match self.relative_uri {
                Some(s) => Some(s@),
                None => None,
            },
            full_uri: match self.full_uri {
                Some(s) => Some(s@),
                None => None,
            },
            auth_token: match self.auth_token {
                Some(s) => Some(s@),
                None => None,
            },
        }
    }
}

/// Whether an environment value counts as set: present and non-empty. An
/// empty string and an absent variable are both treated as not set.
pub open spec fn is_set(v: Option<Seq<char>>) -> bool {
    v matches Some(s) && s.len() > 0
}

/// Name of the variable holding the path appended to the fixed local
/// provider address.
pub open spec fn spec_relative_uri_var() -> Seq<char> {
    "AWS_CONTAINER_CREDENTIALS_RELATIVE_URI"@
}

/// Name of the variable holding a complete URI to an alternate credential
/// endpoint.
pub open spec fn spec_full_uri_var() -> Seq<char> {
    "AWS_CONTAINER_CREDENTIALS_FULL_URI"@
}

/// Name of the variable holding the optional bearer token attached with the
/// full-URI strategy.
pub open spec fn spec_auth_token_var() -> Seq<char> {
    "AWS_CONTAINER_AUTHORIZATION_TOKEN"@
}

/// Name of the relative-URI variable, for the caller that reads the
/// environment.
pub fn relative_uri_var() -> (r: &'static str)
    ensures
        r@ == spec_relative_uri_var(),
{
    "AWS_CONTAINER_CREDENTIALS_RELATIVE_URI"
}

/// Name of the full-URI variable, for the caller that reads the environment.
pub fn full_uri_var() -> (r: &'static str)
    ensures
        r@ == spec_full_uri_var(),
{
    "AWS_CONTAINER_CREDENTIALS_FULL_URI"
}

/// Name of the authorization-token variable, for the caller that reads the
/// environment.
pub fn auth_token_var() -> (r: &'static str)
    ensures
        r@ == spec_auth_token_var(),
{
    "AWS_CONTAINER_AUTHORIZATION_TOKEN"
}

/// The endpoint strategy of one resolution attempt. At most one strategy is
/// active per attempt, and a token is attached only to the full strategy.
pub enum EndpointSelection {
    /// Path to combine with the fixed local provider address. Never carries
    /// authorization.
    Relative(String),
    /// Complete URI to the endpoint, with an optional bearer token.
    Full(String, Option<String>),
}

/// Mathematical model of an [`EndpointSelection`].
pub enum EndpointModel {
    Relative(Seq<char>),
    Full(Seq<char>, Option<Seq<char>>),
}

impl View for EndpointSelection {
    type V = EndpointModel;

    open spec fn view(&self) -> EndpointModel {
        match self {
            EndpointSelection::Relative(p) => EndpointModel::Relative(p@),
            EndpointSelection::Full(u, t) => EndpointModel::Full(
                u@,
                match t {
                    Some(s) => Some(s@),
                    None => None,
                },
            ),
        }
    }
}

/// The message reported when neither endpoint variable is set.
pub open spec fn missing_vars_message() -> Seq<char> {
    "Neither environment variable '"@ + spec_full_uri_var() + "' nor '"@
        + spec_relative_uri_var() + "' is set"@
}

/// The endpoint that an environment determines. The relative strategy takes
/// precedence whenever its variable is set, whatever the other two hold; the
/// full strategy follows, carrying the token exactly when the token variable
/// is set; with neither endpoint variable set, selection fails.
pub open spec fn endpoint_of(env: EnvModel) -> Result<EndpointModel, Seq<char>> {
    if is_set(env.relative_uri) {
        Ok(EndpointModel::Relative(env.relative_uri->Some_0))
    } else if is_set(env.full_uri) {
        Ok(
            EndpointModel::Full(
                env.full_uri->Some_0,
                if is_set(env.auth_token) {
                    Some(env.auth_token->Some_0)
                } else {
                    None
                },
            ),
        )
    } else {
        Err(missing_vars_message())
    }
}

/// Selects the endpoint strategy that `env` determines, or fails with a
/// configuration error naming both endpoint variables.
pub fn resolve_endpoint(env: &EnvView) -> (r: Result<EndpointSelection, CredError>)
    ensures
        match endpoint_of(env@) {
            Ok(m) => r matches Ok(sel) && sel@ == m,
            Err(msg) => r matches Err(e) && e@ == ErrorModel::Configuration(msg),
        },
{
    if let Some(p) = &env.relative_uri {
        if !p.as_str().is_empty() {
            return Ok(EndpointSelection::Relative(p.clone()));
        }
    }
    if let Some(u) = &env.full_uri {
        if !u.as_str().is_empty() {
            let token = match &env.auth_token {
                Some(t) => if !t.as_str().is_empty() {
                    Some(t.clone())
                } else {
                    None
                },
                None => None,
            };
            return Ok(EndpointSelection::Full(u.clone(), token));
        }
    }
    let mut m = String::new();
    m.append("Neither environment variable '");
    m.append("AWS_CONTAINER_CREDENTIALS_FULL_URI");
    m.append("' nor '");
    m.append("AWS_CONTAINER_CREDENTIALS_RELATIVE_URI");
    m.append("' is set");
    proof {
        assert(m@ =~= missing_vars_message());
    }
    Err(CredError::Configuration(m))
}

/// Whether `name` occurs in `msg` as a contiguous run of characters.
pub open spec fn mentions(msg: Seq<char>, name: Seq<char>) -> bool {
    exists|i: int|
        0 <= i && i + name.len() <= msg.len() && #[trigger] msg.subrange(i, i + name.len() as int)
            == name
}

/// Law: whenever the relative-URI variable is set to a non-empty path, the
/// selected endpoint is `Relative` with exactly that path, whatever the
/// other two variables hold.
pub proof fn lemma_relative_uri_precedence(env: EnvModel)
    requires
        is_set(env.relative_uri),
    ensures
        endpoint_of(env) == Ok::<EndpointModel, Seq<char>>(
            EndpointModel::Relative(env.relative_uri->Some_0),
        ),
{
}

/// Law: whenever the relative-URI variable is not set and the full-URI
/// variable is, the selected endpoint is `Full` with exactly that URI, and
/// it carries a token exactly when the token variable is set — that token.
pub proof fn lemma_full_uri_fallback(env: EnvModel)
    requires
        !is_set(env.relative_uri),
        is_set(env.full_uri),
    ensures
        endpoint_of(env) matches Ok(m),
        endpoint_of(env)->Ok_0 matches EndpointModel::Full(u, t)
            && u == env.full_uri->Some_0
            && (t is Some <==> is_set(env.auth_token))
            && (is_set(env.auth_token) ==> t == Some(env.auth_token->Some_0)),
{
}

/// Law: with neither endpoint variable set, selection fails, and the
/// configuration message names both endpoint variables.
pub proof fn lemma_missing_vars(env: EnvModel)
    requires
        !is_set(env.relative_uri),
        !is_set(env.full_uri),
    ensures
        endpoint_of(env) == Err::<EndpointModel, Seq<char>>(missing_vars_message()),
        mentions(missing_vars_message(), spec_full_uri_var()),
        mentions(missing_vars_message(), spec_relative_uri_var()),
{
    let msg = missing_vars_message();
    let p1 = "Neither environment variable '"@;
    let p2 = "' nor '"@;
    let full = spec_full_uri_var();
    let rel = spec_relative_uri_var();
    let i = p1.len() as int;
    assert(msg.subrange(i, i + full.len() as int) =~= full);
    let j = p1.len() + full.len() + p2.len();
    assert(msg.subrange(j as int, j as int + rel.len() as int) =~= rel);
}

} // verus!
