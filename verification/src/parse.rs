//! Parsing of the accumulated body text into a structured credential value.
//!
//! The document is JSON; the string fields are read through `serde_json`,
//! which several credential-resolution strategies share. The two key fields
//! are required; the session token and the expiration timestamp are
//! optional and kept as the text the document carries.

use vstd::prelude::*;
use crate::errors::CredError;
use crate::errors::ErrorModel;

verus! {

/// A structured credential value. Immutable once constructed; owned by the
/// caller after the operation completes.
pub struct Credentials {
    /// The access key identifier.
    pub access_key: String,
    /// The secret key.
    pub secret_key: String,
    /// The session token, where the document carries one.
    pub token: Option<String>,
    /// The expiration timestamp, as the text the document carries, where it
    /// carries one.
    pub expires_at: Option<String>,
}

/// Mathematical model of a [`Credentials`] value.
pub struct CredModel {
    pub access_key: Seq<char>,
    pub secret_key: Seq<char>,
    pub token: Option<Seq<char>>,
    pub expires_at: Option<Seq<char>>,
}

impl View for Credentials {
    type V = CredModel;

    open spec fn view(&self) -> CredModel {
        CredModel {
            access_key: self.access_key@,
            secret_key: self.secret_key@,
            token: match self.token {
                Some(t) => Some(t@),
                None => None,
            },
            expires_at: match self.expires_at {
                Some(t) => Some(t@),
                None => None,
            },
        }
    }
}

/// The string value at top-level key `key` of `s` read as a JSON document:
/// present exactly when `s` parses and holds a string there, as
/// `serde_json`'s parser decides it.
pub uninterp spec fn json_string_field(s: Seq<char>, key: Seq<char>) -> Option<Seq<char>>;

/// Relies on `serde_json::from_str::<Value>` and `serde_json::Value::get`:
/// parses `s` and hands back the string value at top-level key `key`, if
/// `s` parses and holds one. The result depends on `s` and `key` alone.
#[verifier::external_body]
fn get_string_field(s: &str, key: &str) -> (r: Option<String>)
    ensures
        match r {
            Some(v) => json_string_field(s@, key@) == Some(v@),
            None => json_string_field(s@, key@) is None,
        },
{
    match serde_json::from_str::<serde_json::Value>(s) {
        Ok(doc) => match doc.get(key) {
            Some(serde_json::Value::String(v)) => Some(v.clone()),
            _ => None,
        },
        Err(_) => None,
    }
}

/// The message reported when the credential document carries no usable
/// string at `key`.
pub open spec fn missing_field_message(key: Seq<char>) -> Seq<char> {
    "Couldn't parse credentials response: no string value for '"@ + key + "'"@
}

fn missing_field_msg(key: &str) -> (r: String)
    ensures
        r@ == missing_field_message(key@),
{
    let mut m = String::new();
    m.append("Couldn't parse credentials response: no string value for '");
    m.append(key);
    m.append("'");
    proof {
        assert(m@ =~= missing_field_message(key@));
    }
    m
}

/// The credentials that body text `s` determines: the two required fields,
/// then the optional token and expiration fields; a parse failure naming
/// the first required field that is missing.
pub open spec fn parsed_credentials(s: Seq<char>) -> Result<CredModel, Seq<char>> {
    if json_string_field(s, "AccessKeyId"@) is None {
        Err(missing_field_message("AccessKeyId"@))
    } else if json_string_field(s, "SecretAccessKey"@) is None {
        Err(missing_field_message("SecretAccessKey"@))
    } else {
        Ok(
            CredModel {
                access_key: json_string_field(s, "AccessKeyId"@)->Some_0,
                secret_key: json_string_field(s, "SecretAccessKey"@)->Some_0,
                token: json_string_field(s, "Token"@),
                expires_at: json_string_field(s, "Expiration"@),
            },
        )
    }
}

/// Parses the body text into credentials, or fails with a parse error
/// carrying a description of what was missing.
pub fn parse_credentials(body: &str) -> (r: Result<Credentials, CredError>)
    ensures
        match parsed_credentials(body@) {
            Ok(m) => r matches Ok(c) && c@ == m,
            Err(msg) => r matches Err(e) && e@ == ErrorModel::Parse(msg),
        },
{
    let access_key = match get_string_field(body, "AccessKeyId") {
        Some(v) => v,
        None => {
            return Err(CredError::Parse(missing_field_msg("AccessKeyId")));
        },
    };
    let secret_key = match get_string_field(body, "SecretAccessKey") {
        Some(v) => v,
        None => {
            return Err(CredError::Parse(missing_field_msg("SecretAccessKey")));
        },
    };
    let token = get_string_field(body, "Token");
    let expires_at = get_string_field(body, "Expiration");
    Ok(Credentials { access_key, secret_key, token, expires_at })
}

} // verus!
