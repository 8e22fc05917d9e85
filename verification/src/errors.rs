//! Classified failures of a credential-resolution attempt, and their
//! human-readable messages.

use vstd::prelude::*;

verus! {

/// Mathematical model of a classified failure. Each variant carries what the
/// corresponding message is built from.
pub enum ErrorModel {
    /// Neither endpoint variable usable, or a configured URI does not parse.
    Configuration(Seq<char>),
    /// The transport failed before a response was obtained.
    Transport(Seq<char>),
    /// A response arrived with a non-success status code.
    Status(u16),
    /// The response body was not valid UTF-8 text.
    DataEncoding,
    /// The deadline elapsed before a result was obtained.
    Timeout,
    /// The accumulated text failed structured parsing.
    Parse(Seq<char>),
}

/// A classified failure of a credential-resolution attempt. Every failure is
/// a value returned to the caller; no stage retries internally.
#[derive(Debug)]
pub enum CredError {
    /// Neither endpoint variable usable, or a configured URI does not parse.
    Configuration(String),
    /// The transport failed before a response was obtained.
    Transport(String),
    /// A response arrived with a non-success status code.
    Status(u16),
    /// The response body was not valid UTF-8 text.
    DataEncoding,
    /// The deadline elapsed before a result was obtained.
    Timeout,
    /// The accumulated text failed structured parsing.
    Parse(String),
}

impl View for CredError {
    type V = ErrorModel;

    open spec fn view(&self) -> ErrorModel {
        match self {
            CredError::Configuration(m) => ErrorModel::Configuration(m@),
            CredError::Transport(m) => ErrorModel::Transport(m@),
            CredError::Status(c) => ErrorModel::Status(*c),
            CredError::DataEncoding => ErrorModel::DataEncoding,
            CredError::Timeout => ErrorModel::Timeout,
            CredError::Parse(m) => ErrorModel::Parse(m@),
        }
    }
}

/// The character rendering the decimal digit `d`.
pub open spec fn digit_char(d: nat) -> char
    recommends
        d < 10,
{
    if d == 0 {
        '0'
    } else if d == 1 {
        '1'
    } else if d == 2 {
        '2'
    } else if d == 3 {
        '3'
    } else if d == 4 {
        '4'
    } else if d == 5 {
        '5'
    } else if d == 6 {
        '6'
    } else if d == 7 {
        '7'
    } else if d == 8 {
        '8'
    } else {
        '9'
    }
}

/// The decimal rendering of `n`, most significant digit first, without
/// leading zeros (a single `'0'` for zero).
pub open spec fn decimal_digits(n: nat) -> Seq<char>
    decreases n,
{
    if n < 10 {
        seq![digit_char(n)]
    } else {
        decimal_digits(n / 10).push(digit_char(n % 10))
    }
}

fn digit_str(d: u16) -> (r: &'static str)
    requires
        d < 10,
    ensures
        r@ == seq![digit_char(d as nat)],
{
    if d == 0 {
        let s = "0";
        proof {
            reveal_strlit("0");
            assert(s@ =~= seq![digit_char(d as nat)]);
        }
        s
    } else if d == 1 {
        let s = "1";
        proof {
            reveal_strlit("1");
            assert(s@ =~= seq![digit_char(d as nat)]);
        }
        s
    } else if d == 2 {
        let s = "2";
        proof {
            reveal_strlit("2");
            assert(s@ =~= seq![digit_char(d as nat)]);
        }
        s
    } else if d == 3 {
        let s = "3";
        proof {
            reveal_strlit("3");
            assert(s@ =~= seq![digit_char(d as nat)]);
        }
        s
    } else if d == 4 {
        let s = "4";
        proof {
            reveal_strlit("4");
            assert(s@ =~= seq![digit_char(d as nat)]);
        }
        s
    } else if d == 5 {
        let s = "5";
        proof {
            reveal_strlit("5");
            assert(s@ =~= seq![digit_char(d as nat)]);
        }
        s
    } else if d == 6 {
        let s = "6";
        proof {
            reveal_strlit("6");
            assert(s@ =~= seq![digit_char(d as nat)]);
        }
        s
    } else if d == 7 {
        let s = "7";
        proof {
            reveal_strlit("7");
            assert(s@ =~= seq![digit_char(d as nat)]);
        }
        s
    } else if d == 8 {
        let s = "8";
        proof {
            reveal_strlit("8");
            assert(s@ =~= seq![digit_char(d as nat)]);
        }
        s
    } else {
        let s = "9";
        proof {
            reveal_strlit("9");
            assert(s@ =~= seq![digit_char(d as nat)]);
        }
        s
    }
}

/// Renders `n` in decimal.
pub fn decimal_string(n: u16) -> (r: String)
    ensures
        r@ == decimal_digits(n as nat),
    decreases n,
{
    if n < 10 {
        let mut s = String::new();
        s.append(digit_str(n));
        proof {
            assert(s@ =~= decimal_digits(n as nat));
        }
        s
    } else {
        let mut s = decimal_string(n / 10);
        s.append(digit_str(n % 10));
        proof {
            assert(s@ =~= decimal_digits(n as nat));
        }
        s
    }
}

/// The message of a status failure: the fixed prefix followed by the decimal
/// status code.
pub open spec fn status_message(code: u16) -> Seq<char> {
    "Invalid Response Code: "@ + decimal_digits(code as nat)
}

/// The fixed message of a data-encoding failure.
pub open spec fn data_encoding_message() -> Seq<char> {
    "Non UTF-8 Data returned"@
}

/// The fixed message of a timeout failure.
pub open spec fn timeout_message() -> Seq<char> {
    "Request timed out"@
}

/// The human-readable message of a failure: configuration, transport and
/// parse failures carry their message; the other kinds render a fixed
/// description, with the numeric code for a status failure.
pub open spec fn message_of(e: ErrorModel) -> Seq<char> {
    match e {
        ErrorModel::Configuration(m) => m,
        ErrorModel::Transport(m) => m,
        ErrorModel::Status(c) => status_message(c),
        ErrorModel::DataEncoding => data_encoding_message(),
        ErrorModel::Timeout => timeout_message(),
        ErrorModel::Parse(m) => m,
    }
}

impl CredError {
    /// The human-readable description of this failure.
    pub fn message(&self) -> (r: String)
        ensures
            r@ == message_of(self@),
    {
        match self {
            CredError::Configuration(m) => m.clone(),
            CredError::Transport(m) => m.clone(),
            CredError::Status(c) => {
                let mut s = String::new();
                s.append("Invalid Response Code: ");
                s.append(decimal_string(*c).as_str());
                proof {
                    assert(s@ =~= status_message(*c));
                }
                s
            },
            CredError::DataEncoding => {
                let mut s = String::new();
                s.append("Non UTF-8 Data returned");
                proof {
                    assert(s@ =~= data_encoding_message());
                }
                s
            },
            CredError::Timeout => {
                let mut s = String::new();
                s.append("Request timed out");
                proof {
                    assert(s@ =~= timeout_message());
                }
                s
            },
            CredError::Parse(m) => m.clone(),
        }
    }
}

} // verus!
