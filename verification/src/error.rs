//! The errors of the library.

use crate::text::{decimal, decimal_string};
use vstd::prelude::*;

verus! {

/// `bitreq::Error`, carried as it is: nothing is known of what it holds.
#[verifier::external_type_specification]
#[verifier::external_body]
pub struct ExTransportError(bitreq::Error);

/// All errors that can occur.
#[derive(Debug)]
pub enum NjallaError {
    /// API token not found.
    MissingToken,
    /// HTTP request failed.
    Request(bitreq::Error),
    /// API returned an error response.
    Api {
        /// Error message from the API.
        message: String,
    },
    /// Domain is not available for registration.
    DomainNotAvailable(String),
    /// Registration timed out waiting for completion.
    RegistrationTimeout {
        /// Domain being registered.
        domain: String,
        /// Timeout in seconds.
        timeout_secs: u64,
    },
    /// JSON parsing failed.
    Parse(serde_json::Error),
    /// Configuration error.
    Config {
        /// Error message.
        message: String,
    },
}

/// What an error is, apart from what an outside crate said of it.
pub ghost enum Failure {
    /// No credential was supplied.
    MissingCredential,
    /// The request could not be made, or no response came.
    Transport(bitreq::Error),
    /// A text was no JSON, or not of the expected shape.
    Decode,
    /// The API reported an error, with this message.
    ApiRejected(Seq<char>),
    /// The domain cannot be registered, for this reason.
    DomainNotAvailable(Seq<char>),
    /// The registration did not complete in time.
    RegistrationTimeout { domain: Seq<char>, timeout_secs: u64 },
    /// The configuration could not be read or written.
    Configuration(Seq<char>),
}

impl View for NjallaError {
    type V = Failure;

    open spec fn view(&self) -> Failure {
        match self {
            NjallaError::MissingToken => Failure::MissingCredential,
            NjallaError::Request(cause) => Failure::Transport(*cause),
            NjallaError::Api { message } => Failure::ApiRejected(message@),
            NjallaError::DomainNotAvailable(reason) => Failure::DomainNotAvailable(reason@),
            NjallaError::RegistrationTimeout { domain, timeout_secs } => Failure::RegistrationTimeout {
                domain: domain@,
                timeout_secs: *timeout_secs,
            },
            NjallaError::Parse(_) => Failure::Decode,
            NjallaError::Config { message } => Failure::Configuration(message@),
        }
    }
}

/// `Display` of `bitreq::Error`, through `to_string`. The text may come from
/// the operating system, so nothing is claimed of it.
#[verifier::external_body]
fn transport_error_text(e: &bitreq::Error) -> String {
    e.to_string()
}

/// `Display` of `serde_json::Error`, through `to_string`. Nothing is claimed
/// of the text.
#[verifier::external_body]
fn parse_error_text(e: &serde_json::Error) -> String {
    e.to_string()
}

impl NjallaError {
    /// Whether the error wraps one of an outside crate, whose own text the
    /// message ends with.
    pub open spec fn has_detail(&self) -> bool {
        self is Request || self is Parse
    }

    /// The message of the error, where `detail` is the text of the error it
    /// wraps, if it wraps one.
    pub open spec fn text(&self, detail: Seq<char>) -> Seq<char> {
        match self {
            NjallaError::MissingToken =>
                "No API token found. Set NJALLA_API_TOKEN or add api_token to ./config.toml"@,
            NjallaError::Request(_) => "Request failed: "@ + detail,
            NjallaError::Api { message } => "API error: "@ + message@,
            NjallaError::DomainNotAvailable(reason) => "Domain not available: "@ + reason@,
            NjallaError::RegistrationTimeout { domain, timeout_secs } => "Registration timeout for "@
                + domain@ + " after "@ + decimal(*timeout_secs as nat) + "s"@,
            NjallaError::Parse(_) => "Failed to parse response: "@ + detail,
            NjallaError::Config { message } => "Config error: "@ + message@,
        }
    }

    /// The message of the error, given the text of the error it wraps.
    pub fn message_with(&self, detail: &str) -> (s: String)
        ensures
            s@ == self.text(detail@),
    {
        match self {
            NjallaError::MissingToken => String::from_str(
                "No API token found. Set NJALLA_API_TOKEN or add api_token to ./config.toml",
            ),
            NjallaError::Request(_) => {
                let mut s = String::from_str("Request failed: ");
                s.append(detail);
                s
            },
            NjallaError::Api { message } => {
                let mut s = String::from_str("API error: ");
                s.append(message.as_str());
                s
            },
            NjallaError::DomainNotAvailable(reason) => {
                let mut s = String::from_str("Domain not available: ");
                s.append(reason.as_str());
                s
            },
            NjallaError::RegistrationTimeout { domain, timeout_secs } => {
                let mut s = String::from_str("Registration timeout for ");
                s.append(domain.as_str());
                s.append(" after ");
                let secs = decimal_string(*timeout_secs);
                s.append(secs.as_str());
                s.append("s");
                s
            },
            NjallaError::Parse(_) => {
                let mut s = String::from_str("Failed to parse response: ");
                s.append(detail);
                s
            },
            NjallaError::Config { message } => {
                let mut s = String::from_str("Config error: ");
                s.append(message.as_str());
                s
            },
        }
    }

    /// The message of the error, as it is shown to the user.
    pub fn to_string(&self) -> (s: String)
        ensures
            exists|detail: Seq<char>| s@ == self.text(detail),
            !self.has_detail() ==> s@ == self.text(Seq::empty()),
    {
        let s = match self {
            NjallaError::Request(e) => {
                let detail = transport_error_text(e);
                self.message_with(detail.as_str())
            },
            NjallaError::Parse(e) => {
                let detail = parse_error_text(e);
                self.message_with(detail.as_str())
            },
            _ => self.message_with(""),
        };
        proof {
            if !self.has_detail() {
                assert(s@ == self.text(Seq::empty()));
            }
        }
        s
    }
}

impl From<bitreq::Error> for NjallaError {
    fn from(err: bitreq::Error) -> (e: NjallaError) {
        NjallaError::Request(err)
    }
}

impl vstd::std_specs::convert::FromSpecImpl<bitreq::Error> for NjallaError {
    open spec fn obeys_from_spec() -> bool {
        true
    }

    open spec fn from_spec(err: bitreq::Error) -> NjallaError {
        NjallaError::Request(err)
    }
}

impl From<serde_json::Error> for NjallaError {
    fn from(err: serde_json::Error) -> (e: NjallaError) {
        NjallaError::Parse(err)
    }
}

impl vstd::std_specs::convert::FromSpecImpl<serde_json::Error> for NjallaError {
    open spec fn obeys_from_spec() -> bool {
        true
    }

    open spec fn from_spec(err: serde_json::Error) -> NjallaError {
        NjallaError::Parse(err)
    }
}

} // verus!
