//! Classification of the token endpoint's answers. Each poll cycle's
//! response is reduced to one signal: a token, one of the two pacing
//! signals, expiry, or a terminal error — the closed set of GitHub's
//! device-flow error codes plus an explicit unknown case that carries the
//! raw diagnostic text.

use vstd::prelude::*;

use crate::http::{spec_is_success, HttpOutcome, HttpOutcomeView, is_success_status};

verus! {

/// The error codes of the device flow, plus `Unknown` for anything the
/// classification does not recognize (carrying raw diagnostic text).
#[derive(Debug)]
pub enum OAuthError {
    AuthorizationPending,
    SlowDown,
    ExpiredToken,
    UnsupportedGrantType,
    IncorrectClientCredentials,
    IncorrectDeviceCode,
    AccessDenied,
    DeviceFlowDisabled,
    Unknown(String),
}

/// Mathematical model of an `OAuthError`.
pub enum OAuthErrorView {
    AuthorizationPending,
    SlowDown,
    ExpiredToken,
    UnsupportedGrantType,
    IncorrectClientCredentials,
    IncorrectDeviceCode,
    AccessDenied,
    DeviceFlowDisabled,
    Unknown(Seq<char>),
}

impl View for OAuthError {
    type V = OAuthErrorView;

    open spec fn view(&self) -> OAuthErrorView {
        match self {
            OAuthError::AuthorizationPending => OAuthErrorView::AuthorizationPending,
            OAuthError::SlowDown => OAuthErrorView::SlowDown,
            OAuthError::ExpiredToken => OAuthErrorView::ExpiredToken,
            OAuthError::UnsupportedGrantType => OAuthErrorView::UnsupportedGrantType,
            OAuthError::IncorrectClientCredentials => OAuthErrorView::IncorrectClientCredentials,
            OAuthError::IncorrectDeviceCode => OAuthErrorView::IncorrectDeviceCode,
            OAuthError::AccessDenied => OAuthErrorView::AccessDenied,
            OAuthError::DeviceFlowDisabled => OAuthErrorView::DeviceFlowDisabled,
            OAuthError::Unknown(detail) => OAuthErrorView::Unknown(detail@),
        }
    }
}

/// The fields a token-endpoint body may carry; each is absent when the body
/// does not have it as a string (or, for the token, at all).
#[derive(Debug)]
pub struct OAuthResponse {
    pub access_token: Option<String>,
    pub token_type: Option<String>,
    pub scope: Option<String>,
    pub error: Option<String>,
    pub error_description: Option<String>,
}

/// Mathematical model of an `OAuthResponse`.
pub struct OAuthResponseView {
    pub access_token: Option<Seq<char>>,
    pub token_type: Option<Seq<char>>,
    pub scope: Option<Seq<char>>,
    pub error: Option<Seq<char>>,
    pub error_description: Option<Seq<char>>,
}

impl View for OAuthResponse {
    type V = OAuthResponseView;

    open spec fn view(&self) -> OAuthResponseView {
        OAuthResponseView {
            access_token: self.access_token.deep_view(),
            token_type: self.token_type.deep_view(),
            scope: self.scope.deep_view(),
            error: self.error.deep_view(),
            error_description: self.error_description.deep_view(),
        }
    }
}

/// The fields that the token endpoint's body decodes to, if it decodes at
/// all. A function of the body text alone.
pub uninterp spec fn oauth_fields_of(body: Seq<char>) -> Option<OAuthResponseView>;

/// Relies on serde_json::from_str and serde_json::Value's get/as_str:
/// decodes the token and error fields out of a JSON body.
#[verifier::external_body]
fn parse_oauth_body(body: &str) -> (r: Option<OAuthResponse>)
    ensures
        r matches Some(f) ==> oauth_fields_of(body@) == Some(f@),
        r is None ==> oauth_fields_of(body@) is None,
{
    let v: serde_json::Value = serde_json::from_str(body).ok()?;
    Some(OAuthResponse {
        access_token: v.get("access_token").and_then(|x| x.as_str()).map(|s| s.to_string()),
        token_type: v.get("token_type").and_then(|x| x.as_str()).map(|s| s.to_string()),
        scope: v.get("scope").and_then(|x| x.as_str()).map(|s| s.to_string()),
        error: v.get("error").and_then(|x| x.as_str()).map(|s| s.to_string()),
        error_description: v.get("error_description").and_then(|x| x.as_str()).map(
            |s| s.to_string(),
        ),
    })
}

/// What one poll cycle's response amounts to.
#[derive(Debug)]
pub enum PollSignal {
    /// The user approved; the bearer token.
    Token(String),
    /// The user has not decided yet; keep polling at the same pace.
    Pending,
    /// The provider asks for a slower pace; raise the interval, keep polling.
    SlowDown,
    /// The device code expired.
    Expired,
    /// A terminal failure; polling cannot resolve it.
    Fatal(OAuthError),
}

/// Mathematical model of a `PollSignal`.
pub enum PollSignalView {
    Token(Seq<char>),
    Pending,
    SlowDown,
    Expired,
    Fatal(OAuthErrorView),
}

impl View for PollSignal {
    type V = PollSignalView;

    open spec fn view(&self) -> PollSignalView {
        match self {
            PollSignal::Token(t) => PollSignalView::Token(t@),
            PollSignal::Pending => PollSignalView::Pending,
            PollSignal::SlowDown => PollSignalView::SlowDown,
            PollSignal::Expired => PollSignalView::Expired,
            PollSignal::Fatal(e) => PollSignalView::Fatal(e@),
        }
    }
}

/// The description, or empty when the body carried none.
pub open spec fn spec_description_or_empty(d: Option<Seq<char>>) -> Seq<char> {
    match d {
        Some(s) => s,
        None => Seq::empty(),
    }
}

/// The signal that decoded token-endpoint fields amount to: the token wins;
/// otherwise the error code decides; a body with neither is not understood,
/// so its raw text is carried as the diagnostic.
pub open spec fn spec_classify_fields(f: OAuthResponseView, body: Seq<char>) -> PollSignalView {
    match f.access_token {
        Some(t) => PollSignalView::Token(t),
        None => match f.error {
            None => PollSignalView::Fatal(OAuthErrorView::Unknown(body)),
            Some(code) => {
                if code == "authorization_pending"@ {
                    PollSignalView::Pending
                } else if code == "slow_down"@ {
                    PollSignalView::SlowDown
                } else if code == "expired_token"@ {
                    PollSignalView::Expired
                } else if code == "unsupported_grant_type"@ {
                    PollSignalView::Fatal(OAuthErrorView::UnsupportedGrantType)
                } else if code == "incorrect_client_credentials"@ {
                    PollSignalView::Fatal(OAuthErrorView::IncorrectClientCredentials)
                } else if code == "incorrect_device_code"@ {
                    PollSignalView::Fatal(OAuthErrorView::IncorrectDeviceCode)
                } else if code == "access_denied"@ {
                    PollSignalView::Fatal(OAuthErrorView::AccessDenied)
                } else if code == "device_flow_disabled"@ {
                    PollSignalView::Fatal(OAuthErrorView::DeviceFlowDisabled)
                } else {
                    PollSignalView::Fatal(
                        OAuthErrorView::Unknown(
                            code + ": "@ + spec_description_or_empty(f.error_description),
                        ),
                    )
                }
            },
        },
    }
}

/// The signal that one cycle's HTTP outcome amounts to: a non-2xx answer, a
/// body that does not decode, and a transport failure are all terminal
/// unknowns carrying the raw text; a decodable 2xx body is classified by
/// its fields.
pub open spec fn spec_classify_token_response(o: HttpOutcomeView) -> PollSignalView {
    match o {
        HttpOutcomeView::TransportFailure { detail } => PollSignalView::Fatal(
            OAuthErrorView::Unknown(detail),
        ),
        HttpOutcomeView::Response { status, body } => {
            if !spec_is_success(status) {
                PollSignalView::Fatal(OAuthErrorView::Unknown(body))
            } else {
                match oauth_fields_of(body) {
                    Some(f) => spec_classify_fields(f, body),
                    None => PollSignalView::Fatal(OAuthErrorView::Unknown(body)),
                }
            }
        },
    }
}

/// Whether an error code equals a known literal.
fn code_is(code: &String, lit: &str) -> (r: bool)
    ensures
        r == (code@ == lit@),
{
    let l: String = lit.to_owned();
    *code == l
}

/// Classifies already-decoded token-endpoint fields; `body` is the raw text
/// they came from, carried into the diagnostic when the fields say nothing
/// recognizable.
pub fn classify_fields(fields: OAuthResponse, body: String) -> (r: PollSignal)
    ensures
        r@ == spec_classify_fields(fields@, body@),
{
    if let Some(t) = fields.access_token {
        return PollSignal::Token(t);
    }
    match fields.error {
        None => PollSignal::Fatal(OAuthError::Unknown(body)),
        Some(code) => {
            if code_is(&code, "authorization_pending") {
                PollSignal::Pending
            } else if code_is(&code, "slow_down") {
                PollSignal::SlowDown
            } else if code_is(&code, "expired_token") {
                PollSignal::Expired
            } else if code_is(&code, "unsupported_grant_type") {
                PollSignal::Fatal(OAuthError::UnsupportedGrantType)
            } else if code_is(&code, "incorrect_client_credentials") {
                PollSignal::Fatal(OAuthError::IncorrectClientCredentials)
            } else if code_is(&code, "incorrect_device_code") {
                PollSignal::Fatal(OAuthError::IncorrectDeviceCode)
            } else if code_is(&code, "access_denied") {
                PollSignal::Fatal(OAuthError::AccessDenied)
            } else if code_is(&code, "device_flow_disabled") {
                PollSignal::Fatal(OAuthError::DeviceFlowDisabled)
            } else {
                let description: String = match fields.error_description {
                    Some(d) => d,
                    None => String::new(),
                };
                PollSignal::Fatal(
                    OAuthError::Unknown(code.concat(": ").concat(description.as_str())),
                )
            }
        },
    }
}

/// Classifies the token endpoint's answer to one poll cycle.
pub fn classify_token_response(outcome: HttpOutcome) -> (r: PollSignal)
    ensures
        r@ == spec_classify_token_response(outcome@),
{
    match outcome {
        HttpOutcome::TransportFailure { detail } => PollSignal::Fatal(OAuthError::Unknown(detail)),
        HttpOutcome::Response { status, body } => {
            if !is_success_status(status) {
                return PollSignal::Fatal(OAuthError::Unknown(body));
            }
            match parse_oauth_body(&body) {
                Some(fields) => classify_fields(fields, body),
                None => PollSignal::Fatal(OAuthError::Unknown(body)),
            }
        },
    }
}

} // verus!
