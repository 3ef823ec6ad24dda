//! Device authorization: turning the device-code endpoint's answer into a
//! `GithubDeviceCodeResponse`, and deriving from it the configuration that
//! the token poller runs with. The poll interval is floored at five seconds
//! so that a provider answering with a smaller value is never hammered.

use vstd::prelude::*;

use crate::http::{spec_is_success, HttpOutcome, HttpOutcomeView, is_success_status};

verus! {

/// The client identifier this application registered with GitHub.
pub const GITHUB_CLIENT_ID: &'static str = "Ov23liELuI9vWwtgYC5f";

/// The smallest inter-cycle pause, in seconds, the poller may use.
pub const MIN_POLL_INTERVAL_SECS: u64 = 5;

/// The five fields of a successful device-code response.
#[derive(Debug)]
pub struct GithubDeviceCodeResponse {
    pub device_code: String,
    pub user_code: String,
    pub verification_uri: String,
    /// Seconds, relative to issuance, after which the grant expires.
    pub expires_in: u32,
    /// Seconds of minimum spacing between poll cycles.
    pub interval: u32,
}

/// Mathematical model of a `GithubDeviceCodeResponse`.
pub struct DeviceCodeView {
    pub device_code: Seq<char>,
    pub user_code: Seq<char>,
    pub verification_uri: Seq<char>,
    pub expires_in: u32,
    pub interval: u32,
}

impl View for GithubDeviceCodeResponse {
    type V = DeviceCodeView;

    open spec fn view(&self) -> DeviceCodeView {
        DeviceCodeView {
            device_code: self.device_code@,
            user_code: self.user_code@,
            verification_uri: self.verification_uri@,
            expires_in: self.expires_in,
            interval: self.interval,
        }
    }
}

impl GithubDeviceCodeResponse {
    /// A field-for-field copy; `Clone` derived on a type with `String`
    /// fields would say nothing about the copy in contracts.
    pub fn duplicate(&self) -> (r: Self)
        ensures
            r@ == self@,
    {
        GithubDeviceCodeResponse {
            device_code: self.device_code.clone(),
            user_code: self.user_code.clone(),
            verification_uri: self.verification_uri.clone(),
            expires_in: self.expires_in,
            interval: self.interval,
        }
    }
}

/// Why an authorization step failed.
#[derive(Debug)]
pub enum AuthError {
    /// No token has been obtained yet; the operation needs one.
    NotAuthenticated,
    /// The device-code request failed; carries the raw response or
    /// transport diagnostic for the caller to display.
    DeviceCodeRequest { body: String },
}

/// Mathematical model of an `AuthError`.
pub enum AuthErrorView {
    NotAuthenticated,
    DeviceCodeRequest { body: Seq<char> },
}

impl View for AuthError {
    type V = AuthErrorView;

    open spec fn view(&self) -> AuthErrorView {
        match self {
            AuthError::NotAuthenticated => AuthErrorView::NotAuthenticated,
            AuthError::DeviceCodeRequest { body } => AuthErrorView::DeviceCodeRequest {
                body: body@,
            },
        }
    }
}

/// The five fields that the device-code endpoint's body decodes to, if it
/// decodes at all. A function of the body text alone.
pub uninterp spec fn device_fields_of(body: Seq<char>) -> Option<DeviceCodeView>;

/// Relies on serde_json::from_str and serde_json::Value's get/as_str/as_u64:
/// decodes the five device-code fields out of a JSON body.
#[verifier::external_body]
fn parse_device_code_body(body: &str) -> (r: Option<GithubDeviceCodeResponse>)
    ensures
        r matches Some(c) ==> device_fields_of(body@) == Some(c@),
        r is None ==> device_fields_of(body@) is None,
{
    let v: serde_json::Value = serde_json::from_str(body).ok()?;
    Some(GithubDeviceCodeResponse {
        device_code: v.get("device_code")?.as_str()?.to_string(),
        user_code: v.get("user_code")?.as_str()?.to_string(),
        verification_uri: v.get("verification_uri")?.as_str()?.to_string(),
        expires_in: u32::try_from(v.get("expires_in")?.as_u64()?).ok()?,
        interval: u32::try_from(v.get("interval")?.as_u64()?).ok()?,
    })
}

/// The interval floored at `MIN_POLL_INTERVAL_SECS`.
pub open spec fn spec_floor_interval(interval: u32) -> u32 {
    if interval < MIN_POLL_INTERVAL_SECS as u32 {
        MIN_POLL_INTERVAL_SECS as u32
    } else {
        interval
    }
}

/// The context with its interval floored.
pub open spec fn spec_with_floor(f: DeviceCodeView) -> DeviceCodeView {
    DeviceCodeView { interval: spec_floor_interval(f.interval), ..f }
}

/// What the device-code requester returns for a given outcome of its one
/// POST: the decoded context (interval floored) on a decodable 2xx answer,
/// and otherwise an error carrying the raw text.
pub open spec fn spec_device_code_result(o: HttpOutcomeView) -> Result<
    DeviceCodeView,
    AuthErrorView,
> {
    match o {
        HttpOutcomeView::TransportFailure { detail } => Err(
            AuthErrorView::DeviceCodeRequest { body: detail },
        ),
        HttpOutcomeView::Response { status, body } => {
            if !spec_is_success(status) {
                Err(AuthErrorView::DeviceCodeRequest { body })
            } else {
                match device_fields_of(body) {
                    Some(f) => Ok(spec_with_floor(f)),
                    None => Err(AuthErrorView::DeviceCodeRequest { body }),
                }
            }
        },
    }
}

/// Classifies the device-code endpoint's answer. A 2xx response whose body
/// decodes yields the authorization context, its interval floored at five
/// seconds; any other response, a body that does not decode, and a
/// transport failure yield an error carrying the raw text.
pub fn handle_device_code_response(outcome: HttpOutcome) -> (r: Result<
    GithubDeviceCodeResponse,
    AuthError,
>)
    ensures
        r matches Ok(c) ==> spec_device_code_result(outcome@) == Ok::<
            DeviceCodeView,
            AuthErrorView,
        >(c@),
        r matches Err(e) ==> spec_device_code_result(outcome@) == Err::<
            DeviceCodeView,
            AuthErrorView,
        >(e@),
        r matches Ok(c) ==> c.interval >= MIN_POLL_INTERVAL_SECS,
{
    match outcome {
        HttpOutcome::TransportFailure { detail } => Err(
            AuthError::DeviceCodeRequest { body: detail },
        ),
        HttpOutcome::Response { status, body } => {
            if !is_success_status(status) {
                return Err(AuthError::DeviceCodeRequest { body });
            }
            match parse_device_code_body(&body) {
                Some(mut c) => {
                    if c.interval < MIN_POLL_INTERVAL_SECS as u32 {
                        c.interval = MIN_POLL_INTERVAL_SECS as u32;
                    }
                    Ok(c)
                },
                None => Err(AuthError::DeviceCodeRequest { body }),
            }
        },
    }
}

/// What the token poller runs with: the endpoint credentials, the pause
/// between cycles and the overall deadline.
#[derive(Debug)]
pub struct GitHubConfig {
    pub client_id: String,
    pub device_code: String,
    /// Seconds between poll cycles; at least `MIN_POLL_INTERVAL_SECS`.
    pub interval: u64,
    /// Seconds, from issuance of the device code, until the grant expires.
    pub expires_in: u32,
}

impl GitHubConfig {
    /// Builds the poller's configuration from a device-code response,
    /// flooring the interval at five seconds even if the provider answered
    /// with less.
    pub fn new(device_code_response: GithubDeviceCodeResponse) -> (c: Self)
        ensures
            c.client_id@ == GITHUB_CLIENT_ID@,
            c.device_code@ == device_code_response.device_code@,
            c.expires_in == device_code_response.expires_in,
            c.interval == spec_floor_interval(device_code_response.interval) as u64,
            c.interval >= MIN_POLL_INTERVAL_SECS,
    {
        let interval: u64 = if device_code_response.interval < MIN_POLL_INTERVAL_SECS as u32 {
            MIN_POLL_INTERVAL_SECS
        } else {
            device_code_response.interval as u64
        };
        GitHubConfig {
            client_id: GITHUB_CLIENT_ID.to_owned(),
            device_code: device_code_response.device_code,
            interval,
            expires_in: device_code_response.expires_in,
        }
    }
}

} // verus!
