//! The session: the one shared, mutable piece of this library. It holds the
//! in-flight authorization context and the obtained token, is owned by the
//! host and meant to sit behind a single mutual-exclusion boundary, and is
//! changed only through the methods here, each of which also yields the
//! notification the host forwards to its presentation layer.

use vstd::prelude::*;

use crate::device::{AuthError, GithubDeviceCodeResponse};

verus! {

/// What the host tells its presentation layer.
#[derive(Debug)]
pub enum Notification {
    /// An authorization started: the address and code to show the user.
    Started { verification_uri: String, user_code: String },
    /// An authorization ended; the token, or empty when it failed. No
    /// error detail travels on this channel — that goes to the direct
    /// caller instead.
    Responded { token: String },
}

/// Mathematical model of a `Notification`.
pub enum NotificationView {
    Started { verification_uri: Seq<char>, user_code: Seq<char> },
    Responded { token: Seq<char> },
}

impl View for Notification {
    type V = NotificationView;

    open spec fn view(&self) -> NotificationView {
        match self {
            Notification::Started { verification_uri, user_code } => NotificationView::Started {
                verification_uri: verification_uri@,
                user_code: user_code@,
            },
            Notification::Responded { token } => NotificationView::Responded { token: token@ },
        }
    }
}

/// The in-flight authorization context and the obtained token.
#[derive(Debug)]
pub struct SessionState {
    pub pending_context: Option<GithubDeviceCodeResponse>,
    pub access_token: Option<String>,
}

impl SessionState {
    /// The session's invariant: a stored token is never empty, since it is
    /// only ever stored by a successful poll cycle.
    pub open spec fn wf(self) -> bool {
        self.access_token matches Some(t) ==> t@.len() > 0
    }

    /// A session with nothing in flight and no token.
    pub fn new() -> (s: SessionState)
        ensures
            s.pending_context is None,
            s.access_token is None,
            s.wf(),
    {
        SessionState { pending_context: None, access_token: None }
    }

    /// Replaces whatever context was pending with this one — restarting
    /// authorization supersedes the old attempt — and yields the `Started`
    /// notification carrying the address and code to show the user.
    pub fn begin_authorization(&mut self, context: GithubDeviceCodeResponse) -> (n: Notification)
        ensures
            final(self).pending_context matches Some(c) && c@ == context@,
            final(self).access_token == old(self).access_token,
            n@ == (NotificationView::Started {
                verification_uri: context.verification_uri@,
                user_code: context.user_code@,
            }),
            old(self).wf() ==> final(self).wf(),
    {
        let n = Notification::Started {
            verification_uri: context.verification_uri.clone(),
            user_code: context.user_code.clone(),
        };
        self.pending_context = Some(context);
        n
    }

    /// Stores the token a successful poll obtained, clears the pending
    /// context, and yields the `Responded` notification carrying the token.
    pub fn complete_success(&mut self, token: String) -> (n: Notification)
        requires
            token@.len() > 0,
        ensures
            final(self).pending_context is None,
            final(self).access_token matches Some(t) && t@ == token@,
            n@ == (NotificationView::Responded { token: token@ }),
            final(self).wf(),
    {
        let n = Notification::Responded { token: token.clone() };
        self.pending_context = None;
        self.access_token = Some(token);
        n
    }

    /// Clears the pending context after a failed authorization and yields
    /// the `Responded` notification with an empty payload; the token, if
    /// one was obtained earlier, stays.
    pub fn complete_failure(&mut self) -> (n: Notification)
        ensures
            final(self).pending_context is None,
            final(self).access_token == old(self).access_token,
            n@ == (NotificationView::Responded { token: Seq::<char>::empty() }),
            old(self).wf() ==> final(self).wf(),
    {
        self.pending_context = None;
        Notification::Responded { token: String::new() }
    }

    /// Whether a pending context with a usable device code is in flight.
    pub fn pending_ready(&self) -> (r: bool)
        ensures
            r == (self.pending_context matches Some(c) && c.device_code@.len() > 0),
    {
        match &self.pending_context {
            Some(c) => !c.device_code.as_str().is_empty(),
            None => false,
        }
    }

    /// Whether a poller's context is still the current one; a poller for a
    /// superseded context must stop before issuing another request.
    pub fn is_current(&self, device_code: &String) -> (r: bool)
        ensures
            r == (self.pending_context matches Some(c) && c.device_code@ == device_code@),
    {
        match &self.pending_context {
            Some(c) => c.device_code == *device_code,
            None => false,
        }
    }

    /// The token for an operation that needs one. Fails fast with
    /// `NotAuthenticated` while no (non-empty) token is stored, rather than
    /// letting a request go out with an empty credential.
    pub fn current_token(&self) -> (r: Result<String, AuthError>)
        ensures
            r matches Ok(t) ==> self.access_token matches Some(s) && s@ == t@ && t@.len() > 0,
            r matches Err(e) ==> e is NotAuthenticated && !(self.access_token matches Some(s)
                && s@.len() > 0),
    {
        match &self.access_token {
            Some(t) => {
                if t.as_str().is_empty() {
                    Err(AuthError::NotAuthenticated)
                } else {
                    Ok(t.clone())
                }
            },
            None => Err(AuthError::NotAuthenticated),
        }
    }
}

} // verus!
