//! The file-sync protocol of the Contents API: a GET of the current file
//! metadata strictly followed by one conditional PUT. The hash the GET
//! reports is the optimistic-concurrency token: it rides in the write
//! request when the file existed and is omitted when it did not, it is
//! fetched anew immediately before every write, and a write the remote
//! rejects surfaces as an error — at most one write per call, no hidden
//! retry that could mask a stale read.

use vstd::prelude::*;
use vstd::string::StringSliceAdditionalSpecFns;

use crate::http::{HttpOutcome, HttpOutcomeView};

verus! {

/// The committer recorded on every write this library plans.
pub const COMMITTER_NAME: &'static str = "Professor App";

/// The committer address recorded on every write this library plans.
pub const COMMITTER_EMAIL: &'static str = "app@thebeakers.com";

/// What a successful sync did to the file.
#[derive(Clone, Copy, Debug, PartialEq, Eq)]
pub enum SyncAction {
    Created,
    Updated,
}

/// The report of a successful sync call.
#[derive(Debug)]
pub struct SyncResult {
    pub path: String,
    pub action: SyncAction,
    pub commit_id: String,
}

/// Mathematical model of a `SyncResult`.
pub struct SyncResultView {
    pub path: Seq<char>,
    pub action: SyncAction,
    pub commit_id: Seq<char>,
}

impl View for SyncResult {
    type V = SyncResultView;

    open spec fn view(&self) -> SyncResultView {
        SyncResultView { path: self.path@, action: self.action, commit_id: self.commit_id@ }
    }
}

/// Why a sync call aborted; each carries the remote-provided message when
/// one could be decoded, and the raw text otherwise.
#[derive(Debug)]
pub enum SyncError {
    /// The GET failed; no write was attempted.
    GetFailed { detail: String },
    /// The write was rejected or its answer not understood.
    PutFailed { detail: String },
}

/// Mathematical model of a `SyncError`.
pub enum SyncErrorView {
    GetFailed { detail: Seq<char> },
    PutFailed { detail: Seq<char> },
}

impl View for SyncError {
    type V = SyncErrorView;

    open spec fn view(&self) -> SyncErrorView {
        match self {
            SyncError::GetFailed { detail } => SyncErrorView::GetFailed { detail: detail@ },
            SyncError::PutFailed { detail } => SyncErrorView::PutFailed { detail: detail@ },
        }
    }
}

/// The base64 text that the standard engine encodes a string to. A function
/// of the text alone, since the bytes encoded are the text's UTF-8 form.
pub uninterp spec fn b64_of(s: Seq<char>) -> Seq<char>;

/// Relies on base64's general_purpose::STANDARD engine: the standard
/// alphabet with padding, deterministic in the input bytes, four output
/// characters for every started triple of input bytes. Its length
/// calculation panics only when ceil(n/3)*4 overflows usize, and a str's
/// byte length is at most isize::MAX, so no argument reaches that.
#[verifier::external_body]
fn base64_encode(s: &str) -> (r: String)
    ensures
        r@ == b64_of(s@),
        r@.len() == 4 * ((s.spec_bytes().len() + 2) / 3),
{
    base64::Engine::encode(&base64::engine::general_purpose::STANDARD, s.as_bytes())
}

/// The "sha" field of a GET body, if the body decodes to an object carrying
/// one. A function of the body text alone.
pub uninterp spec fn sha_field_of(body: Seq<char>) -> Option<Seq<char>>;

/// Relies on serde_json::from_str and Value's get/as_str: the "sha" field
/// of the file metadata a GET returned.
#[verifier::external_body]
fn parse_sha_body(body: &str) -> (r: Option<String>)
    ensures
        r matches Some(s) ==> sha_field_of(body@) == Some(s@),
        r is None ==> sha_field_of(body@) is None,
{
    let v: serde_json::Value = serde_json::from_str(body).ok()?;
    Some(v.get("sha")?.as_str()?.to_string())
}

/// The "commit"."sha" field of a PUT body, if the body decodes to an object
/// carrying one. A function of the body text alone.
pub uninterp spec fn commit_sha_of(body: Seq<char>) -> Option<Seq<char>>;

/// Relies on serde_json::from_str and Value's get/as_str: the commit
/// identifier of the answer to a successful write.
#[verifier::external_body]
fn parse_commit_sha_body(body: &str) -> (r: Option<String>)
    ensures
        r matches Some(s) ==> commit_sha_of(body@) == Some(s@),
        r is None ==> commit_sha_of(body@) is None,
{
    let v: serde_json::Value = serde_json::from_str(body).ok()?;
    Some(v.get("commit")?.get("sha")?.as_str()?.to_string())
}

/// The "message" field of an error body, if the body decodes to an object
/// carrying one. A function of the body text alone.
pub uninterp spec fn error_message_of(body: Seq<char>) -> Option<Seq<char>>;

/// Relies on serde_json::from_str and Value's get/as_str: the
/// remote-provided message of an error answer.
#[verifier::external_body]
fn parse_error_message_body(body: &str) -> (r: Option<String>)
    ensures
        r matches Some(s) ==> error_message_of(body@) == Some(s@),
        r is None ==> error_message_of(body@) is None,
{
    let v: serde_json::Value = serde_json::from_str(body).ok()?;
    Some(v.get("message")?.as_str()?.to_string())
}

/// What the GET amounts to: the prior file's hash on 200, "no prior file"
/// on 404, and on everything else — another status, a 200 body without a
/// hash, a transport failure — an error that forbids the write.
pub open spec fn spec_get_result(o: HttpOutcomeView) -> Result<Option<Seq<char>>, SyncErrorView> {
    match o {
        HttpOutcomeView::TransportFailure { detail } => Err(SyncErrorView::GetFailed { detail }),
        HttpOutcomeView::Response { status, body } => {
            if status == 200 {
                match sha_field_of(body) {
                    Some(s) => Ok(Some(s)),
                    None => Err(SyncErrorView::GetFailed { detail: body }),
                }
            } else if status == 404 {
                Ok(None)
            } else {
                Err(SyncErrorView::GetFailed { detail: body })
            }
        },
    }
}

/// Classifies the answer to the GET that precedes every write.
pub fn classify_get_response(outcome: HttpOutcome) -> (r: Result<Option<String>, SyncError>)
    ensures
        r matches Ok(prior) ==> spec_get_result(outcome@) == Ok::<
            Option<Seq<char>>,
            SyncErrorView,
        >(prior.deep_view()),
        r matches Err(e) ==> spec_get_result(outcome@) == Err::<Option<Seq<char>>, SyncErrorView>(
            e@,
        ),
{
    match outcome {
        HttpOutcome::TransportFailure { detail } => Err(SyncError::GetFailed { detail }),
        HttpOutcome::Response { status, body } => {
            if status == 200 {
                match parse_sha_body(&body) {
                    Some(s) => Ok(Some(s)),
                    None => Err(SyncError::GetFailed { detail: body }),
                }
            } else if status == 404 {
                Ok(None)
            } else {
                Err(SyncError::GetFailed { detail: body })
            }
        },
    }
}

/// The write request the sync protocol sends: message, base64 content, the
/// prior hash iff the file existed, and the fixed committer.
#[derive(Debug)]
pub struct WriteRequest {
    pub message: String,
    pub content_b64: String,
    pub sha: Option<String>,
    pub committer_name: String,
    pub committer_email: String,
}

/// Mathematical model of a `WriteRequest`.
pub struct WriteRequestView {
    pub message: Seq<char>,
    pub content_b64: Seq<char>,
    pub sha: Option<Seq<char>>,
    pub committer_name: Seq<char>,
    pub committer_email: Seq<char>,
}

impl View for WriteRequest {
    type V = WriteRequestView;

    open spec fn view(&self) -> WriteRequestView {
        WriteRequestView {
            message: self.message@,
            content_b64: self.content_b64@,
            sha: self.sha.deep_view(),
            committer_name: self.committer_name@,
            committer_email: self.committer_email@,
        }
    }
}

impl WriteRequest {
    /// Whether this write carries a prior hash, i.e. will update rather
    /// than create.
    pub fn has_prior_sha(&self) -> (r: bool)
        ensures
            r == (self.sha is Some),
    {
        self.sha.is_some()
    }
}

/// Builds the write request: the content base64-encoded, the prior hash
/// included exactly when one is given.
pub fn build_write_request(message: String, content: &str, prior_sha: Option<String>) -> (r:
    WriteRequest)
    ensures
        r.message == message,
        r.content_b64@ == b64_of(content@),
        r.sha == prior_sha,
        r.committer_name@ == COMMITTER_NAME@,
        r.committer_email@ == COMMITTER_EMAIL@,
{
    WriteRequest {
        message,
        content_b64: base64_encode(content),
        sha: prior_sha,
        committer_name: COMMITTER_NAME.to_owned(),
        committer_email: COMMITTER_EMAIL.to_owned(),
    }
}

/// The write request that a GET outcome leads to, or the error that stops
/// the call before any write.
pub open spec fn spec_plan_write(
    o: HttpOutcomeView,
    message: Seq<char>,
    content: Seq<char>,
) -> Result<WriteRequestView, SyncErrorView> {
    match spec_get_result(o) {
        Ok(prior) => Ok(
            WriteRequestView {
                message,
                content_b64: b64_of(content),
                sha: prior,
                committer_name: COMMITTER_NAME@,
                committer_email: COMMITTER_EMAIL@,
            },
        ),
        Err(e) => Err(e),
    }
}

/// Turns the answer to this call's GET into the one write request the call
/// may send, or into the error that aborts it with no write attempted.
pub fn plan_write(get_outcome: HttpOutcome, message: String, content: &str) -> (r: Result<
    WriteRequest,
    SyncError,
>)
    ensures
        r matches Ok(w) ==> spec_plan_write(get_outcome@, message@, content@) == Ok::<
            WriteRequestView,
            SyncErrorView,
        >(w@),
        r matches Err(e) ==> spec_plan_write(get_outcome@, message@, content@) == Err::<
            WriteRequestView,
            SyncErrorView,
        >(e@),
{
    match classify_get_response(get_outcome) {
        Ok(prior) => Ok(build_write_request(message, content, prior)),
        Err(e) => Err(e),
    }
}

/// What the PUT amounts to: on 200 or 201 with a commit identifier, the
/// report — `updated` iff a prior hash was sent, else `created`; on
/// everything else an error carrying the decoded remote message when there
/// is one and the raw text otherwise.
pub open spec fn spec_put_result(
    path: Seq<char>,
    had_prior_sha: bool,
    o: HttpOutcomeView,
) -> Result<SyncResultView, SyncErrorView> {
    match o {
        HttpOutcomeView::TransportFailure { detail } => Err(SyncErrorView::PutFailed { detail }),
        HttpOutcomeView::Response { status, body } => {
            if status == 200 || status == 201 {
                match commit_sha_of(body) {
                    Some(sha) => Ok(
                        SyncResultView {
                            path,
                            action: if had_prior_sha {
                                SyncAction::Updated
                            } else {
                                SyncAction::Created
                            },
                            commit_id: sha,
                        },
                    ),
                    None => Err(SyncErrorView::PutFailed { detail: body }),
                }
            } else {
                match error_message_of(body) {
                    Some(m) => Err(SyncErrorView::PutFailed { detail: m }),
                    None => Err(SyncErrorView::PutFailed { detail: body }),
                }
            }
        },
    }
}

/// Classifies the answer to the write. `had_prior_sha` is whether the
/// request sent carried a hash, which decides `created` against `updated`;
/// any rejection — a hash mismatch among them — comes back as an error and
/// changes nothing.
pub fn classify_put_response(path: String, had_prior_sha: bool, outcome: HttpOutcome) -> (r: Result<
    SyncResult,
    SyncError,
>)
    ensures
        r matches Ok(res) ==> spec_put_result(path@, had_prior_sha, outcome@) == Ok::<
            SyncResultView,
            SyncErrorView,
        >(res@),
        r matches Err(e) ==> spec_put_result(path@, had_prior_sha, outcome@) == Err::<
            SyncResultView,
            SyncErrorView,
        >(e@),
        r matches Ok(res) ==> (res.action == SyncAction::Updated <==> had_prior_sha),
{
    match outcome {
        HttpOutcome::TransportFailure { detail } => Err(SyncError::PutFailed { detail }),
        HttpOutcome::Response { status, body } => {
            if status == 200 || status == 201 {
                match parse_commit_sha_body(&body) {
                    Some(sha) => Ok(
                        SyncResult {
                            path,
                            action: if had_prior_sha {
                                SyncAction::Updated
                            } else {
                                SyncAction::Created
                            },
                            commit_id: sha,
                        },
                    ),
                    None => Err(SyncError::PutFailed { detail: body }),
                }
            } else {
                match parse_error_message_body(&body) {
                    Some(m) => Err(SyncError::PutFailed { detail: m }),
                    None => Err(SyncError::PutFailed { detail: body }),
                }
            }
        },
    }
}

/// Law: every write plan takes its hash from the GET of the same call —
/// when a plan comes out, its `sha` is exactly the prior hash that this
/// call's GET reported. A repeated sync therefore never reuses an earlier
/// call's hash: its plan is a function of its own, fresh GET alone.
pub proof fn lemma_write_plan_uses_fresh_hash(
    o: HttpOutcomeView,
    message: Seq<char>,
    content: Seq<char>,
)
    ensures
        spec_plan_write(o, message, content) matches Ok(w) ==> spec_get_result(o) == Ok::<
            Option<Seq<char>>,
            SyncErrorView,
        >(w.sha),
{
}

/// Law: a path with no prior file is written without a hash, and a
/// successful write of such a request reports `created`.
pub proof fn lemma_create_when_no_prior_file(
    get: HttpOutcomeView,
    put: HttpOutcomeView,
    path: Seq<char>,
    message: Seq<char>,
    content: Seq<char>,
)
    requires
        spec_get_result(get) == Ok::<Option<Seq<char>>, SyncErrorView>(None::<Seq<char>>),
    ensures
        spec_plan_write(get, message, content) matches Ok(w) && w.sha is None,
        spec_put_result(path, false, put) matches Ok(res) ==> res.action == SyncAction::Created,
{
}

/// Law: a path with a prior file is written with that file's hash in the
/// request; a successful write then reports `updated`, and a rejected one
/// — a hash mismatch among them — yields an error and no result.
pub proof fn lemma_update_carries_prior_hash(
    get: HttpOutcomeView,
    put: HttpOutcomeView,
    path: Seq<char>,
    message: Seq<char>,
    content: Seq<char>,
    prior: Seq<char>,
)
    requires
        spec_get_result(get) == Ok::<Option<Seq<char>>, SyncErrorView>(Some(prior)),
    ensures
        spec_plan_write(get, message, content) matches Ok(w) && w.sha == Some(prior),
        spec_put_result(path, true, put) matches Ok(res) ==> res.action == SyncAction::Updated,
        put matches HttpOutcomeView::Response { status, .. } && !(status == 200 || status == 201)
            ==> spec_put_result(path, true, put) is Err,
{
}

} // verus!
