//! Plain-value model of one HTTP exchange. The transport layer performs the
//! request and hands the library either the status and body that came back,
//! or the text of the transport failure; every classification in this
//! library is a function of such an outcome.

use vstd::prelude::*;

verus! {

/// What one HTTP request produced, as plain values.
#[derive(Debug)]
pub enum HttpOutcome {
    /// A response arrived: its status code and its body text.
    Response { status: u16, body: String },
    /// No response arrived; the transport reported this diagnostic text.
    TransportFailure { detail: String },
}

/// Mathematical model of an `HttpOutcome`.
pub enum HttpOutcomeView {
    Response { status: u16, body: Seq<char> },
    TransportFailure { detail: Seq<char> },
}

impl View for HttpOutcome {
    type V = HttpOutcomeView;

    open spec fn view(&self) -> HttpOutcomeView {
        match self {
            HttpOutcome::Response { status, body } => HttpOutcomeView::Response {
                status: *status,
                body: body@,
            },
            HttpOutcome::TransportFailure { detail } => HttpOutcomeView::TransportFailure {
                detail: detail@,
            },
        }
    }
}

/// The 2xx range: the request was accepted.
pub open spec fn spec_is_success(status: u16) -> bool {
    200 <= status < 300
}

/// Whether a status code lies in the 2xx range.
pub fn is_success_status(status: u16) -> (r: bool)
    ensures
        r == spec_is_success(status),
{
    200 <= status && status < 300
}

} // verus!
