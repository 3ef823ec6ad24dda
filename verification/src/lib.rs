//! Verified core of a GitHub device-flow client: the device-authorization
//! polling state machine and the conditional-create/update file-sync
//! protocol of the Contents API. HTTP transport, the desktop shell and
//! local git helpers are unverified collaborators that feed plain values
//! into this library and carry its decisions out.

pub mod article;
pub mod device;
pub mod http;
pub mod oauth;
pub mod poller;
pub mod session;
pub mod sync;

pub use article::{Article, Author, GitHubFile, Image, Professor, Question};
pub use device::{AuthError, GitHubConfig, GithubDeviceCodeResponse};
pub use http::HttpOutcome;
pub use oauth::{OAuthError, OAuthResponse, PollSignal};
pub use poller::{Poller, PollerState};
pub use session::{Notification, SessionState};
pub use sync::{SyncAction, SyncError, SyncResult, WriteRequest};
