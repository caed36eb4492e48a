//! The errors of the library, one enum per stage.
use vstd::prelude::*;

verus! {

/// Errors of the per-user client operations.
#[derive(Debug, Clone)]
pub enum ClientError {
    /// Signing up at the homeserver failed.
    FailedToSignup(AuthError),
    /// Logging in at the homeserver failed.
    FailedToLogin(AuthError),
    /// Logging out from the homeserver failed.
    FailedToLogout(AuthError),
    /// Fetching the session from the homeserver failed.
    FailedToRetrieveSession(AuthError),
    /// Creating a repository failed.
    FailedToCreateRepository(HTTPError),
    /// Storing data in a repository failed.
    FailedToStoreData(HTTPError),
    /// Fetching data from a repository failed.
    FailedToRetrieveData(HTTPError),
    /// Deleting data from a repository failed.
    FailedToDeleteData(HTTPError),
    /// The user has no session with this client.
    UserNotSignedUp,
    /// The input cannot form a valid URL.
    InvalidInputForUrl,
}

/// Errors of the authentication handshake and of the session calls.
#[derive(Debug, Clone)]
pub enum AuthError {
    /// Fetching the challenge failed.
    FailedToGetChallenge(HTTPError),
    /// Sending the signed challenge failed.
    FailedToSendUserSignature(HTTPError),
    /// Resolving the homeserver failed.
    FailedToResolveHomeserver(DHTError),
    /// Publishing the homeserver record failed.
    FailedToPublishHomeserver(DHTError),
    /// Fetching the session failed.
    FailedToRetrieveSession(HTTPError),
    /// No homeserver is known.
    NoHomeserver,
    /// No session is open.
    NoSession,
    /// The challenge had expired when it came.
    ChallengeExpired,
    /// Logging out failed.
    FailedToLogout(HTTPError),
}

/// Errors of one HTTP exchange.
#[derive(Debug, Clone)]
pub enum HTTPError {
    /// The request failed; the transport's message.
    RequestFailed(String),
    /// The response could not be read.
    ResponseParseFailed,
}

/// Reasons for which a challenge does not accept a signature.
#[derive(Debug, Clone, Copy, PartialEq, Eq, Structural)]
pub enum ChallengeError {
    /// The challenge has expired.
    Expired,
    /// The signature does not verify.
    InvalidSignature,
}

/// Errors of record lookup, publication and resolution.
#[derive(Debug, Clone)]
pub enum DHTError {
    /// No record set is stored for this key.
    EntryNotFound(String),
    /// The record set could not be stored.
    EntryNotPublished(String),
    /// The record set holds no usable record.
    NoRecordsFound,
    /// The record store client failed.
    PkarrError(String),
    /// The lookup itself failed.
    FailedToResolveHomeserverUrl(String),
    /// A record does not hold a valid URL.
    FailedToParseDnsRecordAsUrl,
}

/// Errors of path building.
#[derive(Debug, Clone, Copy, PartialEq, Eq, Structural)]
pub enum PathError {
    /// A path segment tries to leave its directory.
    InvalidPath,
}

impl From<PathError> for ClientError {
    fn from(e: PathError) -> (r: ClientError)
        ensures
            r is InvalidInputForUrl,
    {
        ClientError::InvalidInputForUrl
    }
}

impl vstd::std_specs::convert::FromSpecImpl<PathError> for ClientError {
    open spec fn obeys_from_spec() -> bool {
        true
    }

    open spec fn from_spec(e: PathError) -> ClientError {
        ClientError::InvalidInputForUrl
    }
}

} // verus!
