//! The plugin store's protocol: endpoints, credentials and how each reply
//! is judged.

use vstd::prelude::*;
use crate::text::{opt_view, str_eq};

verus! {

broadcast use vstd::string::group_string_axioms;

/// The service name under which the session token is kept in the system
/// credential store; the account is the user's email.
pub const CREDENTIAL_SERVICE: &'static str = "plugin-cli";

/// The `User-Agent` header sent with every request.
pub const USER_AGENT: &'static str = "plugin-cli";

/// The store that is used when no remote is given.
pub const DEFAULT_REMOTE: &'static str = "http://localhost:5000";

/// Marker: a client whose session token is known to be stored.
pub struct LoggedIn;

/// Marker: a client that has not logged in yet.
pub struct NotLoggedIn;

/// What can go wrong while talking to the store.
#[derive(Debug, Clone)]
pub enum ClientError {
    LoginFailed,
    NotLoggedIn,
    InvalidCredentials,
    PublishFailed(String),
    Other,
}

/// The text of each error, as the user sees it.
pub open spec fn spec_error_message(e: ClientError) -> Seq<char> {
    match e {
        ClientError::LoginFailed => "Login failed"@,
        ClientError::NotLoggedIn => "Not logged in"@,
        ClientError::InvalidCredentials => "Invalid credentials or token expired"@,
        ClientError::PublishFailed(m) => "Publish plugin failed: "@ + m@,
        ClientError::Other => "Other error"@,
    }
}

impl ClientError {
    /// The error's text.
    pub fn message(&self) -> (r: String)
        ensures
            r@ == spec_error_message(*self),
    {
        match self {
            ClientError::LoginFailed => "Login failed".to_owned(),
            ClientError::NotLoggedIn => "Not logged in".to_owned(),
            ClientError::InvalidCredentials => "Invalid credentials or token expired".to_owned(),
            ClientError::PublishFailed(m) => {
                let mut s = "Publish plugin failed: ".to_owned();
                s.append(m.as_str());
                s
            },
            ClientError::Other => "Other error".to_owned(),
        }
    }
}

/// The body of the store's reply to a publish request.
#[derive(Debug, Clone)]
pub struct StoreApiResponse {
    pub success: Option<bool>,
    pub error: Option<String>,
}

/// The store remote: the one given, else the default.
pub fn remote_or_default(remote: Option<String>) -> (r: String)
    ensures
        r@ == match remote {
            Some(s) => s@,
            None => DEFAULT_REMOTE@,
        },
{
    match remote {
        Some(s) => s,
        None => DEFAULT_REMOTE.to_owned(),
    }
}

/// The login endpoint of a store.
pub fn login_url(remote: &str) -> (r: String)
    ensures
        r@ == remote@ + "/api/rest/auth/login"@,
{
    let mut s = remote.to_owned();
    s.append("/api/rest/auth/login");
    s
}

/// The publish endpoint of a store.
pub fn publish_url(remote: &str) -> (r: String)
    ensures
        r@ == remote@ + "/api/rest/plugin/publish"@,
{
    let mut s = remote.to_owned();
    s.append("/api/rest/plugin/publish");
    s
}

/// The `Cookie` header that carries a session token.
pub fn session_cookie(token: &str) -> (r: String)
    ensures
        r@ == "plugin-store-session="@ + token@,
{
    let mut s = "plugin-store-session=".to_owned();
    s.append(token);
    s
}

/// Logging in without a password succeeds exactly when a session token is
/// stored for the user.
pub fn login_with_stored_token(token_found: bool) -> (r: Result<LoggedIn, ClientError>)
    ensures
        r is Ok <==> token_found,
        r matches Err(e) ==> e == ClientError::LoginFailed,
{
    if token_found {
        Ok(LoggedIn)
    } else {
        Err(ClientError::LoginFailed)
    }
}

/// The session token that a login reply carries: the body of a successful
/// reply, unless it is empty.
pub fn login_reply_token(status_success: bool, body: String) -> (r: Result<String, ClientError>)
    ensures
        r is Ok <==> status_success && body@.len() > 0,
        r matches Ok(t) ==> t == body,
        r matches Err(e) ==> e == ClientError::LoginFailed,
{
    if !status_success {
        return Err(ClientError::LoginFailed);
    }
    if body.as_str().is_empty() {
        return Err(ClientError::LoginFailed);
    }
    Ok(body)
}

/// The token to publish with: without a stored token the client is not
/// logged in.
pub fn publish_token(stored: Option<String>) -> (r: Result<String, ClientError>)
    ensures
        r is Ok <==> stored is Some,
        r matches Ok(t) ==> stored == Some(t),
        r matches Err(e) ==> e == ClientError::NotLoggedIn,
{
    match stored {
        Some(t) => Ok(t),
        None => Err(ClientError::NotLoggedIn),
    }
}

/// Logging out succeeds exactly when the stored token could be deleted.
pub fn logout_outcome(deleted: bool) -> (r: Result<NotLoggedIn, ClientError>)
    ensures
        r is Ok <==> deleted,
        r matches Err(e) ==> e == ClientError::NotLoggedIn,
{
    if deleted {
        Ok(NotLoggedIn)
    } else {
        Err(ClientError::NotLoggedIn)
    }
}

/// How a publish reply is judged, and whether the stored token must be
/// forgotten because the store no longer accepts it.
pub open spec fn spec_publish_verdict(
    success: Option<bool>,
    error: Option<Seq<char>>,
    result: Result<(), ClientError>,
    forget_token: bool,
) -> bool {
    match error {
        Some(e) => if e == "unauthorized"@ {
            result == Err::<(), ClientError>(ClientError::InvalidCredentials) && forget_token
        } else {
            &&& result matches Err(ClientError::PublishFailed(m)) && m@ == e
            &&& !forget_token
        },
        None => {
            &&& !forget_token
            &&& match success {
                Some(true) => result is Ok,
                Some(false) => result matches Err(ClientError::PublishFailed(m)) && m@
                    == "Unknown error"@,
                None => result == Err::<(), ClientError>(ClientError::Other),
            }
        },
    }
}

/// Judges the store's reply to a publish request: an error named in the
/// reply wins over the success flag; "unauthorized" means the session token
/// is no longer valid.
pub fn publish_verdict(reply: &StoreApiResponse) -> (r: (Result<(), ClientError>, bool))
    ensures
        spec_publish_verdict(reply.success, opt_view(reply.error), r.0, r.1),
{
    match &reply.error {
        Some(e) => {
            if str_eq(e.as_str(), "unauthorized") {
                (Err(ClientError::InvalidCredentials), true)
            } else {
                (Err(ClientError::PublishFailed(e.clone())), false)
            }
        },
        None => match reply.success {
            Some(true) => (Ok(()), false),
            Some(false) => (Err(ClientError::PublishFailed("Unknown error".to_owned())), false),
            None => (Err(ClientError::Other), false),
        },
    }
}

/// An "unauthorized" reply always means invalid credentials and drops the
/// stored token, whatever its success flag; any other error in the reply is
/// reported as a failed publish with that text, whatever its success flag;
/// the token is dropped for no other reply; and a publish succeeds exactly
/// when the reply has no error and its success flag is true.
pub proof fn publish_verdict_laws(
    success: Option<bool>,
    error: Option<Seq<char>>,
    result: Result<(), ClientError>,
    forget_token: bool,
)
    requires
        spec_publish_verdict(success, error, result, forget_token),
    ensures
        error == Some("unauthorized"@) ==> (result == Err::<(), ClientError>(
            ClientError::InvalidCredentials,
        ) && forget_token),
        (error is Some && error->0 != "unauthorized"@) ==> (result is Err && result->Err_0 is PublishFailed
            && result->Err_0->PublishFailed_0@ == error->0),
        forget_token ==> error == Some("unauthorized"@),
        result is Ok <==> (error is None && success == Some(true)),
{
}

} // verus!
