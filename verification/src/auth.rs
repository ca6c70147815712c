//! What the engine needs of authentication: the header it attaches to each
//! request, and the sign-in state the application starts in.
//!
//! Signing and the clock are the caller's: they are handed in as text.

use crate::error::RemoteAccessError;
use vstd::prelude::*;
use vstd::string::StringExecFns;

verus! {

/// The account the client is signed in as.
#[derive(Debug, Clone)]
pub struct User {
    pub id: String,
    pub username: String,
    pub admin: bool,
    pub display_name: String,
    pub profile_picture: String,
}

/// Whether the client is signed in, and if not, why not.
#[derive(Debug, Clone, Copy, PartialEq, Eq, Structural)]
pub enum AppStatus {
    NotConfigured,
    Offline,
    ServerError,
    SignedOut,
    SignedIn,
    SignedInNeedsReauth,
    ServerUnavailable,
}

/// The value of the `Authorization` header for one request.
pub open spec fn spec_authorization_header(
    client_id: Seq<char>,
    nonce: Seq<char>,
    signature: Seq<char>,
) -> Seq<char> {
    "Nonce "@ + client_id + " "@ + nonce + " "@ + signature
}

/// The value of the `Authorization` header for one request: the word
/// `Nonce`, the client's id, the nonce and the signature of the nonce, each
/// separated from the next by one space.
pub fn generate_authorization_header(client_id: &String, nonce: &String, signature: &String) -> (header:
    String)
    ensures
        header@ == spec_authorization_header(client_id@, nonce@, signature@),
{
    let mut header = String::from_str("Nonce ");
    header.append(client_id.as_str());
    header.append(" ");
    header.append(nonce.as_str());
    header.append(" ");
    header.append(signature.as_str());
    header
}

/// The state the application starts in.
///
/// `fetched` is `None` where no credentials are stored, and otherwise what
/// asking the server for the user returned. Without credentials the client is
/// signed out. With them it is signed in if the user came back; if the server
/// could not be reached it is unavailable; any other failure means the
/// credentials have to be renewed.
pub fn setup(fetched: Option<Result<User, RemoteAccessError>>) -> (state: (AppStatus, Option<User>))
    ensures
        fetched is None ==> state == (AppStatus::SignedOut, None::<User>),
        fetched matches Some(Ok(user)) ==> state == (AppStatus::SignedIn, Some(user)),
        fetched matches Some(Err(e)) ==> state == (
            if e is FetchError {
                AppStatus::ServerUnavailable
            } else {
                AppStatus::SignedInNeedsReauth
            },
            None::<User>,
        ),
{
    match fetched {
        None => (AppStatus::SignedOut, None),
        Some(Ok(user)) => (AppStatus::SignedIn, Some(user)),
        Some(Err(error)) => match error {
            RemoteAccessError::FetchError(_) => (AppStatus::ServerUnavailable, None),
            _ => (AppStatus::SignedInNeedsReauth, None),
        },
    }
}

/// The server's answer to a request for the signed-in user: any status but
/// 200 is an error that carries the status.
pub fn user_response(status: u16) -> (result: Result<(), RemoteAccessError>)
    ensures
        status == 200 ==> result is Ok,
        status != 200 ==> result == Err::<(), RemoteAccessError>(
            RemoteAccessError::InvalidCodeError(status),
        ),
{
    if status != 200 {
        return Err(RemoteAccessError::InvalidCodeError(status));
    }
    Ok(())
}

} // verus!
