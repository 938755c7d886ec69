//! Credentials for the session-token publishing mode: a logged-in user's
//! bearer token and session token, held as plain strings.  The engine
//! never inspects them; they are carried to the request layer unchanged.

use vstd::prelude::*;

verus! {

/// Session-token credentials.
pub struct Token {
    /// The bearer token sent in the authorization header.
    pub token: String,
    /// The session token sent as the authentication cookie.
    pub auth_token: String,
}

impl Token {
    /// Bundles the two credential strings.
    pub fn new(token: String, auth_token: String) -> (t: Token)
        ensures
            t.token@ == token@,
            t.auth_token@ == auth_token@,
    {
        Token { token, auth_token }
    }
}

} // verus!
