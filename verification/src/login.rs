//! The credential check behind the login route.

use vstd::prelude::*;
use crate::error::Error;

verus! {

/// What a client presents at login.
#[derive(Debug)]
pub struct LoginPayload {
    pub username: String,
    pub pwd: String,
}

/// The one pair of credentials that is accepted.
pub open spec fn accepted(username: Seq<char>, pwd: Seq<char>) -> bool {
    username == "demo1"@ && pwd == "welcome"@
}

/// The token that a successful login is given, in the form
/// `user-[user-id].[expiration].[signature]`.
pub open spec fn auth_token() -> Seq<char> {
    "user-1.exp.signature"@
}

/// Checks the credentials. An accepted pair is answered with the token to
/// hand to the client, any other with `LoginFail`.
pub fn api_login(payload: &LoginPayload) -> (r: Result<String, Error>)
    ensures
        match r {
            Ok(token) => accepted(payload.username@, payload.pwd@) && token@ == auth_token(),
            Err(e) => !accepted(payload.username@, payload.pwd@) && e == Error::LoginFail,
        },
{
    let username = "demo1".to_owned();
    let pwd = "welcome".to_owned();
    if !(payload.username == username) || !(payload.pwd == pwd) {
        return Err(Error::LoginFail);
    }
    Ok("user-1.exp.signature".to_owned())
}

} // verus!
