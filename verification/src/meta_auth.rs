use vstd::prelude::*;

use crate::error::ErrorCode;

verus! {

/// The authenticated identity a verified token carries.
#[derive(Debug, PartialEq, Eq)]
pub struct GrpcClaim {
    pub username: String,
}

/// The handshake's authentication decision: only the administrative
/// user is accepted and receives a claim under that name; anyone else
/// is refused with their name recorded in the error. Minting and
/// verifying the token itself are outside collaborators.
pub fn handshake_auth(username: &str) -> (r: Result<GrpcClaim, ErrorCode>)
    ensures
        username@ == "root"@ ==> (r matches Ok(c) && c.username@ == username@),
        username@ != "root"@ ==> (r matches Err(e) && e matches ErrorCode::Unauthenticated(u)
            && u@ == username@),
{
    let user = username.to_owned();
    let root = String::from_str("root");
    if user == root {
        Ok(GrpcClaim { username: user })
    } else {
        Err(ErrorCode::Unauthenticated(user))
    }
}

/// The token presence check made before any authenticated request is
/// interpreted: a request without a token is refused outright.
pub fn check_token_present(token: Option<String>) -> (r: Result<String, ErrorCode>)
    ensures
        token matches Some(t) ==> (r matches Ok(t2) && t2 == t),
        token is None ==> (r matches Err(e) && e matches ErrorCode::Unauthenticated(m) && m@
            == "Error auth-token-bin is empty"@),
{
    match token {
        Some(t) => Ok(t),
        None => Err(
            ErrorCode::Unauthenticated(String::from_str("Error auth-token-bin is empty")),
        ),
    }
}

} // verus!
