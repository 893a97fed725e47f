//! Who may call which route: node routes need the node manager password, user
//! routes an access token.
use vstd::prelude::*;
use vstd::string::*;

use crate::errors::{AuthError, STATUS_UNAUTHORIZED};
use crate::text::{opt_str, str_eq};
use crate::types::{NodeManager, UserCredentials};

verus! {

/// Name of the cookie that may carry the node manager password.
pub const NODE_MANAGER_PASSWORD_COOKIE: &'static str = "nodeManagerPassword";

/// Name of the header that may carry the node manager password.
pub const NODE_MANAGER_PASSWORD_HEADER: &'static str = "Node-Manager-Password";

/// Name of the cookie that may carry the user's access token.
pub const ACCESS_TOKEN_COOKIE: &'static str = "accessToken";

/// Whether `password` is the node manager password `expected`.
pub fn is_password_matches(expected: &str, password: &str) -> (res: bool)
    ensures
        res == (expected@ == password@),
{
    str_eq(expected, password)
}

/// The password a request offers: the cookie's if there is one, else the header's.
pub open spec fn offered_password(cookie: Option<Seq<char>>, header: Option<Seq<char>>) -> Option<Seq<char>> {
    match cookie {
        Some(p) => Some(p),
        None => header,
    }
}

/// The cookie decides when it is there: whatever the header holds (or whether
/// it is there at all), the password offered is the cookie's, and it is the
/// expected one exactly when the cookie's is. The header is read only when
/// there is no cookie.
pub proof fn lemma_cookie_decides(p: Seq<char>, h1: Option<Seq<char>>, h2: Option<Seq<char>>, expected: Seq<char>)
    ensures
        offered_password(Some(p), h1) == Some(p),
        offered_password(Some(p), h1) == offered_password(Some(p), h2),
        offered_password(Some(p), h1) == Some(expected) <==> p == expected,
        offered_password(None, h1) == h1,
{
}

impl NodeManager {
    /// Admits the caller of a node route. The password is taken from the
    /// `nodeManagerPassword` cookie, or else from the `Node-Manager-Password`
    /// header (none where that header is not visible ASCII); a request with
    /// neither, or with another password than `expected`, is refused with 401.
    pub fn authorize(cookie: Option<&str>, header: Option<&str>, expected: &str) -> (res: Result<
        NodeManager,
        u16,
    >)
        ensures
            match offered_password(opt_str(cookie), opt_str(header)) {
                Some(p) => if p == expected@ {
                    res is Ok
                } else {
                    res == Err::<NodeManager, u16>(STATUS_UNAUTHORIZED)
                },
                None => res == Err::<NodeManager, u16>(STATUS_UNAUTHORIZED),
            },
    {
        let password = match cookie {
            Some(p) => p,
            None => match header {
                Some(p) => p,
                None => return Err(STATUS_UNAUTHORIZED),
            },
        };
        if !is_password_matches(expected, password) {
            return Err(STATUS_UNAUTHORIZED);
        }
        Ok(NodeManager)
    }
}

/// The access token of a request: the `accessToken` cookie's if there is one,
/// else the bearer token of the `Authorization` header; when neither is there
/// the header's rejection (its message) is the error.
pub fn select_access_token(cookie: Option<String>, bearer: Result<String, String>) -> (res: Result<
    String,
    AuthError,
>)
    ensures
        match cookie {
            Some(t) => res matches Ok(r) && r@ == t@,
            None => match bearer {
                Ok(t) => res matches Ok(r) && r@ == t@,
                Err(m) => res matches Err(AuthError::Extraction(e)) && e@ == m@,
            },
        },
{
    match cookie {
        Some(t) => Ok(t),
        None => match bearer {
            Ok(t) => Ok(t),
            Err(m) => Err(AuthError::Extraction(m)),
        },
    }
}

/// The caller's claims from what decoding its access token gave: the claims
/// where the token was valid, else the decoder's reason as an invalid token.
pub fn claims_from_decoded(decoded: Result<UserCredentials, String>) -> (res: Result<
    UserCredentials,
    AuthError,
>)
    ensures
        match decoded {
            Ok(c) => res matches Ok(r) && r.user_id@ == c.user_id@,
            Err(m) => res matches Err(AuthError::InvalidToken(e)) && e@ == m@,
        },
{
    match decoded {
        Ok(c) => Ok(c),
        Err(m) => Err(AuthError::InvalidToken(m)),
    }
}

} // verus!
