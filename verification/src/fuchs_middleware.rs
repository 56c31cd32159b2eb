//! Who may use the API: the token check of API requests and the session check
//! of the admin pages.
use vstd::prelude::*;

use crate::text::same_text;

verus! {

/// The query parameters that may carry an API token (`apiKey`).
#[derive(Debug, Clone)]
pub struct AuthParams {
    pub api_key: Option<String>,
}

/// What the token check answers.
#[derive(Debug, Clone, PartialEq, Eq)]
pub enum TokenCheck {
    /// The token is known: the request goes on.
    Granted,
    /// A token was given that is not known; it is carried.
    WrongToken(String),
    /// No token was given.
    MissingToken,
}

/// The token of a request: the bearer token of its header, else the `apiKey`
/// parameter.
pub open spec fn given_token(header: Option<String>, params: AuthParams) -> Option<Seq<char>> {
    match header {
        Some(t) => Some(t@),
        None => match params.api_key {
            Some(k) => Some(k@),
            None => None,
        },
    }
}

/// Whether `token` is one of `tokens`.
pub open spec fn is_known(tokens: Seq<String>, token: Seq<char>) -> bool {
    exists|i: int| 0 <= i < tokens.len() && #[trigger] tokens[i]@ == token
}

/// Whether `token` is one of the known `tokens`.
pub fn knows_token(tokens: &Vec<String>, token: &str) -> (r: bool)
    ensures
        r == is_known(tokens@, token@),
{
    let n = tokens.len();
    let mut i: usize = 0;
    while i < n
        invariant
            n == tokens@.len(),
            i <= n,
            forall|k: int| 0 <= k < i ==> #[trigger] tokens@[k]@ != token@,
        decreases n - i,
    {
        if same_text(tokens[i].as_str(), token) {
            assert(tokens@[i as int]@ == token@);
            return true;
        }
        i += 1;
    }
    false
}

/// The answer of the token check to a request with the bearer token `header`
/// and the query `params`, given the known `tokens`.
pub fn check_token(header: Option<String>, params: &AuthParams, tokens: &Vec<String>) -> (r:
    TokenCheck)
    ensures
        match given_token(header, *params) {
            None => r == TokenCheck::MissingToken,
            Some(t) => if is_known(tokens@, t) {
                r == TokenCheck::Granted
            } else {
                r matches TokenCheck::WrongToken(w) && w@ == t
            },
        },
{
    let token = match header {
        Some(t) => t,
        None => match &params.api_key {
            Some(k) => k.clone(),
            None => return TokenCheck::MissingToken,
        },
    };
    if knows_token(tokens, token.as_str()) {
        TokenCheck::Granted
    } else {
        TokenCheck::WrongToken(token)
    }
}

/// How often the known tokens are reloaded, in seconds: every thirty minutes.
pub fn thirty_minutes_duration() -> (r: u64)
    ensures
        r == 60 * 30,
{
    60 * 30
}

/// What the session check of the admin pages answers.
#[derive(Debug, Clone, Copy, PartialEq, Eq, Structural)]
pub enum AdminAccess {
    /// The request goes on.
    Pass,
    /// The user has to log in.
    Login,
}

/// The answer of the session check: preflight (`OPTIONS`) requests always
/// pass, others only with a session cookie.
pub fn check_admin(is_options_request: bool, has_session_cookie: bool) -> (r: AdminAccess)
    ensures
        r == (if is_options_request || has_session_cookie {
            AdminAccess::Pass
        } else {
            AdminAccess::Login
        }),
{
    if is_options_request || has_session_cookie {
        AdminAccess::Pass
    } else {
        AdminAccess::Login
    }
}

} // verus!
