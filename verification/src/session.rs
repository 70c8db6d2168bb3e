//! The session with the platform: the token that the browser left in its
//! cookies, and the header that carries it.

use crate::outside::{capture, first_capture};
use vstd::prelude::*;
use vstd::string::*;

verus! {

/// The line of a cookie file that holds the platform's access token, as a
/// regular expression. The token is the group `value`.
pub const TOKEN_PATTERN: &'static str =
    r"(?m)^(?P<domain>\.weverse\.io)\t.+?\t.+?\t.+?\t.+?\t(?P<name>we_access_token)\t(?P<value>.+?)$";

/// The group of `TOKEN_PATTERN` that holds the token.
pub const TOKEN_GROUP: &'static str = "value";

/// What is said where a cookie file holds no token.
pub open spec fn no_token_text(cookies_file: Seq<char>) -> Seq<char> {
    "Error parsing "@ + cookies_file
}

/// The value of the authorization header for a token.
pub open spec fn bearer_text(token: Seq<char>) -> Seq<char> {
    "Bearer "@ + token
}

/// Turns what was found in a cookie file into the token, or into the words
/// that say that the file named `cookies_file` holds none.
pub fn token_from_capture(cookies_file: &str, captured: Option<String>) -> (r: Result<
    String,
    String,
>)
    ensures
        match captured {
            Some(token) => r == Ok::<String, String>(token),
            None => r matches Err(said) && said@ == no_token_text(cookies_file@),
        },
{
    match captured {
        Some(token) => Ok(token),
        None => {
            let mut said = String::from_str("Error parsing ");
            said.append(cookies_file);
            Err(said)
        },
    }
}

/// Finds the access token in the contents of the cookie file named
/// `cookies_file`: the last field of the first line that names the
/// platform's domain and the token's cookie.
pub fn read_token(cookies_file: &str, contents: &str) -> (r: Result<String, String>)
    ensures
        match first_capture(TOKEN_PATTERN@, TOKEN_GROUP@, contents@) {
            Some(token) => r matches Ok(found) && found@ == token,
            None => r matches Err(said) && said@ == no_token_text(cookies_file@),
        },
{
    let captured = capture(TOKEN_PATTERN, TOKEN_GROUP, contents);
    token_from_capture(cookies_file, captured)
}

/// Writes the value of the authorization header for a token.
pub fn authorization(token: &str) -> (r: String)
    ensures
        r@ == bearer_text(token@),
{
    let mut s = String::from_str("Bearer ");
    s.append(token);
    s
}

} // verus!
