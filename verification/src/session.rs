//! The session issuer: an opaque random token, and the attributes of the
//! cookie that carries it. No server-side record of a session is kept.

use uuid::Uuid;
use vstd::prelude::*;

verus! {

/// The name of the cookie that carries a session token.
pub open spec fn cookie_name() -> Seq<char> {
    "session_id"@
}

/// The path on which the session cookie is sent back: every path.
pub open spec fn cookie_path() -> Seq<char> {
    "/"@
}

/// A digit of lower-case hexadecimal.
pub open spec fn is_lower_hex(c: char) -> bool {
    ('0' <= c && c <= '9') || ('a' <= c && c <= 'f')
}

/// The positions of the four hyphens in the text of a UUID.
pub open spec fn is_hyphen_position(i: int) -> bool {
    i == 8 || i == 13 || i == 18 || i == 23
}

/// The text of a random UUID: 36 characters, hyphens after the groups of 8,
/// 4, 4 and 4 digits, lower-case hexadecimal elsewhere, the digit `4` for the
/// version, and `8`, `9`, `a` or `b` for the variant. The other 122 bits are
/// free.
pub open spec fn token_shaped(text: Seq<char>) -> bool {
    &&& text.len() == 36
    &&& forall|i: int|
        0 <= i < 36 ==> if is_hyphen_position(i) {
            #[trigger] text[i] == '-'
        } else {
            is_lower_hex(text[i])
        }
    &&& text[14] == '4'
    &&& (text[19] == '8' || text[19] == '9' || text[19] == 'a' || text[19] == 'b')
}

/// Calls `Uuid::new_v4` and writes the UUID out with `to_string`. Claimed:
/// the text has the hyphenated lower-case form of a version 4 UUID. Nothing
/// is claimed of the random digits.
#[verifier::external_body]
fn random_uuid_text() -> (text: String)
    ensures
        token_shaped(text@),
{
    Uuid::new_v4().to_string()
}

/// An opaque bearer token, handed to a client after a successful login.
#[derive(Debug)]
pub struct SessionToken {
    text: String,
}

impl View for SessionToken {
    type V = Seq<char>;

    closed spec fn view(&self) -> Seq<char> {
        self.text@
    }
}

impl SessionToken {
    /// The token as text.
    pub fn as_str(&self) -> (text: &str)
        ensures
            text@ == self@,
    {
        self.text.as_str()
    }
}

/// When a browser sends a cookie along with requests from other sites.
#[derive(Clone, Copy, Debug, PartialEq, Eq, Structural)]
pub enum SameSite {
    /// Never with a request from another site.
    Strict,
    /// With top-level navigation from another site, not with its
    /// subrequests.
    Lax,
    /// With every request.
    Unrestricted,
}

/// A cookie as the response is to set it.
#[derive(Debug)]
pub struct SessionCookie {
    pub name: String,
    pub value: String,
    pub http_only: bool,
    pub same_site: SameSite,
    pub path: String,
    /// Seconds until the cookie expires; without it the cookie lasts as long
    /// as the browser's session.
    pub max_age: Option<u64>,
}

/// The cookie that carries the token `value`: named `session_id`, hidden
/// from scripts, `SameSite=Lax`, sent on every path, with no expiry.
pub open spec fn carries(cookie: SessionCookie, value: Seq<char>) -> bool {
    &&& cookie.name@ == cookie_name()
    &&& cookie.value@ == value
    &&& cookie.http_only
    &&& cookie.same_site == SameSite::Lax
    &&& cookie.path@ == cookie_path()
    &&& cookie.max_age is None
}

/// Mints a session token.
pub fn issue() -> (token: SessionToken)
    ensures
        token_shaped(token@),
{
    SessionToken { text: random_uuid_text() }
}

/// Describes the cookie in which `token` travels.
pub fn session_cookie(token: SessionToken) -> (cookie: SessionCookie)
    ensures
        carries(cookie, token@),
{
    SessionCookie {
        name: "session_id".to_owned(),
        value: token.text,
        http_only: true,
        same_site: SameSite::Lax,
        path: "/".to_owned(),
        max_age: None,
    }
}

} // verus!
