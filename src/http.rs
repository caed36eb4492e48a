//! Session continuity over HTTP: the cookie sent with a request and the one a reply sets.
use vstd::prelude::*;

verus! {

/// Name of the session cookie.
pub const SESSION_COOKIE: &'static str = "sessionId";

/// What a homeserver replied to a request.
pub struct HttpReply {
    /// The body, as bytes.
    pub body: Vec<u8>,
    /// The body, as text.
    pub text: String,
    /// The value of the session cookie that the reply sets, if it sets one.
    pub session_cookie: Option<String>,
}

/// The `cookie` header value that carries a session: `sessionId=<value>`.
pub fn cookie_header(session_id: &Option<String>) -> (r: Option<String>)
    ensures
        session_id matches Some(s) ==> (r matches Some(h) && h@ == SESSION_COOKIE@ + "="@ + s@),
        session_id is None ==> r is None,
{
    match session_id {
        Some(s) => Some(String::from_str(SESSION_COOKIE).concat("=").concat(s.as_str())),
        None => None,
    }
}

/// The session after a reply: the cookie it sets replaces the session, else the session
/// stays.
pub fn update_session(session_id: &mut Option<String>, set_cookie: &Option<String>)
    ensures
        set_cookie matches Some(c) ==> (*final(session_id) matches Some(s) && s@ == c@),
        set_cookie is None ==> *final(session_id) == *old(session_id),
{
    match set_cookie {
        Some(c) => {
            *session_id = Some(c.clone());
        },
        None => {},
    }
}

} // verus!
