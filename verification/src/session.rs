//! Session state: the authentication cookie and the current anti-forgery
//! token.
//!
//! The cookie is supplied once, at construction, and never changes; its
//! absence is a distinct error, not an empty string. The token may start
//! unset and is overwritten — never merged — every time the service issues a
//! replacement. Staleness of the token is discovered only by server
//! rejection, never by local validation, so no validity predicate is stated
//! here.

use crate::error::UploadError;
use vstd::prelude::*;
use vstd::string::*;

verus! {

/// The two credentials needed on every authenticated call.
pub struct Session {
    /// The session cookie, or `None` when the caller never supplied one.
    pub cookie: Option<String>,
    /// The current anti-forgery token; empty until first set.
    pub token: String,
}

impl Session {
    /// A fresh session with the given cookie and no token yet.
    pub fn new(cookie: Option<String>) -> (s: Session)
        ensures
            s.cookie == cookie,
            s.token@ == Seq::<char>::empty(),
    {
        Session { cookie, token: String::new() }
    }

    /// The cookie, or `MissingAuth` when it was never supplied.
    pub fn get_cookie(&self) -> (r: Result<String, UploadError>)
        ensures
            self.cookie matches Some(c) ==> r matches Ok(rc) && rc == c,
            self.cookie is None ==> r == Err::<String, UploadError>(UploadError::MissingAuth),
    {
        match &self.cookie {
            Some(c) => Ok(c.clone()),
            None => Err(UploadError::MissingAuth),
        }
    }

    /// The current token. Emptiness is not an error at this layer.
    pub fn get_token(&self) -> (r: String)
        ensures
            r == self.token,
    {
        self.token.clone()
    }

    /// Unconditionally replaces the stored token; the cookie is untouched.
    pub fn set_token(&mut self, new_value: String)
        ensures
            final(self).token == new_value,
            final(self).cookie == old(self).cookie,
    {
        self.token = new_value;
    }
}

} // verus!
