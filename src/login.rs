use std::ops::Deref;

use vstd::prelude::*;

use crate::journey::{InternalJourneyRequest, JourneyRequest, SEARCH_SOURCE_SYSTEM};

verus! {

/// Credentials of the anonymous login.
#[derive(Debug, Clone, Copy)]
pub struct LoginRequestInternal<'a> {
    pub domain: &'a str,
    pub password: &'a str,
    pub username: &'a str,
}

/// Body of the login call.
#[derive(Debug, Clone, Copy)]
pub struct LoginRequestBody<'a> {
    pub login: LoginRequestInternal<'a>,
    pub source_system: i8,
}

impl Default for LoginRequestBody<'_> {
    /// The fixed anonymous credentials, from source system 1.
    fn default() -> (r: Self)
        ensures
            r.login.domain@ == "WWW"@,
            r.login.password@ == "Accenture$1"@,
            r.login.username@ == "WWW_Anonymous"@,
            r.source_system == 1,
    {
        LoginRequestBody {
            login: LoginRequestInternal {
                domain: "WWW",
                password: "Accenture$1",
                username: "WWW_Anonymous",
            },
            source_system: 1,
        }
    }
}

/// What the login call returns: the session token.
#[derive(Debug, Clone)]
pub struct LoginResponse {
    signature: String,
}

impl LoginResponse {
    pub fn new(signature: String) -> (r: LoginResponse)
        ensures
            r.token() == signature@,
    {
        LoginResponse { signature }
    }

    /// The token.
    pub closed spec fn token(&self) -> Seq<char> {
        self.signature@
    }

}

impl Deref for LoginResponse {
    type Target = str;

    /// The token, borrowed.
    fn deref(&self) -> (r: &str)
        ensures
            r@ == self.token(),
    {
        self.signature.as_str()
    }
}

/// Holds the session token once the login call has given one. It is meant
/// for a single caller: two callers that both find no token would both log
/// in, and the token stored last is kept (both are valid).
#[derive(Debug)]
pub struct SessionGate {
    signature: Option<LoginResponse>,
}

impl SessionGate {
    /// The token held, if any.
    pub closed spec fn held(&self) -> Option<Seq<char>> {
        match self.signature {
            Some(s) => Some(s.token()),
            None => None,
        }
    }

    /// A gate with no token: the first privileged call logs in.
    pub fn new() -> (r: SessionGate)
        ensures
            r.held() is None,
    {
        SessionGate { signature: None }
    }

    /// Whether a token is held; where none is, the login call is due.
    pub fn is_initialized(&self) -> (r: bool)
        ensures
            r == self.held() is Some,
    {
        self.signature.is_some()
    }

    /// Stores the token that the login call returned.
    pub fn init(&mut self, response: LoginResponse)
        ensures
            final(self).held() == Some(response.token()),
    {
        self.signature = Some(response);
    }

    /// The envelope of a journey search with the token held; `None` while no
    /// token is held.
    pub fn search_request<'a>(&'a self, journey: &'a JourneyRequest) -> (r: Option<
        InternalJourneyRequest<'a>,
    >)
        ensures
            match (r, self.held()) {
                (Some(e), Some(t)) => e.spec_signature()@ == t && e.spec_source_system()
                    == SEARCH_SOURCE_SYSTEM && e.spec_get_available_trains() == journey,
                (None, None) => true,
                _ => false,
            },
    {
        match &self.signature {
            Some(s) => Some(InternalJourneyRequest::new(s.deref(), SEARCH_SOURCE_SYSTEM, journey)),
            None => None,
        }
    }
}

} // verus!
