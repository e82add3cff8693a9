use vstd::prelude::*;

verus! {

/// Access token of a connection.
#[derive(Clone, PartialEq, Eq, Default)]
pub struct AccessToken(pub(crate) String);

impl AccessToken {
    /// The text of this token.
    pub closed spec fn text(&self) -> Seq<char> {
        self.0@
    }

    /// An access token with the text of `token`.
    pub fn new(token: &str) -> (r: AccessToken)
        ensures
            r.text() == token@,
    {
        AccessToken(token.to_owned())
    }

    /// The text of this token.
    pub fn into_string(self) -> (r: String)
        ensures
            r@ == self.text(),
    {
        self.0
    }
}

/// Error of a token source.
#[derive(Debug)]
pub struct TokenSourceError {
    pub message: String,
}

impl TokenSourceError {
    /// An error that carries the text of `err`.
    pub fn new(err: &str) -> (r: TokenSourceError)
        ensures
            r.message@ == err@,
    {
        TokenSourceError { message: err.to_owned() }
    }

    /// An error that carries the message `msg`.
    pub fn from_msg(msg: &str) -> (r: TokenSourceError)
        ensures
            r.message@ == msg@,
    {
        TokenSourceError { message: msg.to_owned() }
    }
}

/// A token source that always gives the same token.
#[derive(Clone, Default)]
pub struct StaticTokenSource(pub AccessToken);

impl StaticTokenSource {
    /// A static token source of the token with the text `token`.
    pub fn new(token: &str) -> (r: StaticTokenSource)
        ensures
            r.0.text() == token@,
    {
        StaticTokenSource(AccessToken::new(token))
    }

    /// The token of this source.
    pub fn token(&self) -> (r: Result<AccessToken, TokenSourceError>)
        ensures
            r matches Ok(t) && t == self.0,
    {
        Ok(AccessToken(self.0.0.clone()))
    }
}

} // verus!
