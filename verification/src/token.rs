//! The token that a client sends for authentication.
use vstd::prelude::*;

verus! {

/// The `Token` that was sent by the client for authentication
#[derive(Debug)]
pub struct Token(pub Option<String>);

impl Token {
    /// The token, where the request carried one.
    pub fn get_token(&self) -> (r: Option<&String>)
        ensures
            r is Some <==> self.0 is Some,
            r matches Some(t) ==> *t == self.0->0,
    {
        match &self.0 {
            Some(t) => Some(t),
            None => None,
        }
    }
}

/// The `Token` of a request, given the text of its `Token` header, where it has one.
pub fn get_token_from_headers(token_header: Option<String>) -> (r: Token)
    ensures
        r.0 == token_header,
{
    Token(token_header)
}

} // verus!
