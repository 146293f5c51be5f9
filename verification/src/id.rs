//! The opaque identifier that the native layer hands out for each of its objects.

use vstd::prelude::*;

verus! {

/// An identifier of one native object.
///
/// The native layer chooses the token (an index in one build, an address in another); this
/// layer never computes with it and only hands it back. Two identifiers are the same
/// exactly when their tokens are.
#[derive(Clone, Copy, Debug, PartialEq, Eq, Hash, Structural)]
pub struct Id {
    token: u64,
}

impl Id {
    /// The token of this identifier, as a number.
    pub closed spec fn token_spec(&self) -> u64 {
        self.token
    }

    /// Wraps a token that the native layer returned.
    pub fn from_token(token: u64) -> (id: Id)
        ensures
            id.token_spec() == token,
    {
        Id { token }
    }

    /// The token to hand back to the native layer.
    pub fn token(&self) -> (t: u64)
        ensures
            t == self.token_spec(),
    {
        self.token
    }
}

/// Identifiers are determined by their tokens.
pub proof fn lemma_id_by_token(a: Id, b: Id)
    ensures
        (a == b) <==> (a.token_spec() == b.token_spec()),
{
}

} // verus!
