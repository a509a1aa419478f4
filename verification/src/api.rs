//! Client-side handles for the HTTP surface.  The requests themselves
//! are I/O and live with the embedding application; the handles only
//! carry what every request needs.

use vstd::prelude::*;

verus! {

/// A client with no credentials; it can only attempt a login.
pub struct ApiClient {}

impl ApiClient {
    pub fn new() -> Self {
        ApiClient {  }
    }
}

/// A client carrying the authorization token a login handed out.
pub struct AuthorizedApiClient {
    token: String,
}

impl View for AuthorizedApiClient {
    type V = Seq<char>;

    closed spec fn view(&self) -> Seq<char> {
        self.token@
    }
}

impl AuthorizedApiClient {
    pub fn new(token: String) -> (r: Self)
        ensures
            r@ == token@,
    {
        AuthorizedApiClient { token }
    }
}

} // verus!
