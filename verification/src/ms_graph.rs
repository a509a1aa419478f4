//! Client state for the external identity provider's OAuth exchange.
//! The requests themselves are I/O and live with the embedding
//! application; what is kept and handed over between the two client
//! stages is stated exactly here.

use vstd::prelude::*;

verus! {

/// An OAuth client before any token was obtained.
pub struct UnauthenticatedClient {
    tenant_id: String,
    client_id: String,
    client_secret: String,
    redirect_uri: String,
}

/// Mathematical image of an [`UnauthenticatedClient`].
pub struct UnauthenticatedClientView {
    pub tenant_id: Seq<char>,
    pub client_id: Seq<char>,
    pub client_secret: Seq<char>,
    pub redirect_uri: Seq<char>,
}

impl View for UnauthenticatedClient {
    type V = UnauthenticatedClientView;

    closed spec fn view(&self) -> UnauthenticatedClientView {
        UnauthenticatedClientView {
            tenant_id: self.tenant_id@,
            client_id: self.client_id@,
            client_secret: self.client_secret@,
            redirect_uri: self.redirect_uri@,
        }
    }
}

/// An OAuth client holding an access and a refresh token.
pub struct AuthenticatedClient {
    tenant_id: String,
    client_id: String,
    client_secret: String,
    redirect_uri: String,
    access_token: String,
    refresh_token: String,
}

/// Mathematical image of an [`AuthenticatedClient`].
pub struct AuthenticatedClientView {
    pub tenant_id: Seq<char>,
    pub client_id: Seq<char>,
    pub client_secret: Seq<char>,
    pub redirect_uri: Seq<char>,
    pub access_token: Seq<char>,
    pub refresh_token: Seq<char>,
}

impl View for AuthenticatedClient {
    type V = AuthenticatedClientView;

    closed spec fn view(&self) -> AuthenticatedClientView {
        AuthenticatedClientView {
            tenant_id: self.tenant_id@,
            client_id: self.client_id@,
            client_secret: self.client_secret@,
            redirect_uri: self.redirect_uri@,
            access_token: self.access_token@,
            refresh_token: self.refresh_token@,
        }
    }
}

impl UnauthenticatedClient {
    pub fn new(
        tenant_id: String,
        client_id: String,
        client_secret: String,
        redirect_uri: String,
    ) -> (r: Self)
        ensures
            r@.tenant_id == tenant_id@,
            r@.client_id == client_id@,
            r@.client_secret == client_secret@,
            r@.redirect_uri == redirect_uri@,
    {
        UnauthenticatedClient { tenant_id, client_id, client_secret, redirect_uri }
    }

    /// Turns the client into an authenticated one once the token exchange
    /// has succeeded, keeping every connection parameter.
    pub fn into_authenticated_client(
        self,
        access_token: String,
        refresh_token: String,
    ) -> (r: AuthenticatedClient)
        ensures
            r@.tenant_id == self@.tenant_id,
            r@.client_id == self@.client_id,
            r@.client_secret == self@.client_secret,
            r@.redirect_uri == self@.redirect_uri,
            r@.access_token == access_token@,
            r@.refresh_token == refresh_token@,
    {
        AuthenticatedClient {
            tenant_id: self.tenant_id,
            client_id: self.client_id,
            client_secret: self.client_secret,
            redirect_uri: self.redirect_uri,
            access_token,
            refresh_token,
        }
    }
}

impl AuthenticatedClient {
    /// Replaces the access token after a renewal; nothing else moves.
    pub fn update_access_token(&mut self, access_token: String)
        ensures
            final(self)@ == (AuthenticatedClientView {
                access_token: access_token@,
                ..old(self)@
            }),
    {
        self.access_token = access_token;
    }
}

/// What the token endpoint answers to the initial code exchange.
#[derive(Clone, Debug)]
pub struct RequestAccessTokenResponse {
    pub token_type: String,
    pub scope: String,
    pub expires_in: u32,
    pub access_token: String,
    pub refresh_token: String,
}

/// What the token endpoint answers to a refresh.
#[derive(Clone, Debug)]
pub struct RenewAccessTokenResponse {
    pub token_type: String,
    pub scope: String,
    pub expires_in: u32,
    pub access_token: String,
    pub refresh_token: String,
}

} // verus!
