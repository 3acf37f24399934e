//! The provider variant's configuration and the addresses of the identity
//! provider's endpoints that it calls.

use vstd::prelude::*;
use crate::identity::{uuid_text, uuid_text_of};

verus! {

/// Settings of the provider variant: store, listen address, provider
/// location and realm, admin client credentials and expected audience.
#[derive(Clone, Debug)]
pub struct Config {
    pub database_url: String,
    pub host: String,
    pub port: u16,
    pub keycloak_url: String,
    pub realm: String,
    pub admin_client_id: String,
    pub admin_client_secret: String,
    pub audience: String,
}

impl Config {
    /// The provider's token endpoint of the realm.
    pub fn token_endpoint(&self) -> (r: String)
        ensures
            r@ == self.keycloak_url@ + "/realms/"@ + self.realm@ + "/protocol/openid-connect/token"@,
    {
        let mut url = self.keycloak_url.clone();
        url.append("/realms/");
        url.append(self.realm.as_str());
        url.append("/protocol/openid-connect/token");
        url
    }

    /// The admin endpoint listing the realm's users.
    pub fn users_endpoint(&self) -> (r: String)
        ensures
            r@ == self.keycloak_url@ + "/admin/realms/"@ + self.realm@ + "/users"@,
    {
        let mut url = self.keycloak_url.clone();
        url.append("/admin/realms/");
        url.append(self.realm.as_str());
        url.append("/users");
        url
    }

    /// The admin endpoint of one user of the realm.
    pub fn user_endpoint(&self, id: u128) -> (r: String)
        ensures
            r@ == self.keycloak_url@ + "/admin/realms/"@ + self.realm@ + "/users/"@ + uuid_text_of(id),
    {
        let mut url = self.keycloak_url.clone();
        url.append("/admin/realms/");
        url.append(self.realm.as_str());
        url.append("/users/");
        let text = uuid_text(id);
        url.append(text.as_str());
        url
    }
}

} // verus!
