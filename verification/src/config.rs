//! The persisted client configuration, as plain values; reading and writing
//! the file belongs to the surrounding program.
use vstd::prelude::*;

verus! {

#[derive(Debug)]
pub struct Config {
    pub client_id: Option<String>,
    pub client_secret: Option<String>,
    pub redirect_uri: Option<String>,
    pub scope: Option<String>,
}

/// A copy of an optional string, equal to the original.
pub fn clone_opt_string(v: &Option<String>) -> (r: Option<String>)
    ensures
        r == *v,
{
    match v {
        Option::Some(s) => Some(s.clone()),
        Option::None => None,
    }
}

impl Clone for Config {
    fn clone(&self) -> (r: Config)
        ensures
            r == *self,
    {
        Config {
            client_id: clone_opt_string(&self.client_id),
            client_secret: clone_opt_string(&self.client_secret),
            redirect_uri: clone_opt_string(&self.redirect_uri),
            scope: clone_opt_string(&self.scope),
        }
    }
}

impl Config {
    pub fn empty() -> (r: Config)
        ensures
            r.client_id is None,
            r.client_secret is None,
            r.redirect_uri is None,
            r.scope is None,
    {
        Config { client_id: None, client_secret: None, redirect_uri: None, scope: None }
    }

    /// Whether the fields needed to build an authorization link are all set;
    /// the client secret is not needed until the code exchange.
    pub open spec fn is_complete_spec(self) -> bool {
        self.client_id is Some && self.redirect_uri is Some && self.scope is Some
    }

    pub fn is_complete(&self) -> (r: bool)
        ensures
            r == self.is_complete_spec(),
    {
        self.client_id.is_some() && self.redirect_uri.is_some() && self.scope.is_some()
    }

    /// Overwrites every field from the given configuration; persisting the
    /// result is the caller's side request.
    pub fn update(&mut self, new_config: Config)
        ensures
            *final(self) == new_config,
    {
        *self = new_config;
    }
}

} // verus!
