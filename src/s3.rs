use vstd::prelude::*;

verus! {

/// How to reach the object store holding the save archives.
#[derive(Debug)]
pub struct Config {
    pub region: String,
    pub access_key_id: String,
    pub secret_access_key: String,
    pub endpoint_url: String,
}

impl Config {
    /// The configuration from the values of the four environment variables
    /// it is read from; `None` when any of them is unset.
    pub fn from_env(
        region: Option<String>,
        access_key_id: Option<String>,
        secret_access_key: Option<String>,
        endpoint_url: Option<String>,
    ) -> (r: Option<Config>)
        ensures
            r is Some <==> (region is Some && access_key_id is Some && secret_access_key is Some
                && endpoint_url is Some),
            r is Some ==> r->Some_0.region@ == region->Some_0@ && r->Some_0.access_key_id@
                == access_key_id->Some_0@ && r->Some_0.secret_access_key@
                == secret_access_key->Some_0@ && r->Some_0.endpoint_url@ == endpoint_url->Some_0@,
    {
        match (region, access_key_id, secret_access_key, endpoint_url) {
            (Some(region), Some(access_key_id), Some(secret_access_key), Some(endpoint_url)) => Some(
                Config { region, access_key_id, secret_access_key, endpoint_url },
            ),
            _ => None,
        }
    }

    /// The endpoint to download from: the host a save descriptor names, or
    /// the configured endpoint when the descriptor names none.
    pub fn endpoint_for(&self, host: &str) -> (r: String)
        ensures
            r@ == (if host@.len() == 0 {
                self.endpoint_url@
            } else {
                host@
            }),
    {
        if host.unicode_len() == 0 {
            self.endpoint_url.clone()
        } else {
            host.to_owned()
        }
    }
}

} // verus!
