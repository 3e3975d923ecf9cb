//! Process configuration: everything the tool needs from the command
//! line. Argument parsing itself lives outside the library; the parsed
//! values are handed over in this plain struct.

use vstd::prelude::*;

verus! {

/// The four required inputs: where the web-admin page lives, the basic-auth
/// credentials for it, and the API key for the reputation service.
#[derive(Debug, PartialEq, Eq)]
pub struct Opt {
    pub address: String,
    pub login: String,
    pub password: String,
    pub api_key: String,
}

impl Clone for Opt {
    fn clone(&self) -> (r: Self)
        ensures
            r == *self,
    {
        Opt {
            address: self.address.clone(),
            login: self.login.clone(),
            password: self.password.clone(),
            api_key: self.api_key.clone(),
        }
    }
}

} // verus!
