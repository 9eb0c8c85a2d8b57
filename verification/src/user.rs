//! A plain holder for the caller's API key.

use vstd::prelude::*;
use vstd::string::StringExecFns;

verus! {

/// Holds one API key.
pub struct APIKey(String);

impl APIKey {
    /// The key held.
    pub closed spec fn spec_key(&self) -> Seq<char> {
        self.0@
    }

    /// Initialize the holder with the given key.
    pub fn set_api(api: &str) -> (r: APIKey)
        ensures
            r.spec_key() == api@,
    {
        APIKey(String::from_str(api))
    }

    /// Return the key that was set.
    pub fn get_api(&self) -> (r: String)
        ensures
            r@ == self.spec_key(),
    {
        self.0.clone()
    }
}

} // verus!
