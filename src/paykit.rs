//! Payment endpoints: where their index is found.
use vstd::prelude::*;

verus! {

/// Index location used when none is given.
pub const INDEX_URL: &'static str = "slashpay.json";

/// Payment endpoints published through an index.
pub struct Paykit {}

impl Paykit {
    /// A payment endpoint manager.
    pub fn new() -> (r: Paykit) {
        Paykit {}
    }

    /// The index location given, or the default one.
    pub fn get_url<'a>(url: Option<&'a str>) -> (r: &'a str)
        ensures
            url matches Some(u) ==> r@ == u@,
            url is None ==> r@ == INDEX_URL@,
    {
        match url {
            Some(u) => u,
            None => INDEX_URL,
        }
    }
}

} // verus!
