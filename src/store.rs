use vstd::prelude::*;

verus! {

/// Where the local record of mints is kept.
pub struct Config {
    pub url: String,
}

} // verus!
