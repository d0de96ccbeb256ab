//! Where charge requests are sent.
use vstd::prelude::*;
use crate::shared::text::{trim_trailing_slashes, trimmed_slashes};

verus! {

/// The charge endpoint of the PSP at `base_url`: the base without its
/// trailing slashes, then `/charge`.
pub fn charge_url(base_url: &str) -> (res: String)
    ensures
        res@ == trimmed_slashes(base_url@) + "/charge"@,
{
    let base = trim_trailing_slashes(base_url);
    let mut url = String::from_str(base);
    url.append("/charge");
    url
}

} // verus!
