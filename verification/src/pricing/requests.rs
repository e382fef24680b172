//! Defaults of pricing requests.

use vstd::prelude::*;

verus! {

/// The currency of a request that names none.
pub fn default_currency() -> (r: String)
    ensures
        r@ == "MXN"@,
{
    "MXN".to_owned()
}

} // verus!
