//! The delivery endpoint's address: the reporting URL with the fixed query
//! parameters the receiving script expects.

use vstd::prelude::*;
use vstd::string::StringExecFns;

verus! {

/// The fixed query string appended to the reporting endpoint.
pub open spec fn spec_endpoint_params() -> Seq<char> {
    "?location=ReferralScore&operation=replace"@
}

/// Builds the full delivery address: the endpoint URL followed by the fixed
/// query string.
pub fn gas_endpoint_url(endpoint_url: &str) -> (r: String)
    ensures
        r@ == endpoint_url@ + spec_endpoint_params(),
{
    let s = String::from_str(endpoint_url);
    s.concat("?location=ReferralScore&operation=replace")
}

} // verus!
