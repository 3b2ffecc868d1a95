//! REST API endpoint URLs for the platform's HTTP interface.

use vstd::prelude::*;

pub mod applications;
pub mod users;

verus! {

/// The root-level API endpoint.
pub open spec fn api_endpoint_view() -> Seq<char> {
    "https://discordapp.com/api/v9"@
}

/// The root-level API endpoint.
pub fn api_endpoint() -> (r: &'static str)
    ensures
        r@ == api_endpoint_view(),
{
    "https://discordapp.com/api/v9"
}

} // verus!
