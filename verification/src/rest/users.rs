//! URLs for the user endpoints.

use vstd::prelude::*;

use crate::model::snowflake::Snowflake;
use crate::rest::{api_endpoint, api_endpoint_view};
use crate::text::dec_rep;

verus! {

/// The URL path of the users collection.
pub open spec fn users_endpoint() -> Seq<char> {
    api_endpoint_view() + "/users"@
}

/// Create a URL to look up the current account's profile.
pub fn me() -> (r: String)
    ensures
        r@ == users_endpoint() + "/@me"@,
{
    let mut r = String::from_str(api_endpoint());
    r.append("/users");
    r.append("/@me");
    r
}

/// Create a URL to look up a user's profile.
pub fn id(user_id: Snowflake) -> (r: String)
    ensures
        r@ == users_endpoint() + "/"@ + dec_rep(user_id.value() as nat),
{
    let mut r = String::from_str(api_endpoint());
    r.append("/users");
    r.append("/");
    r.append(user_id.to_text().as_str());
    r
}

} // verus!
