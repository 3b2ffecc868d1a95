//! URLs for the application endpoints.

use vstd::prelude::*;

use crate::model::snowflake::Snowflake;
use crate::rest::{api_endpoint, api_endpoint_view};
use crate::text::dec_rep;

verus! {

/// The URL of one application, as [`id`] renders it.
pub open spec fn application_url(application_id: Snowflake) -> Seq<char> {
    api_endpoint_view() + "/applications"@ + "/"@ + dec_rep(application_id.value() as nat)
}

/// Create a URL to look up an application by its ID.
pub fn id(application_id: Snowflake) -> (r: String)
    ensures
        r@ == application_url(application_id),
{
    let mut r = String::from_str(api_endpoint());
    r.append("/applications");
    r.append("/");
    r.append(application_id.to_text().as_str());
    r
}

/// Create a URL to look up an application's commands.
pub fn commands(application_id: Snowflake) -> (r: String)
    ensures
        r@ == application_url(application_id) + "/commands"@,
{
    let mut r = id(application_id);
    r.append("/commands");
    r
}

/// Create a URL to look up all guilds in this application.
pub fn guilds(application_id: Snowflake) -> (r: String)
    ensures
        r@ == application_url(application_id) + "/guilds"@,
{
    let mut r = id(application_id);
    r.append("/guilds");
    r
}

/// Create a URL to look up a guild in the application.
pub fn guild(application_id: Snowflake, guild_id: Snowflake) -> (r: String)
    ensures
        r@ == application_url(application_id) + "/guilds"@ + "/guilds/"@ + dec_rep(
            guild_id.value() as nat,
        ),
{
    let mut r = guilds(application_id);
    r.append("/guilds/");
    r.append(guild_id.to_text().as_str());
    r
}

/// Create a URL to look up a guild's commands.
pub fn guild_commands(application_id: Snowflake, guild_id: Snowflake) -> (r: String)
    ensures
        r@ == application_url(application_id) + "/guilds"@ + "/guilds/"@ + dec_rep(
            guild_id.value() as nat,
        ) + "/commands"@,
{
    let mut r = guilds(application_id);
    r.append("/guilds/");
    r.append(guild_id.to_text().as_str());
    r.append("/commands");
    r
}

} // verus!
