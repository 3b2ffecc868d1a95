//! Guild membership data.

use vstd::prelude::*;

use crate::model::snowflake::Snowflake;
use crate::model::user::User;

verus! {

/// A user's membership in one guild.
#[derive(Debug, Clone)]
pub struct Member {
    /// The user this guild member represents.
    pub user: User,
    /// This user's guild nickname.
    pub nickname: String,
    /// The member's guild avatar hash.
    pub avatar: Option<String>,
    /// Array of role object ids.
    pub roles: Vec<Snowflake>,
    /// When the user joined the guild.
    pub joined_at: String,
    /// When the user started boosting the guild.
    pub premium_since: String,
    /// Whether the user is deafened in voice channels.
    pub deaf: bool,
    /// Whether the user is muted in voice channels.
    pub mute: bool,
    /// Whether the user has not yet passed the guild's membership screening.
    pub pending: Option<bool>,
    /// Total permissions of the member in the channel, including overwrites.
    pub permissions: String,
    /// When the user's timeout will expire, if the user is timed out.
    pub communication_disabled_until: Option<String>,
}

} // verus!
