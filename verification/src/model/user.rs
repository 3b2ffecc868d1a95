//! User accounts.

use vstd::prelude::*;

use crate::model::snowflake::Snowflake;

verus! {

/// Discord Employee.
pub const STAFF: u32 = 1 << 0;

/// Partnered Server Owner.
pub const PARTNER: u32 = 1 << 1;

/// HypeSquad Events Coordinator.
pub const HYPESQUAD: u32 = 1 << 2;

/// Bug Hunter Level 1.
pub const BUG_HUNTER_LEVEL_1: u32 = 1 << 3;

/// House Bravery Member.
pub const HYPESQUAD_ONLINE_HOUSE_1: u32 = 1 << 6;

/// House Brilliance Member.
pub const HYPESQUAD_ONLINE_HOUSE_2: u32 = 1 << 7;

/// House Balance Member.
pub const HYPESQUAD_ONLINE_HOUSE_3: u32 = 1 << 8;

/// Early Nitro Supporter.
pub const PREMIUM_EARLY_SUPPORTER: u32 = 1 << 9;

/// User is a team.
pub const TEAM_PSEUDO_USER: u32 = 1 << 10;

/// Bug Hunter Level 2.
pub const BUG_HUNTER_LEVEL_2: u32 = 1 << 14;

/// Verified Bot.
pub const VERIFIED_BOT: u32 = 1 << 16;

/// Early Verified Bot Developer.
pub const VERIFIED_DEVELOPER: u32 = 1 << 17;

/// Discord Certified Moderator.
pub const CERTIFIED_MODERATOR: u32 = 1 << 18;

/// Bot uses only HTTP interactions and is shown in the online member list.
pub const BOT_HTTP_INTERACTIONS: u32 = 1 << 19;

/// The flags set on a user's account, as a bit set drawn from the constants
/// of this module.
#[derive(Clone, Copy, Debug, PartialEq, Eq, Structural)]
pub struct UserFlags {
    pub bits: u32,
}

impl UserFlags {
    /// The empty flag set.
    pub fn empty() -> (f: UserFlags)
        ensures
            f.bits == 0,
    {
        UserFlags { bits: 0 }
    }

    /// A flag set holding exactly the given bits.
    pub fn from_bits(bits: u32) -> (f: UserFlags)
        ensures
            f.bits == bits,
    {
        UserFlags { bits }
    }

    /// Whether every bit of `flag` is set in this flag set.
    pub fn contains(&self, flag: u32) -> (b: bool)
        ensures
            b == (self.bits & flag == flag),
    {
        self.bits & flag == flag
    }
}

/// The type of Nitro subscription on a user's account.
#[derive(Debug, Clone, Copy, PartialEq, Eq, Structural)]
pub enum PremiumType {
    NotSubscribed,
    NitroClassic,
    Nitro,
}

/// A user account.
#[derive(Debug, Clone)]
pub struct User {
    /// The user's ID.
    pub id: Snowflake,
    /// The user's username.
    pub username: String,
    /// The user's discriminator.
    pub discriminator: String,
    /// The user's avatar hash.
    pub avatar: Option<String>,
    /// Whether this user belongs to an OAuth-2 application.
    pub bot: bool,
    /// Whether the user is an official system user.
    pub system: bool,
    /// Whether the user has two-factor authentication enabled.
    pub mfa_enabled: bool,
    /// The user's banner hash.
    pub banner: Option<String>,
    /// The user's banner color, as an integer representation of a
    /// hexadecimal color code.
    pub accent_color: Option<u32>,
    /// The user's chosen language option.
    pub locale: String,
    /// The flags on a user's account.
    pub flags: UserFlags,
    /// The user's public flags.
    pub public_flags: UserFlags,
    /// The type of Nitro subscription on a user's account.
    pub premium_type: PremiumType,
}

impl User {
    /// The user's tag: username and discriminator joined by a hash sign.
    pub fn tag(&self) -> (r: String)
        ensures
            r@ == self.username@ + "#"@ + self.discriminator@,
    {
        let mut r = self.username.clone();
        r.append("#");
        r.append(self.discriminator.as_str());
        r
    }
}

} // verus!
