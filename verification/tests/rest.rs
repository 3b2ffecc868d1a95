use slash::model::snowflake::Snowflake;
use slash::model::user::{PremiumType, User, UserFlags, STAFF, VERIFIED_BOT};
use slash::rest::{applications, users};

#[test]
fn application_urls() {
    let app = Snowflake::from(123u64);
    assert_eq!(
        applications::id(app),
        "https://discordapp.com/api/v9/applications/123"
    );
    assert_eq!(
        applications::commands(app),
        "https://discordapp.com/api/v9/applications/123/commands"
    );
    assert_eq!(
        applications::guilds(app),
        "https://discordapp.com/api/v9/applications/123/guilds"
    );
    assert_eq!(
        applications::guild(app, Snowflake::from(9u64)),
        "https://discordapp.com/api/v9/applications/123/guilds/guilds/9"
    );
    assert_eq!(
        applications::guild_commands(app, Snowflake::from(9u64)),
        "https://discordapp.com/api/v9/applications/123/guilds/guilds/9/commands"
    );
}

#[test]
fn user_urls() {
    assert_eq!(users::me(), "https://discordapp.com/api/v9/users/@me");
    assert_eq!(
        users::id(Snowflake::from(456u64)),
        "https://discordapp.com/api/v9/users/456"
    );
}

#[test]
fn user_tag_joins_name_and_discriminator() {
    let user = User {
        id: Snowflake::from(1u64),
        username: "rusty".to_string(),
        discriminator: "0042".to_string(),
        avatar: None,
        bot: false,
        system: false,
        mfa_enabled: true,
        banner: None,
        accent_color: Some(0xFF0000),
        locale: "en-US".to_string(),
        flags: UserFlags::from_bits(STAFF | VERIFIED_BOT),
        public_flags: UserFlags::empty(),
        premium_type: PremiumType::Nitro,
    };
    assert_eq!(user.tag(), "rusty#0042");
    assert!(user.flags.contains(STAFF));
    assert!(user.flags.contains(VERIFIED_BOT));
    assert!(!user.public_flags.contains(STAFF));
}
