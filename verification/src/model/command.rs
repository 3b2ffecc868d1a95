//! Registered command metadata: the payload a registration collaborator
//! ultimately serializes and sends to the platform.

use vstd::prelude::*;

use crate::model::snowflake::Snowflake;

verus! {

/// A value a choice-constrained option offers.  Floating-point choice
/// values are carried by their decimal text: this core never computes with
/// them, and coercion rules are the registration layer's concern.
#[derive(Clone, Debug, PartialEq)]
pub enum ChoiceValue {
    Text(String),
    Integer(i64),
}

/// One (display-name, value) pair a choice-constrained option offers.
#[derive(Clone, Debug, PartialEq)]
pub struct CommandOptionChoice {
    pub name: String,
    pub value: ChoiceValue,
}

/// The declared type of a command option.
#[derive(Clone, Copy, Debug, PartialEq, Eq, Structural)]
pub enum CommandOptionType {
    SubCommand,
    SubCommandGroup,
    Text,
    Integer,
    Boolean,
    User,
    Channel,
    Role,
    Mentionable,
    Number,
}

/// An option of a registered command.
#[derive(Debug)]
pub struct ApplicationCommandOption {
    /// The type of option.
    pub ty: CommandOptionType,
    /// The name of the option.
    pub name: String,
    /// The description of the option, 1-100 characters.
    pub description: String,
    /// If the parameter is required or optional--default false.
    pub required: bool,
    /// Choices for text, integer and number types for the user to pick
    /// from, max 25.
    pub choices: Vec<CommandOptionChoice>,
    /// If the option is a subcommand or subcommand group type, these nested
    /// options will be the parameters.
    pub options: Vec<ApplicationCommandOption>,
}

/// The kind of a registered application command.
#[derive(Clone, Copy, Debug, PartialEq, Eq, Structural)]
pub enum ApplicationCommandType {
    /// Slash commands; a text-based command that shows up when a user
    /// types a slash.
    ChatInput,
    /// A UI-based command that shows up when you right click or tap on a
    /// user.
    User,
    /// A UI-based command that shows up when you right click or tap on a
    /// message.
    Message,
}

impl Default for ApplicationCommandType {
    fn default() -> (t: ApplicationCommandType)
        ensures
            t == ApplicationCommandType::ChatInput,
    {
        ApplicationCommandType::ChatInput
    }
}

/// Application commands are commands that an application can register to
/// the platform.  They provide users a first-class way of interacting
/// directly with an application.
#[derive(Debug)]
pub struct ApplicationCommand {
    /// Unique id of the command.
    pub id: Snowflake,
    /// The type of command.
    pub ty: ApplicationCommandType,
    /// Unique id of the parent application.
    pub application_id: Snowflake,
    /// Guild id of the command, if not global.
    pub guild_id: Option<Snowflake>,
    /// 1-32 character name.
    pub name: String,
    /// 1-100 character description for chat-input commands, empty string
    /// for user and message commands.
    pub description: String,
    /// The parameters for the command, max 25, valid only for chat-input
    /// commands.
    pub options: Vec<ApplicationCommandOption>,
}

} // verus!
