//! Command definitions and their builders.
//!
//! A builder associates a name, description and option schema with a
//! filter chain that is the command's handler; `build` produces the
//! immutable definition a dispatch table holds.

use vstd::prelude::*;

use crate::arg::{ChoiceArgument, FloatArg, IntArg, StringArgument};
use crate::filter::{and_of, attach_of, Filter, HandlerStep};
use crate::model::command::{
    ApplicationCommandOption, ApplicationCommandType, ChoiceValue, CommandOptionChoice,
    CommandOptionType,
};
use crate::model::snowflake::Snowflake;

verus! {

/// Shared metadata between the command types.
#[derive(Debug)]
pub struct CommandMeta {
    /// The name of this command.
    pub name: String,
    /// 1-100 character description for chat-input commands, empty string
    /// for user and message commands.
    pub description: String,
    /// The id of the guild this command is for, or nothing for a global
    /// command.
    pub guild_id: Option<Snowflake>,
    /// Whether the command is enabled by default when the app is added to
    /// a guild.
    pub default_permission: bool,
}

fn clone_meta(m: &CommandMeta) -> (r: CommandMeta)
    ensures
        r == *m,
{
    CommandMeta {
        name: m.name.clone(),
        description: m.description.clone(),
        guild_id: m.guild_id,
        default_permission: m.default_permission,
    }
}

/// A configuration mistake caught when a command is built.
#[derive(Debug, Clone, Copy, PartialEq, Eq, Structural)]
pub enum BuildError {
    /// The command was built without a name.
    EmptyName,
}

/// Trait representing a registered application command.
pub trait Command: Sized {
    /// The command metadata, as a specification-level value.
    spec fn meta_spec(&self) -> CommandMeta;

    /// The command type, as a specification-level value.
    spec fn ty_spec(&self) -> ApplicationCommandType;

    /// Get the command meta data.
    fn meta(&self) -> (m: CommandMeta)
        ensures
            m == self.meta_spec(),
    ;

    /// Get the command type.
    fn ty(&self) -> (t: ApplicationCommandType)
        ensures
            t == self.ty_spec(),
    ;
}

/// A slash command: metadata, the option schema sent to the registration
/// layer, and the bound handler chain run at dispatch time.
#[derive(Debug)]
pub struct ChatInputCommand {
    /// The command metadata.
    pub meta: CommandMeta,
    /// The parameters for the command, max 25, in declaration order.
    pub options: Vec<ApplicationCommandOption>,
    /// The bound handler: a complete filter chain ending in the steps the
    /// builder attached.
    pub handler: Filter,
}

impl Command for ChatInputCommand {
    open spec fn meta_spec(&self) -> CommandMeta {
        self.meta
    }

    open spec fn ty_spec(&self) -> ApplicationCommandType {
        ApplicationCommandType::ChatInput
    }

    fn meta(&self) -> (m: CommandMeta) {
        clone_meta(&self.meta)
    }

    fn ty(&self) -> (t: ApplicationCommandType) {
        ApplicationCommandType::ChatInput
    }
}

/// A command shown when a user right clicks or taps on a message.
#[derive(Debug)]
pub struct MessageCommand {
    /// The command metadata.
    pub meta: CommandMeta,
    /// The bound handler chain.
    pub handler: Filter,
}

impl Command for MessageCommand {
    open spec fn meta_spec(&self) -> CommandMeta {
        self.meta
    }

    open spec fn ty_spec(&self) -> ApplicationCommandType {
        ApplicationCommandType::Message
    }

    fn meta(&self) -> (m: CommandMeta) {
        clone_meta(&self.meta)
    }

    fn ty(&self) -> (t: ApplicationCommandType) {
        ApplicationCommandType::Message
    }
}

/// A command shown when a user right clicks or taps on a user.
#[derive(Debug)]
pub struct UserCommand {
    /// The command metadata.
    pub meta: CommandMeta,
    /// The bound handler chain.
    pub handler: Filter,
}

impl Command for UserCommand {
    open spec fn meta_spec(&self) -> CommandMeta {
        self.meta
    }

    open spec fn ty_spec(&self) -> ApplicationCommandType {
        ApplicationCommandType::User
    }

    fn meta(&self) -> (m: CommandMeta) {
        clone_meta(&self.meta)
    }

    fn ty(&self) -> (t: ApplicationCommandType) {
        ApplicationCommandType::User
    }
}

/// The fluent interface every command builder offers.  Each step returns
/// the updated builder; `build` consumes it.
pub trait CommandBuilder<T: Command>: Sized {
    /// Create a new builder.
    fn new() -> Self;

    /// Consume this builder and return the built command.
    fn build(self) -> Result<T, BuildError>;

    /// Set the name of the command.
    fn set_name(self, name: &str) -> Self;

    /// Set the description of the command.
    fn set_description(self, description: &str) -> Self;

    /// Set the guild id of the command.
    fn set_guild_id(self, guild_id: Snowflake) -> Self;

    /// Set the default permission of the command.
    fn set_default_permission(self, default_permission: bool) -> Self;

    /// Attach the terminal handler step run when the command is invoked.
    fn on_execute(self, step: HandlerStep) -> Self;
}

/// Builder for a [`ChatInputCommand`].
#[derive(Debug)]
pub struct ChatInputCommandBuilder {
    inner: ChatInputCommand,
}

impl ChatInputCommandBuilder {
    /// The command as accumulated so far.
    pub closed spec fn inner_spec(self) -> ChatInputCommand {
        self.inner
    }

    /// Declare a required text option; it is appended to the registered
    /// schema and wired into the handler chain, in declaration order.
    pub fn add_string_option(self, arg: StringArgument) -> (r: Self)
        ensures
            r.inner_spec().meta == self.inner_spec().meta,
            r.inner_spec().options@.len() == self.inner_spec().options@.len() + 1,
            forall|i: int|
                0 <= i < self.inner_spec().options@.len() ==> r.inner_spec().options@[i]
                    == self.inner_spec().options@[i],
            r.inner_spec().options@.last().ty == CommandOptionType::Text,
            r.inner_spec().options@.last().name == arg.name,
            r.inner_spec().options@.last().description == arg.description,
            r.inner_spec().options@.last().required,
            r.inner_spec().handler == and_of(
                self.inner_spec().handler,
                Filter::StringArg(arg),
            ),
    {
        let ChatInputCommandBuilder { inner } = self;
        let ChatInputCommand { meta, mut options, handler } = inner;
        options.push(
            ApplicationCommandOption {
                ty: CommandOptionType::Text,
                name: arg.name.clone(),
                description: arg.description.clone(),
                required: true,
                choices: Vec::new(),
                options: Vec::new(),
            },
        );
        let handler = handler.and(arg.filter());
        ChatInputCommandBuilder { inner: ChatInputCommand { meta, options, handler } }
    }

    /// Declare a required integer option; it is appended to the registered
    /// schema and wired into the handler chain, in declaration order.
    pub fn add_integer_option(self, arg: IntArg) -> (r: Self)
        ensures
            r.inner_spec().meta == self.inner_spec().meta,
            r.inner_spec().options@.len() == self.inner_spec().options@.len() + 1,
            forall|i: int|
                0 <= i < self.inner_spec().options@.len() ==> r.inner_spec().options@[i]
                    == self.inner_spec().options@[i],
            r.inner_spec().options@.last().ty == CommandOptionType::Integer,
            r.inner_spec().options@.last().name == arg.name,
            r.inner_spec().options@.last().description == arg.description,
            r.inner_spec().options@.last().required,
            r.inner_spec().handler == and_of(self.inner_spec().handler, Filter::IntArg(arg)),
    {
        let ChatInputCommandBuilder { inner } = self;
        let ChatInputCommand { meta, mut options, handler } = inner;
        options.push(
            ApplicationCommandOption {
                ty: CommandOptionType::Integer,
                name: arg.name.clone(),
                description: arg.description.clone(),
                required: true,
                choices: Vec::new(),
                options: Vec::new(),
            },
        );
        let handler = handler.and(arg.filter());
        ChatInputCommandBuilder { inner: ChatInputCommand { meta, options, handler } }
    }

    /// Declare a required number option; it is appended to the registered
    /// schema and wired into the handler chain, in declaration order.
    pub fn add_float_option(self, arg: FloatArg) -> (r: Self)
        ensures
            r.inner_spec().meta == self.inner_spec().meta,
            r.inner_spec().options@.len() == self.inner_spec().options@.len() + 1,
            forall|i: int|
                0 <= i < self.inner_spec().options@.len() ==> r.inner_spec().options@[i]
                    == self.inner_spec().options@[i],
            r.inner_spec().options@.last().ty == CommandOptionType::Number,
            r.inner_spec().options@.last().name == arg.name,
            r.inner_spec().options@.last().description == arg.description,
            r.inner_spec().options@.last().required,
            r.inner_spec().handler == and_of(self.inner_spec().handler, Filter::FloatArg(arg)),
    {
        let ChatInputCommandBuilder { inner } = self;
        let ChatInputCommand { meta, mut options, handler } = inner;
        options.push(
            ApplicationCommandOption {
                ty: CommandOptionType::Number,
                name: arg.name.clone(),
                description: arg.description.clone(),
                required: true,
                choices: Vec::new(),
                options: Vec::new(),
            },
        );
        let handler = handler.and(arg.filter());
        ChatInputCommandBuilder { inner: ChatInputCommand { meta, options, handler } }
    }

    /// Declare a required choice-constrained text option; it is appended
    /// to the registered schema, choices in declaration order, and wired
    /// into the handler chain.
    pub fn add_choice_option(self, arg: ChoiceArgument) -> (r: Self)
        ensures
            r.inner_spec().meta == self.inner_spec().meta,
            r.inner_spec().options@.len() == self.inner_spec().options@.len() + 1,
            forall|i: int|
                0 <= i < self.inner_spec().options@.len() ==> r.inner_spec().options@[i]
                    == self.inner_spec().options@[i],
            r.inner_spec().options@.last().ty == CommandOptionType::Text,
            r.inner_spec().options@.last().name == arg.name,
            r.inner_spec().options@.last().description == arg.description,
            r.inner_spec().options@.last().required,
            r.inner_spec().options@.last().choices@.len() == arg.choices@.len(),
            forall|i: int|
                0 <= i < arg.choices@.len() ==> r.inner_spec().options@.last().choices@[i].name
                    == arg.choices@[i] && r.inner_spec().options@.last().choices@[i].value
                    == ChoiceValue::Text(arg.choices@[i]),
            r.inner_spec().handler == and_of(self.inner_spec().handler, Filter::ChoiceArg(arg)),
    {
        let ChatInputCommandBuilder { inner } = self;
        let ChatInputCommand { meta, mut options, handler } = inner;
        let mut choices: Vec<CommandOptionChoice> = Vec::new();
        let mut i: usize = 0;
        while i < arg.choices.len()
            invariant
                i <= arg.choices@.len(),
                choices@.len() == i,
                forall|j: int|
                    0 <= j < i ==> choices@[j].name == arg.choices@[j] && choices@[j].value
                        == ChoiceValue::Text(arg.choices@[j]),
            decreases arg.choices@.len() - i,
        {
            choices.push(
                CommandOptionChoice {
                    name: arg.choices[i].clone(),
                    value: ChoiceValue::Text(arg.choices[i].clone()),
                },
            );
            i = i + 1;
        }
        options.push(
            ApplicationCommandOption {
                ty: CommandOptionType::Text,
                name: arg.name.clone(),
                description: arg.description.clone(),
                required: true,
                choices,
                options: Vec::new(),
            },
        );
        let handler = handler.and(arg.filter());
        ChatInputCommandBuilder { inner: ChatInputCommand { meta, options, handler } }
    }
}

impl CommandBuilder<ChatInputCommand> for ChatInputCommandBuilder {
    fn new() -> (r: Self)
        ensures
            r.inner_spec().meta.name@ == Seq::<char>::empty(),
            r.inner_spec().meta.description@ == Seq::<char>::empty(),
            r.inner_spec().meta.guild_id is None,
            !r.inner_spec().meta.default_permission,
            r.inner_spec().options@ == Seq::<ApplicationCommandOption>::empty(),
            r.inner_spec().handler == Filter::Any,
    {
        ChatInputCommandBuilder {
            inner: ChatInputCommand {
                meta: CommandMeta {
                    guild_id: None,
                    name: String::new(),
                    description: String::new(),
                    default_permission: false,
                },
                options: Vec::new(),
                handler: Filter::Any,
            },
        }
    }

    fn build(self) -> (r: Result<ChatInputCommand, BuildError>)
        ensures
            match r {
                Ok(c) => self.inner_spec().meta.name@.len() > 0 && c == self.inner_spec(),
                Err(e) => self.inner_spec().meta.name@.len() == 0 && e == BuildError::EmptyName,
            },
    {
        if self.inner.meta.name.as_str().is_empty() {
            Err(BuildError::EmptyName)
        } else {
            Ok(self.inner)
        }
    }

    fn set_name(self, name: &str) -> (r: Self)
        ensures
            r.inner_spec().meta.name@ == name@,
            r.inner_spec().meta.description == self.inner_spec().meta.description,
            r.inner_spec().meta.guild_id == self.inner_spec().meta.guild_id,
            r.inner_spec().meta.default_permission == self.inner_spec().meta.default_permission,
            r.inner_spec().options == self.inner_spec().options,
            r.inner_spec().handler == self.inner_spec().handler,
    {
        let ChatInputCommandBuilder { inner } = self;
        let ChatInputCommand { meta, options, handler } = inner;
        let meta = CommandMeta { name: String::from_str(name), ..meta };
        ChatInputCommandBuilder { inner: ChatInputCommand { meta, options, handler } }
    }

    fn set_description(self, description: &str) -> (r: Self)
        ensures
            r.inner_spec().meta.description@ == description@,
            r.inner_spec().meta.name == self.inner_spec().meta.name,
            r.inner_spec().meta.guild_id == self.inner_spec().meta.guild_id,
            r.inner_spec().meta.default_permission == self.inner_spec().meta.default_permission,
            r.inner_spec().options == self.inner_spec().options,
            r.inner_spec().handler == self.inner_spec().handler,
    {
        let ChatInputCommandBuilder { inner } = self;
        let ChatInputCommand { meta, options, handler } = inner;
        let meta = CommandMeta { description: String::from_str(description), ..meta };
        ChatInputCommandBuilder { inner: ChatInputCommand { meta, options, handler } }
    }

    fn set_guild_id(self, guild_id: Snowflake) -> (r: Self)
        ensures
            r.inner_spec().meta.guild_id == Some(guild_id),
            r.inner_spec().meta.name == self.inner_spec().meta.name,
            r.inner_spec().meta.description == self.inner_spec().meta.description,
            r.inner_spec().meta.default_permission == self.inner_spec().meta.default_permission,
            r.inner_spec().options == self.inner_spec().options,
            r.inner_spec().handler == self.inner_spec().handler,
    {
        let ChatInputCommandBuilder { inner } = self;
        let ChatInputCommand { meta, options, handler } = inner;
        let meta = CommandMeta { guild_id: Some(guild_id), ..meta };
        ChatInputCommandBuilder { inner: ChatInputCommand { meta, options, handler } }
    }

    fn set_default_permission(self, default_permission: bool) -> (r: Self)
        ensures
            r.inner_spec().meta.default_permission == default_permission,
            r.inner_spec().meta.name == self.inner_spec().meta.name,
            r.inner_spec().meta.description == self.inner_spec().meta.description,
            r.inner_spec().meta.guild_id == self.inner_spec().meta.guild_id,
            r.inner_spec().options == self.inner_spec().options,
            r.inner_spec().handler == self.inner_spec().handler,
    {
        let ChatInputCommandBuilder { inner } = self;
        let ChatInputCommand { meta, options, handler } = inner;
        let meta = CommandMeta { default_permission, ..meta };
        ChatInputCommandBuilder { inner: ChatInputCommand { meta, options, handler } }
    }

    fn on_execute(self, step: HandlerStep) -> (r: Self)
        ensures
            r.inner_spec().meta == self.inner_spec().meta,
            r.inner_spec().options == self.inner_spec().options,
            r.inner_spec().handler == attach_of(self.inner_spec().handler, step),
    {
        let ChatInputCommandBuilder { inner } = self;
        let ChatInputCommand { meta, options, handler } = inner;
        let handler = handler.attach(step);
        ChatInputCommandBuilder { inner: ChatInputCommand { meta, options, handler } }
    }
}

/// Builder for a [`MessageCommand`].
#[derive(Debug)]
pub struct MessageCommandBuilder {
    inner: MessageCommand,
}

impl MessageCommandBuilder {
    /// The command as accumulated so far.
    pub closed spec fn inner_spec(self) -> MessageCommand {
        self.inner
    }
}

impl CommandBuilder<MessageCommand> for MessageCommandBuilder {
    fn new() -> (r: Self)
        ensures
            r.inner_spec().meta.name@ == Seq::<char>::empty(),
            r.inner_spec().meta.description@ == Seq::<char>::empty(),
            r.inner_spec().meta.guild_id is None,
            !r.inner_spec().meta.default_permission,
            r.inner_spec().handler == Filter::Any,
    {
        MessageCommandBuilder {
            inner: MessageCommand {
                meta: CommandMeta {
                    guild_id: None,
                    name: String::new(),
                    description: String::new(),
                    default_permission: false,
                },
                handler: Filter::Any,
            },
        }
    }

    fn build(self) -> (r: Result<MessageCommand, BuildError>)
        ensures
            match r {
                Ok(c) => self.inner_spec().meta.name@.len() > 0 && c == self.inner_spec(),
                Err(e) => self.inner_spec().meta.name@.len() == 0 && e == BuildError::EmptyName,
            },
    {
        if self.inner.meta.name.as_str().is_empty() {
            Err(BuildError::EmptyName)
        } else {
            Ok(self.inner)
        }
    }

    fn set_name(self, name: &str) -> (r: Self)
        ensures
            r.inner_spec().meta.name@ == name@,
            r.inner_spec().meta.description == self.inner_spec().meta.description,
            r.inner_spec().meta.guild_id == self.inner_spec().meta.guild_id,
            r.inner_spec().meta.default_permission == self.inner_spec().meta.default_permission,
            r.inner_spec().handler == self.inner_spec().handler,
    {
        let MessageCommandBuilder { inner } = self;
        let MessageCommand { meta, handler } = inner;
        let meta = CommandMeta { name: String::from_str(name), ..meta };
        MessageCommandBuilder { inner: MessageCommand { meta, handler } }
    }

    fn set_description(self, description: &str) -> (r: Self)
        ensures
            r.inner_spec().meta.description@ == description@,
            r.inner_spec().meta.name == self.inner_spec().meta.name,
            r.inner_spec().meta.guild_id == self.inner_spec().meta.guild_id,
            r.inner_spec().meta.default_permission == self.inner_spec().meta.default_permission,
            r.inner_spec().handler == self.inner_spec().handler,
    {
        let MessageCommandBuilder { inner } = self;
        let MessageCommand { meta, handler } = inner;
        let meta = CommandMeta { description: String::from_str(description), ..meta };
        MessageCommandBuilder { inner: MessageCommand { meta, handler } }
    }

    fn set_guild_id(self, guild_id: Snowflake) -> (r: Self)
        ensures
            r.inner_spec().meta.guild_id == Some(guild_id),
            r.inner_spec().meta.name == self.inner_spec().meta.name,
            r.inner_spec().meta.description == self.inner_spec().meta.description,
            r.inner_spec().meta.default_permission == self.inner_spec().meta.default_permission,
            r.inner_spec().handler == self.inner_spec().handler,
    {
        let MessageCommandBuilder { inner } = self;
        let MessageCommand { meta, handler } = inner;
        let meta = CommandMeta { guild_id: Some(guild_id), ..meta };
        MessageCommandBuilder { inner: MessageCommand { meta, handler } }
    }

    fn set_default_permission(self, default_permission: bool) -> (r: Self)
        ensures
            r.inner_spec().meta.default_permission == default_permission,
            r.inner_spec().meta.name == self.inner_spec().meta.name,
            r.inner_spec().meta.description == self.inner_spec().meta.description,
            r.inner_spec().meta.guild_id == self.inner_spec().meta.guild_id,
            r.inner_spec().handler == self.inner_spec().handler,
    {
        let MessageCommandBuilder { inner } = self;
        let MessageCommand { meta, handler } = inner;
        let meta = CommandMeta { default_permission, ..meta };
        MessageCommandBuilder { inner: MessageCommand { meta, handler } }
    }

    fn on_execute(self, step: HandlerStep) -> (r: Self)
        ensures
            r.inner_spec().meta == self.inner_spec().meta,
            r.inner_spec().handler == attach_of(self.inner_spec().handler, step),
    {
        let MessageCommandBuilder { inner } = self;
        let MessageCommand { meta, handler } = inner;
        let handler = handler.attach(step);
        MessageCommandBuilder { inner: MessageCommand { meta, handler } }
    }
}

} // verus!
