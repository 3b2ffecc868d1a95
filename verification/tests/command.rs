use slash::arg::{integer, string};
use slash::command::{
    BuildError, ChatInputCommandBuilder, Command, CommandBuilder, MessageCommandBuilder,
};
use slash::filter::{HandlerStep, MapStep};
use slash::model::command::{ApplicationCommandType, CommandOptionType};
use slash::model::snowflake::Snowflake;

#[test]
fn build_fails_without_a_name() {
    let result = ChatInputCommandBuilder::new().build();
    assert_eq!(result.unwrap_err(), BuildError::EmptyName);
    let result = MessageCommandBuilder::new().build();
    assert_eq!(result.unwrap_err(), BuildError::EmptyName);
}

#[test]
fn builder_sets_every_metadata_field() {
    let command = ChatInputCommandBuilder::new()
        .set_name("ping")
        .set_description("Test the bot's latency.")
        .set_guild_id(Snowflake::from(77u64))
        .set_default_permission(true)
        .build()
        .unwrap();
    let meta = command.meta();
    assert_eq!(meta.name, "ping");
    assert_eq!(meta.description, "Test the bot's latency.");
    assert_eq!(meta.guild_id, Some(Snowflake::from(77u64)));
    assert!(meta.default_permission);
    assert_eq!(command.ty(), ApplicationCommandType::ChatInput);
}

#[test]
fn builder_records_options_in_declaration_order() {
    let command = ChatInputCommandBuilder::new()
        .set_name("report")
        .add_string_option(string("title", "The report title."))
        .add_integer_option(integer("count".to_string(), "How many.".to_string()))
        .build()
        .unwrap();
    assert_eq!(command.options.len(), 2);
    assert_eq!(command.options[0].name, "title");
    assert_eq!(command.options[0].ty, CommandOptionType::Text);
    assert!(command.options[0].required);
    assert_eq!(command.options[1].name, "count");
    assert_eq!(command.options[1].ty, CommandOptionType::Integer);
}

#[test]
fn message_command_reports_its_type() {
    let command = MessageCommandBuilder::new()
        .set_name("quote")
        .on_execute(HandlerStep::Mapped(MapStep::Reply("quoted".to_string())))
        .build()
        .unwrap();
    assert_eq!(command.ty(), ApplicationCommandType::Message);
    assert_eq!(command.meta().name, "quote");
}
