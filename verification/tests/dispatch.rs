use slash::arg::string;
use slash::command::{ChatInputCommand, ChatInputCommandBuilder, CommandBuilder};
use slash::dispatch::dispatch;
use slash::filter::{HandlerStep, MapStep};
use slash::model::interaction::{ArgValue, Invocation, InvocationOption};
use slash::model::snowflake::Snowflake;

fn invocation(name: &str, options: Vec<(&str, ArgValue)>) -> Invocation {
    Invocation {
        name: name.to_string(),
        options: options
            .into_iter()
            .map(|(n, value)| InvocationOption {
                name: n.to_string(),
                value,
            })
            .collect(),
        user_id: Snowflake::from(1u64),
        channel_id: Snowflake::from(2u64),
        guild_id: None,
    }
}

fn table() -> Vec<ChatInputCommand> {
    let ping = ChatInputCommandBuilder::new()
        .set_name("ping")
        .set_description("Test the bot's latency.")
        .on_execute(HandlerStep::Mapped(MapStep::Reply("pong!".to_string())))
        .build()
        .unwrap();
    let echo = ChatInputCommandBuilder::new()
        .set_name("echo")
        .set_description("Echo the text back.")
        .add_string_option(string("text", "The text to echo."))
        .on_execute(HandlerStep::Mapped(MapStep::ReplyConcat(String::new())))
        .build()
        .unwrap();
    vec![ping, echo]
}

#[test]
fn dispatch_runs_only_the_matching_command() {
    let commands = table();
    let replies = dispatch(&commands, invocation("ping", vec![]), "error");
    // Only ping's chain ran: echo's chain would have added its own reply
    // (or the fallback, since "text" is absent).
    assert_eq!(replies, vec!["pong!".to_string()]);
}

#[test]
fn dispatch_routes_echo_with_its_argument() {
    let commands = table();
    let replies = dispatch(
        &commands,
        invocation("echo", vec![("text", ArgValue::Text("hi there".to_string()))]),
        "error",
    );
    assert_eq!(replies, vec!["hi there".to_string()]);
}

#[test]
fn dispatch_falls_back_when_no_command_matches() {
    let commands = table();
    let replies = dispatch(&commands, invocation("nope", vec![]), "unknown command");
    assert_eq!(replies, vec!["unknown command".to_string()]);
}

#[test]
fn dispatch_falls_back_when_the_chain_rejects() {
    let commands = table();
    let replies = dispatch(&commands, invocation("echo", vec![]), "missing text");
    assert_eq!(replies, vec!["missing text".to_string()]);
}

#[test]
fn dispatch_matches_the_first_of_two_same_named_commands() {
    let first = ChatInputCommandBuilder::new()
        .set_name("twin")
        .on_execute(HandlerStep::Mapped(MapStep::Reply("first".to_string())))
        .build()
        .unwrap();
    let second = ChatInputCommandBuilder::new()
        .set_name("twin")
        .on_execute(HandlerStep::Mapped(MapStep::Reply("second".to_string())))
        .build()
        .unwrap();
    let commands = vec![first, second];
    let replies = dispatch(&commands, invocation("twin", vec![]), "error");
    assert_eq!(replies, vec!["first".to_string()]);
}
