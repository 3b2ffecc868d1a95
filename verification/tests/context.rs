use slash::context::{Context, Scope};
use slash::model::interaction::Invocation;
use slash::model::snowflake::Snowflake;

fn invocation(name: &str) -> Invocation {
    Invocation {
        name: name.to_string(),
        options: Vec::new(),
        user_id: Snowflake::from(10u64),
        channel_id: Snowflake::from(20u64),
        guild_id: Some(Snowflake::from(30u64)),
    }
}

#[test]
fn scope_is_entered_only_between_enter_and_exit() {
    let mut scope = Scope::new();
    assert!(!scope.is_entered());
    scope.enter(Context::new(invocation("ping")));
    assert!(scope.is_entered());
    let ctx = scope.exit();
    assert!(!scope.is_entered());
    assert!(ctx.replies().is_empty());
}

#[test]
fn with_mut_observes_the_entered_context() {
    let mut scope = Scope::new();
    scope.enter(Context::new(invocation("ping")));
    {
        let ctx = scope.with_mut();
        assert_eq!(ctx.invocation().name, "ping");
        assert_eq!(ctx.invocation().user_id, Snowflake::from(10u64));
        ctx.reply("pong!");
    }
    assert!(scope.is_entered());
    let ctx = scope.exit();
    assert_eq!(ctx.replies().as_slice(), &["pong!".to_string()]);
}

#[test]
fn replies_accumulate_in_order() {
    let mut ctx = Context::new(invocation("multi"));
    ctx.reply("one");
    ctx.reply("two");
    assert_eq!(
        ctx.into_replies(),
        vec!["one".to_string(), "two".to_string()]
    );
}
